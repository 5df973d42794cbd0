use ed25519_dalek::{Signer, SigningKey};
use merkle_store::accumulator::{get_root_and_data, power_of_two, Commitment};
use merkle_store::log::{check_candidate, AdmitError, RecordLog};
use merkle_store::protocol::{reported_index, verify};
use merkle_store::record::convert_to_fixed_array;

fn signing_key(seed: u8) -> SigningKey {
    SigningKey::from_bytes(&[seed; 32])
}

/// Hex texts of (payload, signature, public key) for `payload` signed by `key`.
fn signed(key: &SigningKey, payload: &[u8]) -> (String, String, String) {
    let sig = key.sign(payload);
    (hex::encode(payload), hex::encode(sig.to_bytes()), hex::encode(key.verifying_key().as_bytes()))
}

fn submit_signed(log: &mut RecordLog, key: &SigningKey, payload: &[u8]) -> Result<usize, AdmitError> {
    let (b, s, p) = signed(key, payload);
    log.submit(b.as_bytes(), s.as_bytes(), p.as_bytes())
}

#[test]
fn normalize_pads_short_input() {
    let r = convert_to_fixed_array(&[1, 2, 3]);
    let mut expected = [0u8; 32];
    expected[0] = 1;
    expected[1] = 2;
    expected[2] = 3;
    assert_eq!(r, expected);
}

#[test]
fn normalize_empty_input_is_zero() {
    assert_eq!(convert_to_fixed_array(&[]), [0u8; 32]);
}

#[test]
fn normalize_truncates_long_input() {
    let input: Vec<u8> = (0..40u8).collect();
    let r = convert_to_fixed_array(&input);
    let expected: Vec<u8> = (0..32u8).collect();
    assert_eq!(r.to_vec(), expected);
}

#[test]
fn normalize_keeps_exact_width() {
    let input = [9u8; 32];
    assert_eq!(convert_to_fixed_array(&input), input);
}

#[test]
fn signed_record_is_appended() {
    let key = signing_key(7);
    let mut log = RecordLog::new();
    assert_eq!(submit_signed(&mut log, &key, &[0xab, 0xcd]).unwrap(), 1);
    assert_eq!(log.len(), 1);
    let mut expected = [0u8; 32];
    expected[0] = 0xab;
    expected[1] = 0xcd;
    assert_eq!(log.get(0), expected);
    assert_eq!(submit_signed(&mut log, &key, &[1u8; 40]).unwrap(), 2);
    assert_eq!(log.get(1), [1u8; 32]);
}

#[test]
fn signature_covers_raw_payload_not_record() {
    // A signature over the normalized record does not admit the shorter payload.
    let key = signing_key(3);
    let payload = [5u8; 4];
    let sig = key.sign(&convert_to_fixed_array(&payload));
    let mut log = RecordLog::new();
    let r = log.submit(
        hex::encode(payload).as_bytes(),
        hex::encode(sig.to_bytes()).as_bytes(),
        hex::encode(key.verifying_key().as_bytes()).as_bytes(),
    );
    assert!(matches!(r, Err(AdmitError::SignatureVerificationFailed(_))));
    assert_eq!(log.len(), 0);
}

#[test]
fn flipped_signature_bit_is_rejected() {
    let key = signing_key(11);
    let payload = [42u8; 32];
    let mut sig = key.sign(&payload).to_bytes();
    sig[5] ^= 0x10;
    let mut log = RecordLog::new();
    submit_signed(&mut log, &key, &[1u8; 32]).unwrap();
    let r = log.submit(
        hex::encode(payload).as_bytes(),
        hex::encode(sig).as_bytes(),
        hex::encode(key.verifying_key().as_bytes()).as_bytes(),
    );
    assert!(matches!(r, Err(AdmitError::SignatureVerificationFailed(_))));
    assert_eq!(log.len(), 1);
}

#[test]
fn flipped_payload_bit_is_rejected() {
    let key = signing_key(12);
    let payload = [42u8; 32];
    let (_, s, p) = signed(&key, &payload);
    let mut tampered = payload;
    tampered[31] ^= 0x01;
    let mut log = RecordLog::new();
    let r = log.submit(hex::encode(tampered).as_bytes(), s.as_bytes(), p.as_bytes());
    assert!(matches!(r, Err(AdmitError::SignatureVerificationFailed(_))));
    assert_eq!(log.len(), 0);
}

#[test]
fn short_public_key_is_a_format_error() {
    let key = signing_key(13);
    let (b, s, _) = signed(&key, &[1, 2, 3]);
    let short_pk = hex::encode(&key.verifying_key().as_bytes()[..16]);
    let mut log = RecordLog::new();
    let r = log.submit(b.as_bytes(), s.as_bytes(), short_pk.as_bytes());
    assert!(matches!(r, Err(AdmitError::InvalidKeyOrSignatureFormat(_))));
    assert_eq!(log.len(), 0);
}

#[test]
fn short_signature_is_a_format_error() {
    let key = signing_key(14);
    let (b, s, p) = signed(&key, &[1, 2, 3]);
    let r = check_candidate(b.as_bytes(), s[..126].as_bytes(), p.as_bytes());
    assert!(matches!(r, Err(AdmitError::InvalidKeyOrSignatureFormat(_))));
}

#[test]
fn bad_hex_is_a_decode_error() {
    let key = signing_key(15);
    let (b, s, p) = signed(&key, &[1, 2, 3]);
    let odd_sig = &s[..127];
    assert!(matches!(check_candidate(b.as_bytes(), odd_sig.as_bytes(), p.as_bytes()), Err(AdmitError::DecodeError(_))));
    let mut bad_pk = p.clone();
    bad_pk.replace_range(0..1, "g");
    assert!(matches!(check_candidate(b.as_bytes(), s.as_bytes(), bad_pk.as_bytes()), Err(AdmitError::DecodeError(_))));
    assert!(matches!(check_candidate(b"zz", s.as_bytes(), p.as_bytes()), Err(AdmitError::DecodeError(_))));
}

#[test]
fn credential_decoding_comes_before_parsing() {
    // A short but well-formed signature with a non-hex key reports the key's decoding.
    assert!(matches!(check_candidate(b"00", b"00", b"xy"), Err(AdmitError::DecodeError(_))));
    // Well-formed hex everywhere but a short signature: format error before the payload is read.
    assert!(matches!(check_candidate(b"zz", b"00", b"00"), Err(AdmitError::InvalidKeyOrSignatureFormat(_))));
}

#[test]
fn uppercase_hex_is_accepted() {
    let key = signing_key(16);
    let payload = [0xAB, 0xCD];
    let (b, s, p) = signed(&key, &payload);
    let r = check_candidate(b.to_uppercase().as_bytes(), s.to_uppercase().as_bytes(), p.to_uppercase().as_bytes());
    assert_eq!(r.unwrap(), convert_to_fixed_array(&payload));
}

#[test]
fn power_of_two_values() {
    assert!(!power_of_two(0));
    assert!(power_of_two(1));
    assert!(power_of_two(2));
    assert!(!power_of_two(6));
    assert!(power_of_two(1024));
    assert!(!power_of_two(usize::MAX));
}

#[test]
fn rebuild_points_up_to_eight() {
    let due: Vec<usize> = (1..=8).filter(|n| Commitment::rebuild_due(*n)).collect();
    assert_eq!(due, vec![2, 4, 8]);
    assert!(Commitment::rebuild_due(16));
    assert!(!Commitment::rebuild_due(0));
}

#[test]
fn root_changes_only_at_rebuild_points() {
    let key = signing_key(30);
    let mut log = RecordLog::new();
    let mut c = Commitment::zero_seed();
    let mut changed = vec![];
    for n in 1..=8u8 {
        submit_signed(&mut log, &key, &[n; 32]).unwrap();
        let before = c.root();
        let rebuilt = c.observe_append(&log);
        assert_eq!(rebuilt, c.root() != before);
        if c.root() != before {
            changed.push(n);
        }
    }
    assert_eq!(changed, vec![2, 4, 8]);
    assert_eq!(c.leaf_count(), 8);
}

#[test]
fn recomputed_roots_are_identical() {
    let log = RecordLog::from_records(vec![[1; 32], [2; 32], [3; 32], [4; 32]]);
    let first = Commitment::rebuild(&log).unwrap();
    let second = Commitment::rebuild(&log).unwrap();
    assert_eq!(first.root(), second.root());
    assert_eq!(first.leaf_count(), 4);
    assert!(Commitment::rebuild(&RecordLog::from_records(vec![[1; 32]; 3])).is_none());
}

#[test]
fn four_appends_end_to_end() {
    let key = signing_key(21);
    let mut log = RecordLog::new();
    let mut commitment = Commitment::zero_seed();
    let payloads: Vec<[u8; 32]> = (1..=4u8).map(|i| [i; 32]).collect();
    for (i, p) in payloads.iter().enumerate() {
        let count = submit_signed(&mut log, &key, p).unwrap();
        assert_eq!(count, i + 1);
        commitment.observe_append(&log);
        if count == 2 {
            assert_eq!(commitment.leaf_count(), 2);
            assert!(verify(&commitment.root(), &payloads[..2]));
        }
    }
    assert_eq!(commitment.leaf_count(), 4);
    let snapshot = get_root_and_data(&commitment, &log).unwrap();
    assert_eq!(snapshot.data, payloads);
    assert_eq!(snapshot.root, commitment.root());
    assert!(verify(&snapshot.root, &payloads));
    let mut tampered = payloads.clone();
    tampered[2][0] ^= 1;
    assert!(!verify(&snapshot.root, &tampered));
    let mut reordered = payloads.clone();
    reordered.swap(0, 1);
    assert!(!verify(&snapshot.root, &reordered));
}

#[test]
fn snapshot_lags_behind_the_log() {
    let key = signing_key(22);
    let mut log = RecordLog::new();
    let mut commitment = Commitment::zero_seed();
    for i in 1..=5u8 {
        submit_signed(&mut log, &key, &[i]).unwrap();
        commitment.observe_append(&log);
    }
    let snapshot = get_root_and_data(&commitment, &log).unwrap();
    assert_eq!(snapshot.data.len(), 4);
    assert_eq!(snapshot.data[3], convert_to_fixed_array(&[4]));
    assert!(verify(&snapshot.root, &snapshot.data));
}

#[test]
fn seed_snapshot_is_the_zero_pair() {
    let log = RecordLog::new();
    let commitment = Commitment::zero_seed();
    assert_eq!(commitment.leaf_count(), 2);
    let snapshot = get_root_and_data(&commitment, &log).unwrap();
    assert_eq!(snapshot.data, vec![[0u8; 32], [0u8; 32]]);
    assert!(verify(&snapshot.root, &snapshot.data));
    assert_ne!(snapshot.root, [0u8; 32]);
}

#[test]
fn preseeded_log_keeps_order() {
    let log = RecordLog::from_records(vec![[1; 32], [2; 32], [3; 32]]);
    assert_eq!(log.len(), 3);
    assert_eq!(log.prefix(2), vec![[1u8; 32], [2u8; 32]]);
    assert_eq!(log.records().len(), 3);
}

#[test]
fn reported_index_adds_two() {
    assert_eq!(reported_index(1), 3);
    assert_eq!(reported_index(0), 2);
    assert_eq!(reported_index(usize::MAX), usize::MAX as u128 + 2);
}

#[test]
fn verify_rejects_data_without_a_tree() {
    let c = Commitment::zero_seed();
    assert!(!verify(&c.root(), &[]));
    assert!(!verify(&c.root(), &[[0u8; 32]]));
    assert!(!verify(&c.root(), &[[0u8; 32]; 3]));
    assert!(!verify(&c.root(), &[[0u8; 32]; 4]));
}

#[test]
fn verify_checks_the_root() {
    let data = [[5u8; 32], [6u8; 32]];
    let root = Commitment::rebuild(&RecordLog::from_records(data.to_vec())).unwrap().root();
    assert!(verify(&root, &data));
    let mut wrong = root;
    wrong[31] ^= 1;
    assert!(!verify(&wrong, &data));
    assert!(!verify(&data[0], &data));
}
