//! The append gate and the append-only record log.
use vstd::prelude::*;

use crate::encoding::{decode_hex, hex_bytes, is_hex_text};
use crate::record::{convert_to_fixed_array, normalized, Record};
use crate::signing::{
    ed25519_accepts, is_key_encoding, parse_public_key, parse_signature, verify_signature,
};

verus! {

/// Why a candidate append was turned away.
#[derive(Debug)]
pub enum AdmitError {
    /// A wire parameter is not well-formed hex.
    DecodeError(hex::FromHexError),
    /// The signature or the public key has the wrong length or encoding.
    InvalidKeyOrSignatureFormat(ed25519_dalek::SignatureError),
    /// The signature does not verify over the submitted bytes.
    SignatureVerificationFailed(ed25519_dalek::SignatureError),
}

/// Whether decoded signature bytes `sig` and public-key bytes `key` parse as an
/// ed25519 signature and public key.
pub open spec fn well_formed_credentials(sig: Seq<u8>, key: Seq<u8>) -> bool {
    &&& sig.len() == 64
    &&& key.len() == 32
    &&& is_key_encoding(key)
}

/// Whether the hex-encoded candidate (payload, signature, public key) passes the
/// gate: every parameter decodes, the credentials parse, and the signature
/// verifies over the raw decoded payload.
pub open spec fn admissible(bytes_hex: Seq<u8>, sig_hex: Seq<u8>, pk_hex: Seq<u8>) -> bool {
    &&& is_hex_text(sig_hex)
    &&& is_hex_text(pk_hex)
    &&& well_formed_credentials(hex_bytes(sig_hex), hex_bytes(pk_hex))
    &&& is_hex_text(bytes_hex)
    &&& ed25519_accepts(hex_bytes(pk_hex), hex_bytes(bytes_hex), hex_bytes(sig_hex))
}

/// Whether `e` is the rejection for this input. Checks stop at the first
/// failure, in this order: the signature and key texts are decoded, then
/// parsed, then the payload text is decoded, then the signature is verified.
pub open spec fn rejection_matches(
    e: AdmitError,
    bytes_hex: Seq<u8>,
    sig_hex: Seq<u8>,
    pk_hex: Seq<u8>,
) -> bool {
    if !is_hex_text(sig_hex) || !is_hex_text(pk_hex) {
        e is DecodeError
    } else if !well_formed_credentials(hex_bytes(sig_hex), hex_bytes(pk_hex)) {
        e is InvalidKeyOrSignatureFormat
    } else if !is_hex_text(bytes_hex) {
        e is DecodeError
    } else {
        e is SignatureVerificationFailed
    }
}

/// Runs the append gate on a hex-encoded candidate without touching any log.
/// On success returns the record to store: the decoded payload normalized to
/// 32 bytes. The signature is checked over the payload as submitted, before
/// normalization.
pub fn check_candidate(bytes_hex: &[u8], sig_hex: &[u8], pk_hex: &[u8]) -> (r: Result<
    Record,
    AdmitError,
>)
    ensures
        r is Ok <==> admissible(bytes_hex@, sig_hex@, pk_hex@),
        r is Ok ==> r->Ok_0@ == normalized(hex_bytes(bytes_hex@)),
        r is Err ==> rejection_matches(r->Err_0, bytes_hex@, sig_hex@, pk_hex@),
{
    let sig_raw = match decode_hex(sig_hex) {
        Ok(v) => v,
        Err(e) => return Err(AdmitError::DecodeError(e)),
    };
    let pk_raw = match decode_hex(pk_hex) {
        Ok(v) => v,
        Err(e) => return Err(AdmitError::DecodeError(e)),
    };
    let sig = match parse_signature(sig_raw.as_slice()) {
        Ok(s) => s,
        Err(e) => return Err(AdmitError::InvalidKeyOrSignatureFormat(e)),
    };
    let key = match parse_public_key(pk_raw.as_slice()) {
        Ok(k) => k,
        Err(e) => return Err(AdmitError::InvalidKeyOrSignatureFormat(e)),
    };
    let payload = match decode_hex(bytes_hex) {
        Ok(v) => v,
        Err(e) => return Err(AdmitError::DecodeError(e)),
    };
    match verify_signature(&key, payload.as_slice(), &sig) {
        Ok(()) => {},
        Err(e) => return Err(AdmitError::SignatureVerificationFailed(e)),
    }
    Ok(convert_to_fixed_array(payload.as_slice()))
}

/// The ordered, append-only sequence of admitted records.
pub struct RecordLog {
    records: Vec<Record>,
}

impl View for RecordLog {
    type V = Seq<Record>;

    closed spec fn view(&self) -> Seq<Record> {
        self.records@
    }
}

impl RecordLog {
    /// An empty log.
    pub fn new() -> (r: RecordLog)
        ensures
            r@ == Seq::<Record>::empty(),
    {
        RecordLog { records: Vec::new() }
    }

    /// A log pre-seeded with `records`, in that order.
    pub fn from_records(records: Vec<Record>) -> (r: RecordLog)
        ensures
            r@ == records@,
    {
        RecordLog { records }
    }

    /// The number of records in the log.
    pub fn len(&self) -> (r: usize)
        ensures
            r == self@.len(),
    {
        self.records.len()
    }

    /// The record at `index`.
    pub fn get(&self, index: usize) -> (r: Record)
        requires
            index < self@.len(),
        ensures
            r == self@[index as int],
    {
        self.records[index]
    }

    /// Appends one record at the end and returns the new number of records.
    pub fn append(&mut self, record: Record) -> (r: usize)
        ensures
            final(self)@ == old(self)@.push(record),
            r == final(self)@.len(),
    {
        self.records.push(record);
        self.records.len()
    }

    /// Runs the append gate on a candidate and, if it passes, appends its
    /// normalized record. Returns the new number of records; on any failure the
    /// log is left as it was.
    pub fn submit(&mut self, bytes_hex: &[u8], sig_hex: &[u8], pk_hex: &[u8]) -> (r: Result<
        usize,
        AdmitError,
    >)
        ensures
            r is Ok <==> admissible(bytes_hex@, sig_hex@, pk_hex@),
            r is Ok ==> final(self)@ == old(self)@.push(final(self)@.last()),
            r is Ok ==> final(self)@.last()@ == normalized(hex_bytes(bytes_hex@)),
            r is Ok ==> r->Ok_0 == final(self)@.len(),
            r is Err ==> final(self)@ == old(self)@,
            r is Err ==> rejection_matches(r->Err_0, bytes_hex@, sig_hex@, pk_hex@),
    {
        match check_candidate(bytes_hex, sig_hex, pk_hex) {
            Ok(record) => Ok(self.append(record)),
            Err(e) => Err(e),
        }
    }

    /// All records, in append order.
    pub fn records(&self) -> (r: &[Record])
        ensures
            r@ == self@,
    {
        self.records.as_slice()
    }

    /// The first `n` records, in append order.
    pub fn prefix(&self, n: usize) -> (r: Vec<Record>)
        requires
            n <= self@.len(),
        ensures
            r@ == self@.take(n as int),
    {
        let mut out: Vec<Record> = Vec::new();
        let mut i: usize = 0;
        while i < n
            invariant
                n <= self@.len(),
                i <= n,
                out@ == self@.take(i as int),
            decreases n - i,
        {
            out.push(self.records[i]);
            i = i + 1;
            assert(out@ =~= self@.take(i as int));
        }
        out
    }
}

} // verus!
