//! Ed25519 keys and signatures, kept beside the bytes they were parsed from.
use vstd::prelude::*;

verus! {

#[verifier::external_type_specification]
#[verifier::external_body]
pub struct ExSignatureError(ed25519_dalek::SignatureError);

#[verifier::external_type_specification]
#[verifier::external_body]
pub struct ExVerifyingKey(ed25519_dalek::VerifyingKey);

#[verifier::external_type_specification]
#[verifier::external_body]
pub struct ExSignature(ed25519_dalek::Signature);

/// Whether the 32 bytes `encoding` decompress to a point of the curve, that is,
/// are accepted as a public key.
pub uninterp spec fn is_key_encoding(encoding: Seq<u8>) -> bool;

/// Whether ed25519 verification accepts signature `sig` over `msg` under the
/// public key encoded as `key`.
pub uninterp spec fn ed25519_accepts(key: Seq<u8>, msg: Seq<u8>, sig: Seq<u8>) -> bool;

/// A public key, together with the encoding it was parsed from. Only
/// `parse_public_key` builds one, so `key` is always what `encoding` decodes to.
pub(crate) struct PublicKey {
    encoding: [u8; 32],
    key: ed25519_dalek::VerifyingKey,
}

impl View for PublicKey {
    type V = Seq<u8>;

    closed spec fn view(&self) -> Seq<u8> {
        self.encoding@
    }
}

/// A signature, together with the 64 bytes it was parsed from. Only
/// `parse_signature` builds one.
pub(crate) struct SignatureBytes {
    encoding: [u8; 64],
    sig: ed25519_dalek::Signature,
}

impl View for SignatureBytes {
    type V = Seq<u8>;

    closed spec fn view(&self) -> Seq<u8> {
        self.encoding@
    }
}

/// Relies on `VerifyingKey::try_from(&[u8])` of ed25519-dalek: it fails unless
/// the slice holds 32 bytes that decompress to a curve point, and the key keeps
/// those bytes as its encoding.
#[verifier::external_body]
pub(crate) fn parse_public_key(bytes: &[u8]) -> (r: Result<PublicKey, ed25519_dalek::SignatureError>)
    ensures
        r is Ok <==> (bytes@.len() == 32 && is_key_encoding(bytes@)),
        r is Ok ==> r->Ok_0@ == bytes@,
{
    ed25519_dalek::VerifyingKey::try_from(bytes).map(|key| PublicKey { encoding: key.to_bytes(), key })
}

/// Relies on `Signature::from_slice` of ed25519: it fails exactly when the slice
/// is not 64 bytes long, and the signature keeps those bytes.
#[verifier::external_body]
pub(crate) fn parse_signature(bytes: &[u8]) -> (r: Result<SignatureBytes, ed25519_dalek::SignatureError>)
    ensures
        r is Ok <==> bytes@.len() == 64,
        r is Ok ==> r->Ok_0@ == bytes@,
{
    ed25519_dalek::Signature::from_slice(bytes).map(|sig| SignatureBytes { encoding: sig.to_bytes(), sig })
}

/// Relies on `Verifier::verify` of ed25519-dalek's `VerifyingKey`: whether it
/// accepts depends on the key, the message and the signature alone.
#[verifier::external_body]
pub(crate) fn verify_signature(key: &PublicKey, msg: &[u8], sig: &SignatureBytes) -> (r: Result<
    (),
    ed25519_dalek::SignatureError,
>)
    ensures
        r is Ok <==> ed25519_accepts(key@, msg@, sig@),
{
    ed25519_dalek::Verifier::verify(&key.key, msg, &sig.sig)
}

} // verus!
