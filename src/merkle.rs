//! The Merkle tree over records: SHA-256 as merkletree's hashing algorithm,
//! and the root of the tree built over a power-of-two number of records.
use vstd::prelude::*;

use crate::accumulator::is_power_of_two;
use crate::record::Record;

verus! {

/// SHA-256 as a Merkle tree hashing algorithm, with 32-byte digests. Its
/// state is sha2's running digest, whose type is an alias over generic cores
/// that cannot be declared on its own, so the struct is kept opaque.
#[verifier::external_body]
pub struct TestSha256Hasher {
    engine: sha2::Sha256,
}

impl TestSha256Hasher {
    /// Relies on `Digest::new` of sha2: a hasher with nothing written yet.
    #[verifier::external_body]
    pub fn new() -> TestSha256Hasher {
        TestSha256Hasher { engine: <sha2::Sha256 as sha2::Digest>::new() }
    }
}

impl Default for TestSha256Hasher {
    fn default() -> Self {
        TestSha256Hasher::new()
    }
}

impl std::hash::Hasher for TestSha256Hasher {
    /// The tree only reads digests through `Algorithm::hash`; a 64-bit value
    /// has no meaning for it, so this is constant.
    fn finish(&self) -> u64 {
        0
    }

    /// Relies on `Digest::update` of sha2: feeds `bytes` to the digest.
    #[verifier::external_body]
    fn write(&mut self, bytes: &[u8]) {
        sha2::Digest::update(&mut self.engine, bytes)
    }
}

impl merkletree::hash::Algorithm<[u8; 32]> for TestSha256Hasher {
    /// Relies on `Digest::finalize` and `Digest::reset` of sha2: the 32-byte
    /// digest of what was written since the last reset, after which the hasher
    /// starts afresh.
    #[verifier::external_body]
    fn hash(&mut self) -> [u8; 32] {
        let digest = sha2::Digest::finalize(self.engine.clone());
        sha2::Digest::reset(&mut self.engine);
        digest.into()
    }
}

/// The root of the Merkle tree that merkletree builds over `records` with
/// SHA-256: each record is hashed into a leaf, and each inner node hashes its
/// two children.
pub uninterp spec fn merkle_root_of(records: Seq<Record>) -> Record;

/// Relies on merkletree's `MerkleTree::from_data` and `root`: the tree is
/// built whenever there are at least two records and their number is a power
/// of two, and its root depends on the records alone.
#[verifier::external_body]
pub(crate) fn merkle_root(records: &[Record]) -> (r: Record)
    requires
        records@.len() >= 2,
        is_power_of_two(records@.len() as nat),
    ensures
        r == merkle_root_of(records@),
{
    merkletree::merkle::MerkleTree::<Record, TestSha256Hasher, merkletree::store::VecStore<Record>>::from_data(
        records.to_vec(),
    ).expect("a power-of-two number of records, at least two").root()
}

} // verus!
