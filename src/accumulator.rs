//! The Merkle commitment over a prefix of the record log, and when it is rebuilt.
use vstd::prelude::*;

use crate::log::RecordLog;
use crate::merkle::{merkle_root, merkle_root_of};
use crate::record::Record;

verus! {

/// Whether `n` is a power of two.
pub open spec fn is_power_of_two(n: nat) -> bool
    decreases n,
{
    if n == 0 {
        false
    } else if n == 1 {
        true
    } else {
        n % 2 == 0 && is_power_of_two(n / 2)
    }
}

/// Whether a log that has just reached `count` records gets a full rebuild of
/// its commitment: at every power of two but one.
pub open spec fn rebuild_due_at(count: nat) -> bool {
    is_power_of_two(count) && count != 1
}

/// Computes whether `n` is a power of two by halving.
pub fn power_of_two(n: usize) -> (r: bool)
    ensures
        r == is_power_of_two(n as nat),
{
    let mut m: usize = n;
    while m > 1 && m % 2 == 0
        invariant
            m <= n,
            n > 0 ==> m > 0,
            is_power_of_two(n as nat) == is_power_of_two(m as nat),
        decreases m,
    {
        m = m / 2;
    }
    m == 1
}

/// Whether `data` can carry a Merkle tree, and `root` is the root of the tree
/// over it.
pub open spec fn verifies(root: Record, data: Seq<Record>) -> bool {
    &&& data.len() >= 2
    &&& is_power_of_two(data.len() as nat)
    &&& root == merkle_root_of(data)
}

/// What a commitment holds: its root, the number of leaves under it, and,
/// until the first rebuild, the seed records the root was built over.
pub struct CommitmentView {
    pub root: Record,
    pub leaf_count: nat,
    pub seed: Option<Seq<Record>>,
}

/// The records that commitment `c` certifies once the log holds `log`: the seed
/// records before the first rebuild, the first `leaf_count` records of the log
/// after it.
pub open spec fn covered_records(c: CommitmentView, log: Seq<Record>) -> Seq<Record> {
    match c.seed {
        Some(seed) => seed,
        None => log.take(c.leaf_count as int),
    }
}

/// Whether `c` is a sound commitment over `log`: the leaf count is a power of
/// two no smaller than two, never exceeds the log once the seed is gone, and
/// the root is the Merkle root of exactly `leaf_count` covered records.
pub open spec fn certifies(c: CommitmentView, log: Seq<Record>) -> bool {
    &&& c.leaf_count >= 2
    &&& is_power_of_two(c.leaf_count)
    &&& (c.seed is None ==> c.leaf_count <= log.len())
    &&& covered_records(c, log).len() == c.leaf_count
    &&& c.root == merkle_root_of(covered_records(c, log))
}

/// The current commitment: a Merkle root and the number of leaves under it.
/// Root and leaf count always change together; while the seed is kept, the
/// leaf count is the seed's length.
pub struct Commitment {
    root: Record,
    leaf_count: usize,
    seed: Option<Vec<Record>>,
}

impl View for Commitment {
    type V = CommitmentView;

    closed spec fn view(&self) -> CommitmentView {
        CommitmentView {
            root: self.root,
            leaf_count: match self.seed {
                Some(v) => v@.len(),
                None => self.leaf_count as nat,
            },
            seed: match self.seed {
                Some(v) => Some(v@),
                None => None,
            },
        }
    }
}

impl Commitment {
    /// The commitment over the seed records `seed`, which it keeps until the
    /// first rebuild. It is sound over every log.
    pub fn seeded(seed: Vec<Record>) -> (r: Commitment)
        requires
            seed@.len() >= 2,
            is_power_of_two(seed@.len() as nat),
        ensures
            r@ == (CommitmentView {
                root: merkle_root_of(seed@),
                leaf_count: seed@.len(),
                seed: Some(seed@),
            }),
            forall|log: Seq<Record>| certifies(r@, log),
    {
        let root = merkle_root(seed.as_slice());
        let leaf_count = seed.len();
        Commitment { root, leaf_count, seed: Some(seed) }
    }

    /// The store's starting commitment: the tree over two zero records.
    pub fn zero_seed() -> (r: Commitment)
        ensures
            r@.leaf_count == 2,
            r@.seed is Some,
            forall|i: int, j: int|
                0 <= i < 2 && 0 <= j < 32 ==> #[trigger] r@.seed->Some_0[i]@[j] == 0u8,
            forall|log: Seq<Record>| certifies(r@, log),
    {
        let seed: Vec<Record> = vec![[0u8; 32], [0u8; 32]];
        assert(is_power_of_two(2)) by {
            reveal_with_fuel(is_power_of_two, 2);
        }
        Commitment::seeded(seed)
    }

    /// The committed Merkle root.
    pub fn root(&self) -> (r: Record)
        ensures
            r == self@.root,
    {
        self.root
    }

    /// The number of leaves the root covers.
    pub fn leaf_count(&self) -> (r: usize)
        ensures
            r == self@.leaf_count,
    {
        match &self.seed {
            Some(seed) => seed.len(),
            None => self.leaf_count,
        }
    }

    /// Whether the log, having just reached `count` records, must be committed
    /// afresh: `count` is a power of two other than 1.
    pub fn rebuild_due(count: usize) -> (r: bool)
        ensures
            r == rebuild_due_at(count as nat),
    {
        count != 1 && power_of_two(count)
    }

    /// The commitment rebuilt from scratch over all of `log`, if the log's size
    /// calls for a rebuild.
    pub fn rebuild(log: &RecordLog) -> (r: Option<Commitment>)
        ensures
            r is Some <==> rebuild_due_at(log@.len()),
            r is Some ==> r->Some_0@ == (CommitmentView {
                root: merkle_root_of(log@),
                leaf_count: log@.len(),
                seed: None,
            }),
            r is Some ==> certifies(r->Some_0@, log@),
    {
        let n = log.len();
        if Commitment::rebuild_due(n) {
            let root = merkle_root(log.records());
            assert(log@.take(n as int) =~= log@);
            Some(Commitment { root, leaf_count: n, seed: None })
        } else {
            None
        }
    }

    /// Applies the rebuild policy after an append: if the log's size calls
    /// for it, root and leaf count are replaced by those of the tree over the
    /// whole log; otherwise the commitment is left as it was. Returns whether
    /// it was rebuilt.
    pub fn observe_append(&mut self, log: &RecordLog) -> (r: bool)
        ensures
            r == rebuild_due_at(log@.len()),
            r ==> final(self)@ == (CommitmentView {
                root: merkle_root_of(log@),
                leaf_count: log@.len(),
                seed: None,
            }),
            r ==> certifies(final(self)@, log@),
            !r ==> final(self)@ == old(self)@,
    {
        match Commitment::rebuild(log) {
            Some(fresh) => {
                *self = fresh;
                true
            },
            None => false,
        }
    }
}

/// A copy of `records`.
fn copy_records(records: &Vec<Record>) -> (r: Vec<Record>)
    ensures
        r@ == records@,
{
    let mut out: Vec<Record> = Vec::new();
    let mut i: usize = 0;
    while i < records.len()
        invariant
            i <= records@.len(),
            out@ == records@.take(i as int),
        decreases records@.len() - i,
    {
        out.push(records[i]);
        i = i + 1;
        assert(out@ =~= records@.take(i as int));
    }
    assert(records@.take(records@.len() as int) =~= records@);
    out
}

/// A root together with the records it certifies.
pub struct RootData {
    pub root: Record,
    pub data: Vec<Record>,
}

/// Reads the committed root and the records it covers, in append order.
/// There is none only if the commitment claims more log records than the log
/// holds, which a commitment sound over an earlier state of the log never does.
pub fn get_root_and_data(commitment: &Commitment, log: &RecordLog) -> (r: Option<RootData>)
    ensures
        r is Some <==> (commitment@.seed is Some || commitment@.leaf_count <= log@.len()),
        r is Some ==> r->Some_0.root == commitment@.root,
        r is Some ==> r->Some_0.data@ == covered_records(commitment@, log@),
        r is Some ==> r->Some_0.data@.len() == commitment@.leaf_count,
{
    let root = commitment.root();
    match &commitment.seed {
        Some(seed) => Some(RootData { root, data: copy_records(seed) }),
        None => {
            let n = commitment.leaf_count();
            if n <= log.len() {
                Some(RootData { root, data: log.prefix(n) })
            } else {
                None
            }
        },
    }
}

/// Among the log sizes one to eight, a rebuild is due exactly at two, four
/// and eight.
pub proof fn lemma_rebuild_points_through_eight(count: nat)
    requires
        1 <= count <= 8,
    ensures
        rebuild_due_at(count) <==> (count == 2 || count == 4 || count == 8),
{
    reveal_with_fuel(is_power_of_two, 4);
}

/// Appends keep a commitment sound and never change what it certifies.
pub proof fn lemma_certified_survives_appends(
    c: CommitmentView,
    log: Seq<Record>,
    appended: Seq<Record>,
)
    requires
        certifies(c, log),
    ensures
        certifies(c, log + appended),
        covered_records(c, log + appended) == covered_records(c, log),
{
    if c.seed is None {
        assert((log + appended).take(c.leaf_count as int) =~= log.take(c.leaf_count as int));
    }
}

/// The root and data that a sound commitment hands out pass the client's
/// check: right after a rebuild and, by the lemma above, after any appends.
pub proof fn lemma_certified_data_verifies(c: CommitmentView, log: Seq<Record>)
    requires
        certifies(c, log),
    ensures
        verifies(c.root, covered_records(c, log)),
{
}

/// A root recomputed over the same records is the same root, so it always
/// verifies against them.
pub proof fn lemma_recomputed_root_verifies(records: Seq<Record>)
    requires
        records.len() >= 2,
        is_power_of_two(records.len() as nat),
    ensures
        verifies(merkle_root_of(records), records),
{
}

} // verus!
