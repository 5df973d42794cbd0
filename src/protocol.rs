//! What the server reports and what the client checks.
use vstd::prelude::*;

use crate::accumulator::{power_of_two, verifies};
use crate::merkle::merkle_root;
use crate::record::Record;

verus! {

/// The number the server reports after a successful append that brought the
/// log to `count` records: `count + 2`, kept as it is for wire compatibility.
pub fn reported_index(count: usize) -> (r: u128)
    ensures
        r == count as int + 2,
{
    count as u128 + 2
}

/// Whether two roots are equal byte for byte.
fn same_root(committed_root: &Record, recomputed_root: &Record) -> (r: bool)
    ensures
        r == (committed_root@ == recomputed_root@),
{
    let mut i: usize = 0;
    while i < 32
        invariant
            i <= 32,
            committed_root@.len() == 32,
            recomputed_root@.len() == 32,
            forall|j: int| 0 <= j < i ==> committed_root@[j] == recomputed_root@[j],
        decreases 32 - i,
    {
        if committed_root[i] != recomputed_root[i] {
            return false;
        }
        i = i + 1;
    }
    assert(committed_root@ =~= recomputed_root@);
    true
}

/// Client-side check: recomputes the Merkle root over `data` and compares it,
/// byte for byte, with the root the server committed to. Data that cannot
/// carry a tree (fewer than two records, or not a power of two) fails.
pub fn verify(committed_root: &Record, data: &[Record]) -> (r: bool)
    ensures
        r == verifies(*committed_root, data@),
{
    let n = data.len();
    if n < 2 || !power_of_two(n) {
        return false;
    }
    let recomputed = merkle_root(data);
    let same = same_root(committed_root, &recomputed);
    assert(same ==> *committed_root == recomputed) by {
        if same {
            assert(*committed_root =~= recomputed);
        }
    }
    same
}

} // verus!
