//! Fixed-size records and the normalizer that produces them.
use vstd::prelude::*;

verus! {

/// Width in bytes of every stored record.
pub const RECORD_LEN: usize = 32;

/// A stored record: exactly `RECORD_LEN` bytes.
pub type Record = [u8; 32];

/// The record that `bytes` normalizes to: the first (at most) 32 bytes of the
/// input, padded on the right with zeros.
pub open spec fn normalized(bytes: Seq<u8>) -> Seq<u8> {
    Seq::new(32, |i: int| if i < bytes.len() { bytes[i] } else { 0u8 })
}

/// Copies at most 32 leading bytes of `bytes` into a zero-filled record;
/// bytes past index 32 are discarded.
pub fn convert_to_fixed_array(bytes: &[u8]) -> (r: Record)
    ensures
        r@ == normalized(bytes@),
        r@.len() == 32,
        forall|i: int| 0 <= i < 32 && i < bytes@.len() ==> r@[i] == bytes@[i],
        forall|i: int| bytes@.len() <= i < 32 ==> r@[i] == 0u8,
{
    let mut buff: Record = [0u8; 32];
    let n: usize = if bytes.len() < RECORD_LEN { bytes.len() } else { RECORD_LEN };
    let mut i: usize = 0;
    while i < n
        invariant
            n <= 32,
            n <= bytes@.len(),
            n == 32 || n == bytes@.len(),
            i <= n,
            buff@.len() == 32,
            forall|j: int| 0 <= j < i ==> buff@[j] == bytes@[j],
            forall|j: int| i <= j < 32 ==> buff@[j] == 0u8,
        decreases n - i,
    {
        buff[i] = bytes[i];
        i = i + 1;
    }
    assert(buff@ =~= normalized(bytes@));
    buff
}

} // verus!
