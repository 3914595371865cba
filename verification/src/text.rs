//! Byte strings: paths, names and messages are sequences of bytes, as the
//! kernel sees them.

use vstd::prelude::*;

verus! {

/// The contents of each byte string of a list.
pub open spec fn views(list: Seq<Vec<u8>>) -> Seq<Seq<u8>> {
    list.map_values(|item: Vec<u8>| item@)
}

/// Whether `bytes` holds `byte` somewhere.
pub open spec fn holds(bytes: Seq<u8>, byte: u8) -> bool {
    exists|i: int| 0 <= i < bytes.len() && bytes[i] == byte
}

/// Tells whether `bytes` holds `byte`.
pub fn contains_byte(bytes: &[u8], byte: u8) -> (found: bool)
    ensures
        found == holds(bytes@, byte),
{
    let mut at: usize = 0;
    while at < bytes.len()
        invariant
            at <= bytes.len(),
            forall|i: int| 0 <= i < at ==> bytes@[i] != byte,
        decreases bytes.len() - at,
    {
        if bytes[at] == byte {
            return true;
        }
        at = at + 1;
    }
    false
}

/// A copy of every byte string of `list`, in order.
pub fn copy_all(list: &[Vec<u8>]) -> (copy: Vec<Vec<u8>>)
    ensures
        views(copy@) == views(list@),
{
    let mut copy: Vec<Vec<u8>> = Vec::new();
    let mut at: usize = 0;
    while at < list.len()
        invariant
            at <= list.len(),
            views(copy@) == views(list@.subrange(0, at as int)),
        decreases list.len() - at,
    {
        let item = vstd::slice::slice_to_vec(list[at].as_slice());
        let ghost before = copy@;
        copy.push(item);
        assert(list@.subrange(0, at + 1) =~= list@.subrange(0, at as int).push(list@[at as int]));
        assert(views(copy@) =~= views(before).push(item@));
        assert(views(copy@) =~= views(list@.subrange(0, at + 1)));
        at = at + 1;
    }
    assert(list@.subrange(0, at as int) =~= list@);
    copy
}

} // verus!
