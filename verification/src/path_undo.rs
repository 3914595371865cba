//! Paths as byte strings, and a scoped builder that appends a component to a
//! shared path buffer and takes it off again when the scope ends.

use vstd::prelude::*;

verus! {

/// The byte that separates the components of a path.
pub const SEPARATOR: u8 = 47;

/// `base` extended by `child`: the two are concatenated, with a separator
/// between them unless `base` is empty or already ends in one.
pub open spec fn joined(base: Seq<u8>, child: Seq<u8>) -> Seq<u8> {
    if base.len() > 0 && base.last() != SEPARATOR {
        base + seq![SEPARATOR] + child
    } else {
        base + child
    }
}

/// Extends `path` by `child`.
pub fn push(path: &mut Vec<u8>, child: &[u8])
    ensures
        final(path)@ == joined(old(path)@, child@),
{
    let len = path.len();
    if len > 0 && path[len - 1] != SEPARATOR {
        path.push(SEPARATOR);
    }
    path.extend_from_slice(child);
}

/// A path buffer that holds one more component for as long as the scope
/// lasts. The scope ends with [`TmpPath::release`].
pub struct TmpPath<'a> {
    /// The shared buffer, which holds the joined path during the scope.
    pub buffer: &'a mut Vec<u8>,
    /// How long the buffer was before the scope began.
    pub saved: usize,
}

impl<'a> TmpPath<'a> {
    /// The joined path that the scope presents.
    pub open spec fn path(&self) -> Seq<u8> {
        self.buffer@
    }

    /// What the buffer held before the scope began.
    pub open spec fn outer(&self) -> Seq<u8> {
        if self.saved <= self.buffer@.len() {
            self.buffer@.take(self.saved as int)
        } else {
            self.buffer@
        }
    }

    /// Begins a scope in which `path` is extended by `child`.
    pub fn new(path: &'a mut Vec<u8>, child: &[u8]) -> (scoped: TmpPath<'a>)
        ensures
            scoped.path() == joined(old(path)@, child@),
            scoped.outer() == old(path)@,
            final(path)@ == final(scoped.buffer)@,
    {
        let saved = path.len();
        push(path, child);
        assert(path@.take(saved as int) =~= old(path)@);
        TmpPath { buffer: path, saved }
    }

    /// The joined path.
    pub fn as_slice(&self) -> (path: &[u8])
        ensures
            path@ == self.path(),
    {
        self.buffer.as_slice()
    }

    /// A copy of the joined path.
    pub fn to_vec(&self) -> (path: Vec<u8>)
        ensures
            path@ == self.path(),
    {
        vstd::slice::slice_to_vec(self.buffer.as_slice())
    }

    /// Ends the scope: the buffer holds again what it held before.
    pub fn release(self)
        ensures
            final(self.buffer)@ == self.outer(),
    {
        self.buffer.truncate(self.saved);
    }
}

fn demo(dir: &mut Vec<u8>) -> (r: (Vec<u8>, Vec<u8>))
    ensures
        final(dir)@ == old(dir)@,
        r.0@ == joined(old(dir)@, seq![1u8]),
        r.1@ == joined(joined(old(dir)@, seq![1u8]), seq![2u8]),
{
    let one: Vec<u8> = vec![1u8];
    let two: Vec<u8> = vec![2u8];
    assert(one@ =~= seq![1u8]);
    assert(two@ =~= seq![2u8]);
    let merged = TmpPath::new(dir, one.as_slice());
    let a = merged.to_vec();
    let target = TmpPath::new(&mut *merged.buffer, two.as_slice());
    let b = target.to_vec();
    target.release();
    merged.release();
    (a, b)
}

} // verus!
