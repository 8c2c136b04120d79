//! A side table associating byte sub-ranges of a buffer with a caller-chosen
//! type identifier. The buffer core never reads or writes it; callers that
//! store heterogeneous values in one buffer use it to remember which range
//! holds which type.

use vstd::prelude::*;

verus! {

/// An ordered table of `(start, end, identifier)` entries, each recording
/// that the half-open byte range `[start, end)` holds a value tagged with
/// the identifier. Entries are kept in insertion order; overlapping ranges
/// are the caller's responsibility.
pub struct PartitionMap<T> {
    entries: Vec<(usize, usize, T)>,
}

impl<T> View for PartitionMap<T> {
    type V = Seq<(usize, usize, T)>;

    /// The entries, in insertion order.
    closed spec fn view(&self) -> Seq<(usize, usize, T)> {
        self.entries@
    }
}

impl<T> PartitionMap<T> {
    /// Returns an empty table.
    pub fn new() -> (r: PartitionMap<T>)
        ensures
            r@ == Seq::<(usize, usize, T)>::empty(),
    {
        PartitionMap { entries: Vec::new() }
    }

    /// Records that the byte range `[start, end)` holds a value tagged with
    /// `type_id`, after every entry recorded so far.
    pub fn store(&mut self, start: usize, end: usize, type_id: T)
        ensures
            final(self)@ == old(self)@.push((start, end, type_id)),
    {
        self.entries.push((start, end, type_id));
    }

    /// The number of recorded entries.
    pub fn len(&self) -> (r: usize)
        ensures
            r == self@.len(),
    {
        self.entries.len()
    }

    /// The entry at the given position, in insertion order.
    pub fn get(&self, i: usize) -> (r: &(usize, usize, T))
        requires
            i < self@.len(),
        ensures
            *r == self@[i as int],
    {
        &self.entries[i]
    }
}

} // verus!
