//! Growable buffers, seen as the three values that locate their storage.

use crate::shallow_copy::ShallowCopy;
use vstd::prelude::*;

verus! {

/// The parts of a growable buffer of text or of elements: where its backing
/// storage starts, how many items it holds, and how many it has room for.
///
/// Taking a buffer apart into these parts and putting a buffer together from
/// them again is the business of whoever owns the buffer. Between the two
/// steps the parts are plain numbers, and a second buffer handle over the
/// same storage is put together from a shallow copy of them.
#[derive(Clone, Copy, Debug, PartialEq, Eq, Structural)]
pub struct BufferParts {
    /// Address of the first item of the backing storage.
    pub address: usize,
    /// Number of items in use.
    pub len: usize,
    /// Number of items the backing storage has room for.
    pub capacity: usize,
}

impl BufferParts {
    /// The parts fit together when the items in use fit into the room there
    /// is for them.
    pub open spec fn consistent(&self) -> bool {
        self.len <= self.capacity
    }

    /// Tells whether the parts fit together, for a diagnostic before a
    /// buffer is put together from them.
    pub fn is_consistent(&self) -> (ok: bool)
        ensures
            ok == self.consistent(),
    {
        self.len <= self.capacity
    }
}

impl ShallowCopy for BufferParts {
    /// The duplicate names the same storage: address, length and capacity
    /// are those of the original, so nothing is allocated and no item is
    /// copied.
    fn shallow_copy(&mut self) -> (dup: Self)
        ensures
            dup.address == old(self).address,
            dup.len == old(self).len,
            dup.capacity == old(self).capacity,
            dup.consistent() == old(self).consistent(),
    {
        BufferParts { address: self.address, len: self.len, capacity: self.capacity }
    }
}

} // verus!
