//! The duplication capability itself.

use vstd::prelude::*;

verus! {

/// Types whose values can be duplicated cheaply by (potentially) aliasing the
/// storage they refer to.
///
/// Two handles that come from one duplication describe one piece of storage.
/// For a carrier that owns its storage, at most one of them may ever run its
/// normal destruction; every other handle has to have its destruction
/// suppressed before it goes out of scope. Which handle is which is for the
/// caller to decide. Carriers without destruction logic (scalars, shared
/// borrows, buffer descriptions, and tuples of them) carry no such
/// obligation.
pub trait ShallowCopy: Sized {
    /// Returns a second handle to what `self` refers to.
    ///
    /// The call leaves `self` as it was, and the handle it returns is
    /// indistinguishable from `self`: whatever is read through one of them is
    /// read through the other.
    fn shallow_copy(&mut self) -> (dup: Self)
        ensures
            *final(self) == *old(self),
            dup == *final(self),
    ;
}

} // verus!
