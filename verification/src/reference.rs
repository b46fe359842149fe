//! Shared borrows.
//!
//! A borrow releases nothing when it goes away, so duplicating one is always
//! harmless: the duplicate borrows the same place for the same lifetime.

use crate::shallow_copy::ShallowCopy;
use vstd::prelude::*;

verus! {

impl<'a, T: ?Sized> ShallowCopy for &'a T {
    fn shallow_copy(&mut self) -> (dup: Self)
        ensures
            dup == *old(self),
    {
        *self
    }
}

} // verus!
