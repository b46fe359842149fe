//! Fixed-size scalars.
//!
//! A scalar has no storage outside itself and nothing to destroy, so its
//! duplicate is an independent copy: it keeps the value the original had when
//! it was duplicated, whatever becomes of the original afterwards.

use crate::shallow_copy::ShallowCopy;
use vstd::prelude::*;

verus! {

impl ShallowCopy for () {
    fn shallow_copy(&mut self) -> (dup: Self)
        ensures
            dup == *old(self),
    {
        *self
    }
}

impl ShallowCopy for bool {
    fn shallow_copy(&mut self) -> (dup: Self)
        ensures
            dup == *old(self),
    {
        *self
    }
}

impl ShallowCopy for char {
    fn shallow_copy(&mut self) -> (dup: Self)
        ensures
            dup == *old(self),
    {
        *self
    }
}

impl ShallowCopy for usize {
    fn shallow_copy(&mut self) -> (dup: Self)
        ensures
            dup == *old(self),
    {
        *self
    }
}

impl ShallowCopy for u8 {
    fn shallow_copy(&mut self) -> (dup: Self)
        ensures
            dup == *old(self),
    {
        *self
    }
}

impl ShallowCopy for u16 {
    fn shallow_copy(&mut self) -> (dup: Self)
        ensures
            dup == *old(self),
    {
        *self
    }
}

impl ShallowCopy for u32 {
    fn shallow_copy(&mut self) -> (dup: Self)
        ensures
            dup == *old(self),
    {
        *self
    }
}

impl ShallowCopy for u64 {
    fn shallow_copy(&mut self) -> (dup: Self)
        ensures
            dup == *old(self),
    {
        *self
    }
}

impl ShallowCopy for u128 {
    fn shallow_copy(&mut self) -> (dup: Self)
        ensures
            dup == *old(self),
    {
        *self
    }
}

impl ShallowCopy for isize {
    fn shallow_copy(&mut self) -> (dup: Self)
        ensures
            dup == *old(self),
    {
        *self
    }
}

impl ShallowCopy for i8 {
    fn shallow_copy(&mut self) -> (dup: Self)
        ensures
            dup == *old(self),
    {
        *self
    }
}

impl ShallowCopy for i16 {
    fn shallow_copy(&mut self) -> (dup: Self)
        ensures
            dup == *old(self),
    {
        *self
    }
}

impl ShallowCopy for i32 {
    fn shallow_copy(&mut self) -> (dup: Self)
        ensures
            dup == *old(self),
    {
        *self
    }
}

impl ShallowCopy for i64 {
    fn shallow_copy(&mut self) -> (dup: Self)
        ensures
            dup == *old(self),
    {
        *self
    }
}

impl ShallowCopy for i128 {
    fn shallow_copy(&mut self) -> (dup: Self)
        ensures
            dup == *old(self),
    {
        *self
    }
}

} // verus!
