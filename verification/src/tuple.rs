//! Tuples of one to twelve carriers.
//!
//! A tuple is duplicated element by element, from the first to the last: each
//! slot of the duplicate is the shallow copy of the same slot of the
//! original. What the caller owes for the tuple is what it owes for each of
//! its elements.

use crate::shallow_copy::ShallowCopy;
use vstd::prelude::*;

verus! {

impl<A: ShallowCopy> ShallowCopy for (A,) {
    fn shallow_copy(&mut self) -> (dup: Self)
        ensures
            dup.0 == old(self).0,
    {
        (self.0.shallow_copy(),)
    }
}

impl<A: ShallowCopy, B: ShallowCopy> ShallowCopy for (A, B) {
    fn shallow_copy(&mut self) -> (dup: Self)
        ensures
            dup.0 == old(self).0,
            dup.1 == old(self).1,
    {
        (self.0.shallow_copy(), self.1.shallow_copy())
    }
}

impl<A: ShallowCopy, B: ShallowCopy, C: ShallowCopy> ShallowCopy for (A, B, C) {
    fn shallow_copy(&mut self) -> (dup: Self)
        ensures
            dup.0 == old(self).0,
            dup.1 == old(self).1,
            dup.2 == old(self).2,
    {
        (self.0.shallow_copy(), self.1.shallow_copy(), self.2.shallow_copy())
    }
}

impl<A: ShallowCopy, B: ShallowCopy, C: ShallowCopy, D: ShallowCopy> ShallowCopy for (A, B, C, D) {
    fn shallow_copy(&mut self) -> (dup: Self)
        ensures
            dup.0 == old(self).0,
            dup.1 == old(self).1,
            dup.2 == old(self).2,
            dup.3 == old(self).3,
    {
        (self.0.shallow_copy(), self.1.shallow_copy(), self.2.shallow_copy(), self.3.shallow_copy())
    }
}

impl<A: ShallowCopy, B: ShallowCopy, C: ShallowCopy, D: ShallowCopy, E: ShallowCopy> ShallowCopy for (A, B, C, D, E) {
    fn shallow_copy(&mut self) -> (dup: Self)
        ensures
            dup.0 == old(self).0,
            dup.1 == old(self).1,
            dup.2 == old(self).2,
            dup.3 == old(self).3,
            dup.4 == old(self).4,
    {
        (
            self.0.shallow_copy(),
            self.1.shallow_copy(),
            self.2.shallow_copy(),
            self.3.shallow_copy(),
            self.4.shallow_copy(),
        )
    }
}

impl<A: ShallowCopy, B: ShallowCopy, C: ShallowCopy, D: ShallowCopy, E: ShallowCopy, F: ShallowCopy> ShallowCopy for (A, B, C, D, E, F) {
    fn shallow_copy(&mut self) -> (dup: Self)
        ensures
            dup.0 == old(self).0,
            dup.1 == old(self).1,
            dup.2 == old(self).2,
            dup.3 == old(self).3,
            dup.4 == old(self).4,
            dup.5 == old(self).5,
    {
        (
            self.0.shallow_copy(),
            self.1.shallow_copy(),
            self.2.shallow_copy(),
            self.3.shallow_copy(),
            self.4.shallow_copy(),
            self.5.shallow_copy(),
        )
    }
}

impl<
    A: ShallowCopy,
    B: ShallowCopy,
    C: ShallowCopy,
    D: ShallowCopy,
    E: ShallowCopy,
    F: ShallowCopy,
    G: ShallowCopy,
> ShallowCopy for (A, B, C, D, E, F, G) {
    fn shallow_copy(&mut self) -> (dup: Self)
        ensures
            dup.0 == old(self).0,
            dup.1 == old(self).1,
            dup.2 == old(self).2,
            dup.3 == old(self).3,
            dup.4 == old(self).4,
            dup.5 == old(self).5,
            dup.6 == old(self).6,
    {
        (
            self.0.shallow_copy(),
            self.1.shallow_copy(),
            self.2.shallow_copy(),
            self.3.shallow_copy(),
            self.4.shallow_copy(),
            self.5.shallow_copy(),
            self.6.shallow_copy(),
        )
    }
}

impl<
    A: ShallowCopy,
    B: ShallowCopy,
    C: ShallowCopy,
    D: ShallowCopy,
    E: ShallowCopy,
    F: ShallowCopy,
    G: ShallowCopy,
    H: ShallowCopy,
> ShallowCopy for (A, B, C, D, E, F, G, H) {
    fn shallow_copy(&mut self) -> (dup: Self)
        ensures
            dup.0 == old(self).0,
            dup.1 == old(self).1,
            dup.2 == old(self).2,
            dup.3 == old(self).3,
            dup.4 == old(self).4,
            dup.5 == old(self).5,
            dup.6 == old(self).6,
            dup.7 == old(self).7,
    {
        (
            self.0.shallow_copy(),
            self.1.shallow_copy(),
            self.2.shallow_copy(),
            self.3.shallow_copy(),
            self.4.shallow_copy(),
            self.5.shallow_copy(),
            self.6.shallow_copy(),
            self.7.shallow_copy(),
        )
    }
}

impl<
    A: ShallowCopy,
    B: ShallowCopy,
    C: ShallowCopy,
    D: ShallowCopy,
    E: ShallowCopy,
    F: ShallowCopy,
    G: ShallowCopy,
    H: ShallowCopy,
    I: ShallowCopy,
> ShallowCopy for (A, B, C, D, E, F, G, H, I) {
    fn shallow_copy(&mut self) -> (dup: Self)
        ensures
            dup.0 == old(self).0,
            dup.1 == old(self).1,
            dup.2 == old(self).2,
            dup.3 == old(self).3,
            dup.4 == old(self).4,
            dup.5 == old(self).5,
            dup.6 == old(self).6,
            dup.7 == old(self).7,
            dup.8 == old(self).8,
    {
        (
            self.0.shallow_copy(),
            self.1.shallow_copy(),
            self.2.shallow_copy(),
            self.3.shallow_copy(),
            self.4.shallow_copy(),
            self.5.shallow_copy(),
            self.6.shallow_copy(),
            self.7.shallow_copy(),
            self.8.shallow_copy(),
        )
    }
}

impl<
    A: ShallowCopy,
    B: ShallowCopy,
    C: ShallowCopy,
    D: ShallowCopy,
    E: ShallowCopy,
    F: ShallowCopy,
    G: ShallowCopy,
    H: ShallowCopy,
    I: ShallowCopy,
    J: ShallowCopy,
> ShallowCopy for (A, B, C, D, E, F, G, H, I, J) {
    fn shallow_copy(&mut self) -> (dup: Self)
        ensures
            dup.0 == old(self).0,
            dup.1 == old(self).1,
            dup.2 == old(self).2,
            dup.3 == old(self).3,
            dup.4 == old(self).4,
            dup.5 == old(self).5,
            dup.6 == old(self).6,
            dup.7 == old(self).7,
            dup.8 == old(self).8,
            dup.9 == old(self).9,
    {
        (
            self.0.shallow_copy(),
            self.1.shallow_copy(),
            self.2.shallow_copy(),
            self.3.shallow_copy(),
            self.4.shallow_copy(),
            self.5.shallow_copy(),
            self.6.shallow_copy(),
            self.7.shallow_copy(),
            self.8.shallow_copy(),
            self.9.shallow_copy(),
        )
    }
}

impl<
    A: ShallowCopy,
    B: ShallowCopy,
    C: ShallowCopy,
    D: ShallowCopy,
    E: ShallowCopy,
    F: ShallowCopy,
    G: ShallowCopy,
    H: ShallowCopy,
    I: ShallowCopy,
    J: ShallowCopy,
    K: ShallowCopy,
> ShallowCopy for (A, B, C, D, E, F, G, H, I, J, K) {
    fn shallow_copy(&mut self) -> (dup: Self)
        ensures
            dup.0 == old(self).0,
            dup.1 == old(self).1,
            dup.2 == old(self).2,
            dup.3 == old(self).3,
            dup.4 == old(self).4,
            dup.5 == old(self).5,
            dup.6 == old(self).6,
            dup.7 == old(self).7,
            dup.8 == old(self).8,
            dup.9 == old(self).9,
            dup.10 == old(self).10,
    {
        (
            self.0.shallow_copy(),
            self.1.shallow_copy(),
            self.2.shallow_copy(),
            self.3.shallow_copy(),
            self.4.shallow_copy(),
            self.5.shallow_copy(),
            self.6.shallow_copy(),
            self.7.shallow_copy(),
            self.8.shallow_copy(),
            self.9.shallow_copy(),
            self.10.shallow_copy(),
        )
    }
}

impl<
    A: ShallowCopy,
    B: ShallowCopy,
    C: ShallowCopy,
    D: ShallowCopy,
    E: ShallowCopy,
    F: ShallowCopy,
    G: ShallowCopy,
    H: ShallowCopy,
    I: ShallowCopy,
    J: ShallowCopy,
    K: ShallowCopy,
    L: ShallowCopy,
> ShallowCopy for (A, B, C, D, E, F, G, H, I, J, K, L) {
    fn shallow_copy(&mut self) -> (dup: Self)
        ensures
            dup.0 == old(self).0,
            dup.1 == old(self).1,
            dup.2 == old(self).2,
            dup.3 == old(self).3,
            dup.4 == old(self).4,
            dup.5 == old(self).5,
            dup.6 == old(self).6,
            dup.7 == old(self).7,
            dup.8 == old(self).8,
            dup.9 == old(self).9,
            dup.10 == old(self).10,
            dup.11 == old(self).11,
    {
        (
            self.0.shallow_copy(),
            self.1.shallow_copy(),
            self.2.shallow_copy(),
            self.3.shallow_copy(),
            self.4.shallow_copy(),
            self.5.shallow_copy(),
            self.6.shallow_copy(),
            self.7.shallow_copy(),
            self.8.shallow_copy(),
            self.9.shallow_copy(),
            self.10.shallow_copy(),
            self.11.shallow_copy(),
        )
    }
}

} // verus!
