//! The shared-resource accessor: scoped read and write access to a value
//! whose ownership strategy the driver logic must not depend on.
//!
//! A `Borrowing` capability grants a closure exclusive scoped access to a
//! target value. The uniquely-owned strategy is provided here; strategies
//! built on interior mutability or locks live with the unverified shell
//! around the library, behind the same interface shape, because a lock's
//! hidden state has no sound per-value model.

use vstd::prelude::*;

verus! {

/// Scoped access to a value with some ownership strategy: run a closure on
/// the target, immutably or as a replacement of it.
pub trait Borrowing: Sized {
    /// The dereferenced target.
    type Target;

    /// The target's current value.
    spec fn target(&self) -> Self::Target;

    /// Do something with an immutable reference to the target.
    fn with<A, F: FnOnce(&Self::Target) -> A>(&self, f: F) -> (r: A)
        requires
            call_requires(f, (&self.target(),)),
        ensures
            call_ensures(f, (&self.target(),), r),
    ;

    /// Replace the target through a function of its previous value,
    /// returning a result alongside.
    fn with_mut<A, F: FnOnce(&Self::Target) -> (Self::Target, A)>(&mut self, f: F) -> (r: A)
        requires
            call_requires(f, (&old(self).target(),)),
        ensures
            call_ensures(f, (&old(self).target(),), (final(self).target(), r)),
    ;
}

/// The uniquely-owned strategy: the accessor holds the target itself.
pub struct Unique<T> {
    value: T,
}

impl<T> Unique<T> {
    /// Own a value uniquely.
    pub fn new(value: T) -> (u: Unique<T>)
        ensures
            u.target() == value,
    {
        Unique { value }
    }

    /// Give the owned value up.
    pub fn into_inner(self) -> (r: T)
        ensures
            r == self.target(),
    {
        self.value
    }
}

impl<T> Borrowing for Unique<T> {
    type Target = T;

    closed spec fn target(&self) -> T {
        self.value
    }

    fn with<A, F: FnOnce(&T) -> A>(&self, f: F) -> (r: A) {
        f(&self.value)
    }

    fn with_mut<A, F: FnOnce(&T) -> (T, A)>(&mut self, f: F) -> (r: A) {
        let (next, result) = f(&self.value);
        self.value = next;
        result
    }
}

} // verus!
