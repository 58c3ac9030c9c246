//! Capabilities for references to a type that says how its value is reached.
//!
//! A type that implements [`AutoReadApi`] gets [`ReadApi`] for its shared and
//! mutable references, and one that also implements [`AutoWriteApi`] gets
//! [`WriteApi`] for its mutable references. The guards are plain references.

use vstd::prelude::*;
use crate::api::GuardedTarget;
use crate::api::ReadApi;
use crate::api::WriteApi;

verus! {

/// A type whose references are to be readable resources.
pub trait AutoReadApi {
    /// The type of the guarded value.
    type Target;

    /// Whether `value` may be the guarded value right now. A type that says
    /// nothing here may guard any value.
    open spec fn holds(&self, value: Self::Target) -> bool {
        true
    }

    /// Borrows the guarded value.
    fn get(&self) -> (value: &Self::Target)
        ensures
            self.holds(*value),
    ;
}

/// A type whose mutable references are to be writable resources.
pub trait AutoWriteApi: AutoReadApi {
    /// Borrows the guarded value mutably. What the borrow holds when it ends
    /// is the guarded value from then on.
    fn get_mut(&mut self) -> (value: &mut Self::Target)
        ensures
            (*old(self)).holds(*value),
            (*final(self)).holds(*final(value)),
    ;
}

impl<'c, T: AutoReadApi> GuardedTarget for &'c T {
    type Target = T::Target;

    open spec fn holds(&self, value: T::Target) -> bool {
        AutoReadApi::holds(*self, value)
    }
}

impl<'c, T: AutoReadApi> GuardedTarget for &'c mut T {
    type Target = T::Target;

    open spec fn holds(&self, value: T::Target) -> bool {
        AutoReadApi::holds(&**self, value)
    }
}

impl<'a, 'c, T: AutoReadApi> ReadApi<'a> for &'c T where T::Target: 'a {
    type ReadGuard = &'a T::Target;

    #[inline(always)]
    fn read(&'a self) -> (guard: &'a T::Target) {
        (**self).get()
    }
}

impl<'a, 'c, T: AutoReadApi> ReadApi<'a> for &'c mut T where T::Target: 'a {
    type ReadGuard = &'a T::Target;

    #[inline(always)]
    fn read(&'a self) -> (guard: &'a T::Target) {
        (**self).get()
    }
}

impl<'a, 'c, T: AutoWriteApi> WriteApi<'a> for &'c mut T where T::Target: 'a {
    type WriteGuard = &'a mut T::Target;

    #[inline(always)]
    fn write(&'a mut self) -> (guard: &'a mut T::Target)
        ensures
            AutoReadApi::holds(&**final(self), *final(guard)),
            *final(*final(self)) == *final(*old(self)),
    {
        (**self).get_mut()
    }
}

} // verus!
