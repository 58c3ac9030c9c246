//! The capabilities of the plain-value adapters.
//!
//! Nothing here blocks and nothing is locked. A guard is a plain reference to
//! the wrapped value, so exclusive access is what `&mut` already gives: while
//! a write guard lives, the borrow rules let nobody else reach the adapter.
//! Each adapter is a resource by itself and behind a reference; a reference
//! to an adapter grants what the borrow it stands for allows.

use vstd::prelude::*;
use crate::api::DowngradableWriteApi;
use crate::api::GuardedTarget;
use crate::api::ReadApi;
use crate::api::UpgradableReadApi;
use crate::api::WriteApi;
use crate::wrappers::ReadApiWrapper;
use crate::wrappers::RwApiWrapper;
use crate::wrappers::RwApiWrapperOwned;

verus! {

/// The guarded value is the wrapped reference.
impl<'b, T: ?Sized> GuardedTarget for ReadApiWrapper<'b, T> {
    type Target = &'b T;

    open spec fn holds(&self, value: &'b T) -> bool {
        value == self.0
    }
}

impl<'b, 'c, T: ?Sized> GuardedTarget for &'c ReadApiWrapper<'b, T> {
    type Target = &'b T;

    open spec fn holds(&self, value: &'b T) -> bool {
        value == self.0
    }
}

impl<'b, 'c, T: ?Sized> GuardedTarget for &'c mut ReadApiWrapper<'b, T> {
    type Target = &'b T;

    open spec fn holds(&self, value: &'b T) -> bool {
        value == self.0
    }
}

impl<'a, 'b: 'a, T: ?Sized> ReadApi<'a> for ReadApiWrapper<'b, T> {
    type ReadGuard = &'a &'b T;

    #[inline(always)]
    fn read(&'a self) -> (guard: &'a &'b T)
        ensures
            *guard == self.0,
    {
        &self.0
    }
}

impl<'a, 'b: 'a, 'c, T: ?Sized> ReadApi<'a> for &'c ReadApiWrapper<'b, T> {
    type ReadGuard = &'a &'b T;

    #[inline(always)]
    fn read(&'a self) -> (guard: &'a &'b T)
        ensures
            *guard == self.0,
    {
        &self.0
    }
}

impl<'a, 'b: 'a, 'c, T: ?Sized> ReadApi<'a> for &'c mut ReadApiWrapper<'b, T> {
    type ReadGuard = &'a &'b T;

    #[inline(always)]
    /// The guard shows the wrapped value, as [`GuardedTarget::holds`] of this
    /// reference says.
    fn read(&'a self) -> (guard: &'a &'b T) {
        &self.0
    }
}

/// The guarded value is the wrapped reference.
impl<'b, T: ?Sized> GuardedTarget for RwApiWrapper<'b, T> {
    type Target = &'b mut T;

    open spec fn holds(&self, value: &'b mut T) -> bool {
        value == self.0
    }
}

impl<'b, 'c, T: ?Sized> GuardedTarget for &'c RwApiWrapper<'b, T> {
    type Target = &'b mut T;

    open spec fn holds(&self, value: &'b mut T) -> bool {
        value == self.0
    }
}

impl<'b, 'c, T: ?Sized> GuardedTarget for &'c mut RwApiWrapper<'b, T> {
    type Target = &'b mut T;

    open spec fn holds(&self, value: &'b mut T) -> bool {
        value == self.0
    }
}

impl<'a, 'b: 'a, T: ?Sized> ReadApi<'a> for RwApiWrapper<'b, T> {
    type ReadGuard = &'a &'b mut T;

    #[inline(always)]
    fn read(&'a self) -> (guard: &'a &'b mut T)
        ensures
            *guard == self.0,
    {
        &self.0
    }
}

impl<'a, 'b: 'a, 'c, T: ?Sized> ReadApi<'a> for &'c RwApiWrapper<'b, T> {
    type ReadGuard = &'a &'b mut T;

    #[inline(always)]
    fn read(&'a self) -> (guard: &'a &'b mut T)
        ensures
            *guard == self.0,
    {
        &self.0
    }
}

impl<'a, 'b: 'a, 'c, T: ?Sized> ReadApi<'a> for &'c mut RwApiWrapper<'b, T> {
    type ReadGuard = &'a &'b mut T;

    #[inline(always)]
    /// The guard shows the wrapped value, as [`GuardedTarget::holds`] of this
    /// reference says.
    fn read(&'a self) -> (guard: &'a &'b mut T) {
        &self.0
    }
}

impl<'a, 'b: 'a, T: ?Sized> UpgradableReadApi<'a> for RwApiWrapper<'b, T> {
    type UpgradableReadGuard = &'a mut &'b mut T;

    #[inline(always)]
    fn upgradable_read(&'a mut self) -> (guard: &'a mut &'b mut T)
        ensures
            *guard == old(self).0,
            final(self).0 == *final(guard),
    {
        &mut self.0
    }
}

impl<'a, 'b: 'a, T: ?Sized> WriteApi<'a> for RwApiWrapper<'b, T> {
    type WriteGuard = &'a mut &'b mut T;

    #[inline(always)]
    fn write(&'a mut self) -> (guard: &'a mut &'b mut T)
        ensures
            *guard == old(self).0,
            final(self).0 == *final(guard),
    {
        &mut self.0
    }
}

impl<'a, 'b: 'a, T: ?Sized> DowngradableWriteApi<'a> for RwApiWrapper<'b, T> {
    type DowngradableWriteGuard = &'a mut &'b mut T;

    #[inline(always)]
    fn downgradable_write(&'a mut self) -> (guard: &'a mut &'b mut T)
        ensures
            *guard == old(self).0,
            final(self).0 == *final(guard),
    {
        &mut self.0
    }
}

impl<'a, 'b: 'a, 'c, T: ?Sized> UpgradableReadApi<'a> for &'c mut RwApiWrapper<'b, T> {
    type UpgradableReadGuard = &'a mut &'b mut T;

    #[inline(always)]
    fn upgradable_read(&'a mut self) -> (guard: &'a mut &'b mut T)
        ensures
            *guard == old(self).0,
            final(self).0 == *final(guard),
            *final(*final(self)) == *final(*old(self)),
    {
        &mut self.0
    }
}

impl<'a, 'b: 'a, 'c, T: ?Sized> WriteApi<'a> for &'c mut RwApiWrapper<'b, T> {
    type WriteGuard = &'a mut &'b mut T;

    #[inline(always)]
    fn write(&'a mut self) -> (guard: &'a mut &'b mut T)
        ensures
            *guard == old(self).0,
            final(self).0 == *final(guard),
            *final(*final(self)) == *final(*old(self)),
    {
        &mut self.0
    }
}

impl<'a, 'b: 'a, 'c, T: ?Sized> DowngradableWriteApi<'a> for &'c mut RwApiWrapper<'b, T> {
    type DowngradableWriteGuard = &'a mut &'b mut T;

    #[inline(always)]
    fn downgradable_write(&'a mut self) -> (guard: &'a mut &'b mut T)
        ensures
            *guard == old(self).0,
            final(self).0 == *final(guard),
            *final(*final(self)) == *final(*old(self)),
    {
        &mut self.0
    }
}

/// The guarded value is the wrapped value.
impl<T> GuardedTarget for RwApiWrapperOwned<T> {
    type Target = T;

    open spec fn holds(&self, value: T) -> bool {
        value == self.0
    }
}

impl<'c, T> GuardedTarget for &'c RwApiWrapperOwned<T> {
    type Target = T;

    open spec fn holds(&self, value: T) -> bool {
        value == self.0
    }
}

impl<'c, T> GuardedTarget for &'c mut RwApiWrapperOwned<T> {
    type Target = T;

    open spec fn holds(&self, value: T) -> bool {
        value == self.0
    }
}

impl<'a, T: 'a> ReadApi<'a> for RwApiWrapperOwned<T> {
    type ReadGuard = &'a T;

    #[inline(always)]
    fn read(&'a self) -> (guard: &'a T)
        ensures
            *guard == self.0,
    {
        &self.0
    }
}

impl<'a, 'c, T: 'a> ReadApi<'a> for &'c RwApiWrapperOwned<T> {
    type ReadGuard = &'a T;

    #[inline(always)]
    fn read(&'a self) -> (guard: &'a T)
        ensures
            *guard == self.0,
    {
        &self.0
    }
}

impl<'a, 'c, T: 'a> ReadApi<'a> for &'c mut RwApiWrapperOwned<T> {
    type ReadGuard = &'a T;

    #[inline(always)]
    /// The guard shows the wrapped value, as [`GuardedTarget::holds`] of this
    /// reference says.
    fn read(&'a self) -> (guard: &'a T) {
        &self.0
    }
}

impl<'a, T: 'a> UpgradableReadApi<'a> for RwApiWrapperOwned<T> {
    type UpgradableReadGuard = &'a mut T;

    #[inline(always)]
    fn upgradable_read(&'a mut self) -> (guard: &'a mut T)
        ensures
            *guard == old(self).0,
            final(self).0 == *final(guard),
    {
        &mut self.0
    }
}

impl<'a, T: 'a> WriteApi<'a> for RwApiWrapperOwned<T> {
    type WriteGuard = &'a mut T;

    #[inline(always)]
    fn write(&'a mut self) -> (guard: &'a mut T)
        ensures
            *guard == old(self).0,
            final(self).0 == *final(guard),
    {
        &mut self.0
    }
}

impl<'a, T: 'a> DowngradableWriteApi<'a> for RwApiWrapperOwned<T> {
    type DowngradableWriteGuard = &'a mut T;

    #[inline(always)]
    fn downgradable_write(&'a mut self) -> (guard: &'a mut T)
        ensures
            *guard == old(self).0,
            final(self).0 == *final(guard),
    {
        &mut self.0
    }
}

impl<'a, 'c, T: 'a> UpgradableReadApi<'a> for &'c mut RwApiWrapperOwned<T> {
    type UpgradableReadGuard = &'a mut T;

    #[inline(always)]
    fn upgradable_read(&'a mut self) -> (guard: &'a mut T)
        ensures
            *guard == old(self).0,
            final(self).0 == *final(guard),
            *final(*final(self)) == *final(*old(self)),
    {
        &mut self.0
    }
}

impl<'a, 'c, T: 'a> WriteApi<'a> for &'c mut RwApiWrapperOwned<T> {
    type WriteGuard = &'a mut T;

    #[inline(always)]
    fn write(&'a mut self) -> (guard: &'a mut T)
        ensures
            *guard == old(self).0,
            final(self).0 == *final(guard),
            *final(*final(self)) == *final(*old(self)),
    {
        &mut self.0
    }
}

impl<'a, 'c, T: 'a> DowngradableWriteApi<'a> for &'c mut RwApiWrapperOwned<T> {
    type DowngradableWriteGuard = &'a mut T;

    #[inline(always)]
    fn downgradable_write(&'a mut self) -> (guard: &'a mut T)
        ensures
            *guard == old(self).0,
            final(self).0 == *final(guard),
            *final(*final(self)) == *final(*old(self)),
    {
        &mut self.0
    }
}

} // verus!
