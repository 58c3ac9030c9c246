//! The capabilities of a `parking_lot` reader-writer lock.
//!
//! A lock is a resource by itself, behind a shared reference and behind a
//! mutable reference. Where the borrow rules already make the caller the only
//! one who can reach the lock, through the lock itself or a mutable reference
//! to it, exclusive access is a plain `&mut` to the data and nothing is
//! locked. Everywhere else the lock is locked, and the guard is one of the
//! three guard types of [`held`], each of which keeps a guard of
//! `parking_lot` alive.
//!
//! A guard of [`held`] is a guard of the lock that was asked for it, and stays
//! one of that lock through every transition.
//!
//! A lock can be shared, so which value an acquisition finds is settled only
//! when it happens: a lock [`holds`](GuardedTarget::holds) every value. Once a
//! guard is there, the lock admits no writer but the guard's owner, and what
//! the guard shows changes only through the guard.
//!
//! Acquiring can block, for as long as other guards of the lock stand in the
//! way. The contracts here say what is true when a call returns.

pub mod held;

use vstd::prelude::*;
use core::ops::Deref;
use core::ops::DerefMut;
use crate::api::DowngradableWriteApi;
use crate::api::GuardedTarget;
use crate::api::ReadApi;
use crate::api::UpgradableReadApi;
use crate::api::WriteApi;
use crate::guard::DowngradableWriteGuard;
use crate::guard::ReadGuard;
use crate::guard::UpgradableReadGuard;
use crate::guard::WriteGuard;
use held::downgrade_held;
use held::downgrade_held_to_upgradable;
use held::exclusive_data;
use held::exclusive_data_mut;
use held::lock_data_mut;
use held::lock_exclusive;
use held::lock_shared;
use held::lock_upgradable;
use held::shared_data;
use held::upgradable_data;
use held::upgrade_held;
use held::LockReadGuard;
use held::LockUpgradableReadGuard;
use held::LockWriteGuard;

verus! {

impl<'a, T> Deref for LockReadGuard<'a, T> {
    type Target = T;

    #[inline]
    fn deref(&self) -> (data: &T)
        ensures
            *data == self.target(),
    {
        shared_data(self)
    }
}

impl<'a, T> ReadGuard for LockReadGuard<'a, T> {
    open spec fn target(&self) -> T {
        self.shown()
    }

    #[inline]
    fn get(&self) -> (value: &T)
        ensures
            *value == self.target(),
    {
        shared_data(self)
    }
}

impl<'a, T> Deref for LockUpgradableReadGuard<'a, T> {
    type Target = T;

    #[inline]
    fn deref(&self) -> (data: &T)
        ensures
            *data == self.target(),
    {
        upgradable_data(self)
    }
}

impl<'a, T> ReadGuard for LockUpgradableReadGuard<'a, T> {
    open spec fn target(&self) -> T {
        self.shown()
    }

    #[inline]
    fn get(&self) -> (value: &T)
        ensures
            *value == self.target(),
    {
        upgradable_data(self)
    }
}

impl<'a, T> UpgradableReadGuard for LockUpgradableReadGuard<'a, T> {
    type UpgradeResult = LockWriteGuard<'a, T>;

    type UpgradeToDowngradableResult = LockWriteGuard<'a, T>;

    #[inline]
    fn upgrade(self) -> (upgraded: LockWriteGuard<'a, T>)
        ensures
            upgraded.target() == self.target(),
            upgraded.lock() == self.lock(),
    {
        upgrade_held(self)
    }

    #[inline]
    fn upgrade_to_downgradable(self) -> (upgraded: LockWriteGuard<'a, T>)
        ensures
            upgraded.target() == self.target(),
            upgraded.lock() == self.lock(),
    {
        upgrade_held(self)
    }
}

impl<'a, T> Deref for LockWriteGuard<'a, T> {
    type Target = T;

    #[inline]
    fn deref(&self) -> (data: &T)
        ensures
            *data == self.target(),
    {
        exclusive_data(self)
    }
}

impl<'a, T> DerefMut for LockWriteGuard<'a, T> {
    #[inline]
    fn deref_mut(&mut self) -> (data: &mut T)
        ensures
            *data == (*old(self)).target(),
            (*final(self)).target() == *final(data),
            (*final(self)).lock() == (*old(self)).lock(),
    {
        exclusive_data_mut(self)
    }
}

impl<'a, T> ReadGuard for LockWriteGuard<'a, T> {
    open spec fn target(&self) -> T {
        self.shown()
    }

    #[inline]
    fn get(&self) -> (value: &T)
        ensures
            *value == self.target(),
    {
        exclusive_data(self)
    }
}

impl<'a, T> WriteGuard for LockWriteGuard<'a, T> {
    #[inline]
    fn get_mut(&mut self) -> (value: &mut T)
        ensures
            *value == (*old(self)).target(),
            (*final(self)).target() == *final(value),
            (*final(self)).lock() == (*old(self)).lock(),
    {
        exclusive_data_mut(self)
    }
}

impl<'a, T> DowngradableWriteGuard for LockWriteGuard<'a, T> {
    type DowngradeResult = LockReadGuard<'a, T>;

    type DowngradeToUpgradableResult = LockUpgradableReadGuard<'a, T>;

    #[inline]
    fn downgrade(self) -> (downgraded: LockReadGuard<'a, T>)
        ensures
            downgraded.target() == self.target(),
            downgraded.lock() == self.lock(),
    {
        downgrade_held(self)
    }

    #[inline]
    fn downgrade_to_upgradable(self) -> (downgraded: LockUpgradableReadGuard<'a, T>)
        ensures
            downgraded.target() == self.target(),
            downgraded.lock() == self.lock(),
    {
        downgrade_held_to_upgradable(self)
    }
}

/// The lock itself. Reading locks it; writing borrows the data, since nobody
/// else can reach the lock meanwhile.
///
/// A lock may hold any value: whoever could reach it before may have stored
/// one.
impl<T> GuardedTarget for parking_lot::RwLock<T> {
    type Target = T;

    open spec fn holds(&self, value: T) -> bool {
        true
    }
}

/// A shared reference to the lock, of which there may be others. Every
/// acquisition locks.
impl<'c, T> GuardedTarget for &'c parking_lot::RwLock<T> {
    type Target = T;

    open spec fn holds(&self, value: T) -> bool {
        true
    }
}

/// A mutable reference to the lock. Reading and upgradable reading lock it;
/// writing borrows the data.
impl<'c, T> GuardedTarget for &'c mut parking_lot::RwLock<T> {
    type Target = T;

    open spec fn holds(&self, value: T) -> bool {
        true
    }
}

impl<'a, T: 'a> ReadApi<'a> for parking_lot::RwLock<T> {
    type ReadGuard = LockReadGuard<'a, T>;

    open spec fn owns_read_guard(&self, guard: &LockReadGuard<'a, T>) -> bool {
        guard.lock() == self
    }

    /// The guard is one of this lock, as [`ReadApi::owns_read_guard`] of a
    /// lock says.
    #[inline]
    fn read(&'a self) -> (guard: LockReadGuard<'a, T>) {
        lock_shared(self)
    }
}

impl<'a, T: 'a> WriteApi<'a> for parking_lot::RwLock<T> {
    type WriteGuard = &'a mut T;

    /// Borrows the data of the lock, which needs no locking here. Nothing is
    /// said of what the borrow finds: a lock holds what was last stored in
    /// it, which may have happened through a shared reference.
    #[inline]
    fn write(&'a mut self) -> (guard: &'a mut T) {
        lock_data_mut(self)
    }
}

impl<'a, T: 'a> UpgradableReadApi<'a> for parking_lot::RwLock<T> {
    type UpgradableReadGuard = &'a mut T;

    /// Borrows the data of the lock, which needs no locking here. Nothing is
    /// said of what the borrow finds: a lock holds what was last stored in
    /// it, which may have happened through a shared reference.
    #[inline]
    fn upgradable_read(&'a mut self) -> (guard: &'a mut T) {
        lock_data_mut(self)
    }
}

impl<'a, T: 'a> DowngradableWriteApi<'a> for parking_lot::RwLock<T> {
    type DowngradableWriteGuard = &'a mut T;

    /// Borrows the data of the lock, which needs no locking here. Nothing is
    /// said of what the borrow finds: a lock holds what was last stored in
    /// it, which may have happened through a shared reference.
    #[inline]
    fn downgradable_write(&'a mut self) -> (guard: &'a mut T) {
        lock_data_mut(self)
    }
}

impl<'a, 'c, T: 'a> ReadApi<'a> for &'c parking_lot::RwLock<T> {
    type ReadGuard = LockReadGuard<'a, T>;

    open spec fn owns_read_guard(&self, guard: &LockReadGuard<'a, T>) -> bool {
        guard.lock() == *self
    }

    #[inline]
    fn read(&'a self) -> (guard: LockReadGuard<'a, T>)
        ensures
            guard.lock() == *self,
    {
        lock_shared(*self)
    }
}

impl<'a, 'c, T: 'a> WriteApi<'a> for &'c parking_lot::RwLock<T> {
    type WriteGuard = LockWriteGuard<'a, T>;

    open spec fn owns_write_guard(&self, guard: &LockWriteGuard<'a, T>) -> bool {
        guard.lock() == *self
    }

    #[inline]
    fn write(&'a mut self) -> (guard: LockWriteGuard<'a, T>)
        ensures
            guard.lock() == *old(self),
            *final(self) == *old(self),
    {
        lock_exclusive(*self)
    }
}

impl<'a, 'c, T: 'a> UpgradableReadApi<'a> for &'c parking_lot::RwLock<T> {
    type UpgradableReadGuard = LockUpgradableReadGuard<'a, T>;

    open spec fn owns_upgradable_read_guard(
        &self,
        guard: &LockUpgradableReadGuard<'a, T>,
    ) -> bool {
        guard.lock() == *self
    }

    #[inline]
    fn upgradable_read(&'a mut self) -> (guard: LockUpgradableReadGuard<'a, T>)
        ensures
            guard.lock() == *old(self),
            *final(self) == *old(self),
    {
        lock_upgradable(*self)
    }
}

impl<'a, 'c, T: 'a> DowngradableWriteApi<'a> for &'c parking_lot::RwLock<T> {
    type DowngradableWriteGuard = LockWriteGuard<'a, T>;

    open spec fn owns_downgradable_write_guard(&self, guard: &LockWriteGuard<'a, T>) -> bool {
        guard.lock() == *self
    }

    #[inline]
    fn downgradable_write(&'a mut self) -> (guard: LockWriteGuard<'a, T>)
        ensures
            guard.lock() == *old(self),
            *final(self) == *old(self),
    {
        lock_exclusive(*self)
    }
}

impl<'a, 'c, T: 'a> ReadApi<'a> for &'c mut parking_lot::RwLock<T> {
    type ReadGuard = LockReadGuard<'a, T>;

    open spec fn owns_read_guard(&self, guard: &LockReadGuard<'a, T>) -> bool {
        guard.lock() == &**self
    }

    /// The guard is one of the lock behind this reference, as
    /// [`ReadApi::owns_read_guard`] of the reference says.
    #[inline]
    fn read(&'a self) -> (guard: LockReadGuard<'a, T>) {
        lock_shared(&**self)
    }
}

impl<'a, 'c, T: 'a> WriteApi<'a> for &'c mut parking_lot::RwLock<T> {
    type WriteGuard = &'a mut T;

    /// Borrows the data of the lock behind this reference, which needs no
    /// locking here, and leaves the reference where it pointed. Nothing is
    /// said of what the borrow finds: a lock holds what was last stored in
    /// it, which may have happened through a shared reference.
    #[inline]
    fn write(&'a mut self) -> (guard: &'a mut T)
        ensures
            *final(*final(self)) == *final(*old(self)),
    {
        lock_data_mut(&mut **self)
    }
}

impl<'a, 'c, T: 'a> UpgradableReadApi<'a> for &'c mut parking_lot::RwLock<T> {
    type UpgradableReadGuard = LockUpgradableReadGuard<'a, T>;

    open spec fn owns_upgradable_read_guard(
        &self,
        guard: &LockUpgradableReadGuard<'a, T>,
    ) -> bool {
        guard.lock() == &**self
    }

    #[inline]
    fn upgradable_read(&'a mut self) -> (guard: LockUpgradableReadGuard<'a, T>)
        ensures
            *guard.lock() == **old(self),
            **final(self) == **old(self),
            *final(*final(self)) == *final(*old(self)),
    {
        lock_upgradable(&**self)
    }
}

impl<'a, 'c, T: 'a> DowngradableWriteApi<'a> for &'c mut parking_lot::RwLock<T> {
    type DowngradableWriteGuard = &'a mut T;

    /// Borrows the data of the lock behind this reference, which needs no
    /// locking here, and leaves the reference where it pointed. Nothing is
    /// said of what the borrow finds: a lock holds what was last stored in
    /// it, which may have happened through a shared reference.
    #[inline]
    fn downgradable_write(&'a mut self) -> (guard: &'a mut T)
        ensures
            *final(*final(self)) == *final(*old(self)),
    {
        lock_data_mut(&mut **self)
    }
}

} // verus!
