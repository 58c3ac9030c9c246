//! What this crate takes on trust of `parking_lot`: its lock, its guards and
//! the calls that acquire, read and transform them.
//!
//! Verus does not look into `parking_lot`. It is told here what a call
//! returns, in terms of the lock that a guard [belongs to](LockReadGuard::lock)
//! and the value that it [shows](LockReadGuard::shown), and believes it.
//! Every function of this module is one call into `parking_lot` and nothing
//! else, and no other code can make a guard or look into one: the fields are
//! private to this module.

use vstd::prelude::*;

verus! {

/// `parking_lot::RawRwLock`, the lock state inside a `parking_lot::RwLock`.
#[verifier::external_type_specification]
#[verifier::external_body]
pub struct ExRawRwLock(parking_lot::RawRwLock);

/// `lock_api::RwLock`, of which `parking_lot::RwLock<T>` is the instance with
/// `parking_lot::RawRwLock`.
#[verifier::external_type_specification]
#[verifier::external_body]
#[verifier::reject_recursive_types(R)]
#[verifier::reject_recursive_types(T)]
pub struct ExRwLock<R, T: ?Sized>(parking_lot::lock_api::RwLock<R, T>);

/// Holds a `parking_lot::RwLockReadGuard`, which unlocks when it is dropped.
///
/// The guard types of `parking_lot` bound their lock parameter by a trait of
/// `lock_api`, which Verus does not take in a declaration of the type itself.
/// So each of them is kept in a struct of which Verus sees the name only.
#[verifier::external_body]
#[verifier::reject_recursive_types(T)]
struct HeldShared<'a, T>(parking_lot::RwLockReadGuard<'a, T>);

/// Holds a `parking_lot::RwLockUpgradableReadGuard`, which unlocks when it is
/// dropped.
#[verifier::external_body]
#[verifier::reject_recursive_types(T)]
struct HeldUpgradable<'a, T>(parking_lot::RwLockUpgradableReadGuard<'a, T>);

/// Holds a `parking_lot::RwLockWriteGuard`, which unlocks when it is dropped.
#[verifier::external_body]
#[verifier::reject_recursive_types(T)]
struct HeldExclusive<'a, T>(parking_lot::RwLockWriteGuard<'a, T>);

/// Shared access to the data of a locked lock.
///
/// `lock` stands for the lock that `held` keeps locked, and `shown` for the
/// value that this lock holds while `held` is alive. The fields are private
/// and only [`lock_shared`] and [`downgrade_held`] fill them, so no guard is
/// ever made with a lock or a value of the maker's choice.
#[verifier::reject_recursive_types(T)]
pub struct LockReadGuard<'a, T> {
    held: HeldShared<'a, T>,
    lock: Ghost<&'a parking_lot::RwLock<T>>,
    shown: Ghost<T>,
}

impl<'a, T> LockReadGuard<'a, T> {
    /// The lock that this guard keeps locked: the one that `rwlock` of the
    /// guard of `parking_lot` names.
    pub closed spec fn lock(&self) -> &'a parking_lot::RwLock<T> {
        self.lock@
    }

    /// The value that the lock holds while this guard is alive.
    pub closed spec fn shown(&self) -> T {
        self.shown@
    }
}

/// Shared access to the data of a locked lock, with the right to upgrade.
///
/// `lock` stands for the lock that `held` keeps locked, and `shown` for the
/// value that this lock holds while `held` is alive. The fields are private
/// and only [`lock_upgradable`] and [`downgrade_held_to_upgradable`] fill
/// them.
#[verifier::reject_recursive_types(T)]
pub struct LockUpgradableReadGuard<'a, T> {
    held: HeldUpgradable<'a, T>,
    lock: Ghost<&'a parking_lot::RwLock<T>>,
    shown: Ghost<T>,
}

impl<'a, T> LockUpgradableReadGuard<'a, T> {
    /// The lock that this guard keeps locked: the one that `rwlock` of the
    /// guard of `parking_lot` names.
    pub closed spec fn lock(&self) -> &'a parking_lot::RwLock<T> {
        self.lock@
    }

    /// The value that the lock holds while this guard is alive.
    pub closed spec fn shown(&self) -> T {
        self.shown@
    }
}

/// Exclusive access to the data of a locked lock.
///
/// `lock` stands for the lock that `held` keeps locked, and `shown` for the
/// value that this lock holds while `held` is alive; `shown` changes through
/// [`exclusive_data_mut`] and in no other way. The fields are private and
/// only [`lock_exclusive`] and [`upgrade_held`] fill them.
#[verifier::reject_recursive_types(T)]
pub struct LockWriteGuard<'a, T> {
    held: HeldExclusive<'a, T>,
    lock: Ghost<&'a parking_lot::RwLock<T>>,
    shown: Ghost<T>,
}

impl<'a, T> LockWriteGuard<'a, T> {
    /// The lock that this guard keeps locked: the one that `rwlock` of the
    /// guard of `parking_lot` names.
    pub closed spec fn lock(&self) -> &'a parking_lot::RwLock<T> {
        self.lock@
    }

    /// The value that the lock holds at this moment of the guard's life.
    pub closed spec fn shown(&self) -> T {
        self.shown@
    }
}

/// Calls `RwLock::read`, which returns once no writer holds the lock. The
/// guard that it returns is one of the lock it was called on. Nothing is
/// claimed of the value that the guard shows: it is the one that the lock
/// holds at that moment.
#[verifier::external_body]
pub(crate) fn lock_shared<'a, T>(
    lock: &'a parking_lot::RwLock<T>,
) -> (guard: LockReadGuard<'a, T>)
    ensures
        guard.lock() == lock,
{
    let held = HeldShared(lock.read());
    LockReadGuard { held, lock: Ghost(lock), shown: Ghost(arbitrary()) }
}

/// Calls `RwLock::upgradable_read`, which returns once neither a writer nor
/// another upgradable reader holds the lock. The guard that it returns is one
/// of the lock it was called on. Nothing is claimed of the value that the
/// guard shows: it is the one that the lock holds at that moment.
#[verifier::external_body]
pub(crate) fn lock_upgradable<'a, T>(
    lock: &'a parking_lot::RwLock<T>,
) -> (guard: LockUpgradableReadGuard<'a, T>)
    ensures
        guard.lock() == lock,
{
    let held = HeldUpgradable(lock.upgradable_read());
    LockUpgradableReadGuard { held, lock: Ghost(lock), shown: Ghost(arbitrary()) }
}

/// Calls `RwLock::write`, which returns once nobody else holds the lock. The
/// guard that it returns is one of the lock it was called on. Nothing is
/// claimed of the value that the guard shows: it is the one that the lock
/// holds at that moment.
#[verifier::external_body]
pub(crate) fn lock_exclusive<'a, T>(
    lock: &'a parking_lot::RwLock<T>,
) -> (guard: LockWriteGuard<'a, T>)
    ensures
        guard.lock() == lock,
{
    let held = HeldExclusive(lock.write());
    LockWriteGuard { held, lock: Ghost(lock), shown: Ghost(arbitrary()) }
}

/// Calls `RwLock::get_mut`, which borrows the data without locking. Nothing
/// is claimed of the value found there.
#[verifier::external_body]
pub(crate) fn lock_data_mut<'a, T>(lock: &'a mut parking_lot::RwLock<T>) -> (data: &'a mut T) {
    lock.get_mut()
}

/// Calls `deref` of `RwLockReadGuard`, which borrows the lock's data. While
/// the guard is alive no writer gets the lock, so the data is what the guard
/// shows.
#[verifier::external_body]
pub(crate) fn shared_data<'g, 'a, T>(guard: &'g LockReadGuard<'a, T>) -> (data: &'g T)
    ensures
        *data == guard.shown(),
{
    &*guard.held.0
}

/// Calls `deref` of `RwLockUpgradableReadGuard`, which borrows the lock's
/// data. While the guard is alive no writer gets the lock, so the data is
/// what the guard shows.
#[verifier::external_body]
pub(crate) fn upgradable_data<'g, 'a, T>(
    guard: &'g LockUpgradableReadGuard<'a, T>,
) -> (data: &'g T)
    ensures
        *data == guard.shown(),
{
    &*guard.held.0
}

/// Calls `deref` of `RwLockWriteGuard`, which borrows the lock's data. While
/// the guard is alive nobody else gets the lock, so the data is what the
/// guard shows.
#[verifier::external_body]
pub(crate) fn exclusive_data<'g, 'a, T>(guard: &'g LockWriteGuard<'a, T>) -> (data: &'g T)
    ensures
        *data == guard.shown(),
{
    &*guard.held.0
}

/// Calls `deref_mut` of `RwLockWriteGuard`, which borrows the lock's data
/// mutably. The borrow starts at what the guard shows, and what it leaves
/// behind is what the guard shows afterwards. The guard stays one of the
/// same lock.
#[verifier::external_body]
pub(crate) fn exclusive_data_mut<'g, 'a, T>(
    guard: &'g mut LockWriteGuard<'a, T>,
) -> (data: &'g mut T)
    ensures
        *data == (*old(guard)).shown(),
        (*final(guard)).shown() == *final(data),
        (*final(guard)).lock() == (*old(guard)).lock(),
{
    &mut *guard.held.0
}

/// Calls `RwLockUpgradableReadGuard::upgrade`, which waits for the readers to
/// leave and turns the upgradable lock into an exclusive one in one step. No
/// writer gets the lock in between, so the data stays what it was. The new
/// guard is one of the same lock.
#[verifier::external_body]
pub(crate) fn upgrade_held<'a, T>(
    guard: LockUpgradableReadGuard<'a, T>,
) -> (upgraded: LockWriteGuard<'a, T>)
    ensures
        upgraded.shown() == guard.shown(),
        upgraded.lock() == guard.lock(),
{
    let held = parking_lot::RwLockUpgradableReadGuard::upgrade(guard.held.0);
    LockWriteGuard { held: HeldExclusive(held), lock: guard.lock, shown: guard.shown }
}

/// Calls `RwLockWriteGuard::downgrade`, which turns the exclusive lock into a
/// shared one in one step. No writer gets the lock in between, so the data
/// stays what it was. The new guard is one of the same lock.
#[verifier::external_body]
pub(crate) fn downgrade_held<'a, T>(
    guard: LockWriteGuard<'a, T>,
) -> (downgraded: LockReadGuard<'a, T>)
    ensures
        downgraded.shown() == guard.shown(),
        downgraded.lock() == guard.lock(),
{
    let held = parking_lot::RwLockWriteGuard::downgrade(guard.held.0);
    LockReadGuard { held: HeldShared(held), lock: guard.lock, shown: guard.shown }
}

/// Calls `RwLockWriteGuard::downgrade_to_upgradable`, which turns the
/// exclusive lock into an upgradable one in one step. No writer gets the lock
/// in between, so the data stays what it was. The new guard is one of the
/// same lock.
#[verifier::external_body]
pub(crate) fn downgrade_held_to_upgradable<'a, T>(
    guard: LockWriteGuard<'a, T>,
) -> (downgraded: LockUpgradableReadGuard<'a, T>)
    ensures
        downgraded.shown() == guard.shown(),
        downgraded.lock() == guard.lock(),
{
    let held = parking_lot::RwLockWriteGuard::downgrade_to_upgradable(guard.held.0);
    LockUpgradableReadGuard { held: HeldUpgradable(held), lock: guard.lock, shown: guard.shown }
}

} // verus!
