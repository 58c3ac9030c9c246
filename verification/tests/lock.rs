use parking_lot::RwLock;
use read_write_api::DowngradableWriteApi;
use read_write_api::DowngradableWriteGuard;
use read_write_api::ReadApi;
use read_write_api::ReadGuard;
use read_write_api::UpgradableReadApi;
use read_write_api::UpgradableReadGuard;
use read_write_api::WriteApi;
use read_write_api::WriteGuard;

#[test]
fn upgrade_write_downgrade_on_a_shared_lock() {
    let lock = RwLock::new(1u64);
    let mut handle = &lock;
    let guard = UpgradableReadApi::upgradable_read(&mut handle);
    assert_eq!(*guard, 1);
    let mut guard = guard.upgrade_to_downgradable();
    *guard = 2;
    let guard = guard.downgrade();
    assert_eq!(*guard, 2);
    drop(guard);
    assert_eq!(lock.into_inner(), 2);
}

#[test]
fn upgrade_write_downgrade_on_an_owned_lock() {
    let mut lock = RwLock::new(1u64);
    let guard = UpgradableReadApi::upgradable_read(&mut lock);
    assert_eq!(*guard, 1);
    let guard = guard.upgrade_to_downgradable();
    *guard = 2;
    let guard = guard.downgrade();
    assert_eq!(*guard, 2);
    assert_eq!(lock.into_inner(), 2);
}

#[test]
fn upgrade_write_downgrade_on_a_mutably_borrowed_lock() {
    let mut lock = RwLock::new(1u64);
    let mut handle = &mut lock;
    let guard = UpgradableReadApi::upgradable_read(&mut handle);
    assert_eq!(*guard, 1);
    let mut guard = guard.upgrade_to_downgradable();
    *guard = 2;
    let guard = guard.downgrade();
    assert_eq!(*guard, 2);
    drop(guard);
    assert_eq!(lock.into_inner(), 2);
}

#[test]
fn a_fresh_read_guard_of_a_lock_sees_what_the_write_guard_left() {
    let lock = RwLock::new(String::from("old"));
    let mut handle = &lock;
    {
        let mut guard = WriteApi::write(&mut handle);
        guard.push_str("er");
    }
    assert_eq!(ReadApi::read(&handle).as_str(), "older");
    {
        let mut guard = DowngradableWriteApi::downgradable_write(&mut handle);
        *guard.get_mut() = String::from("new");
    }
    assert_eq!(ReadApi::read(&handle).get().as_str(), "new");
}

#[test]
fn an_owned_lock_is_written_without_locking() {
    let mut lock = RwLock::new(1u64);
    *WriteApi::write(&mut lock) = 2;
    assert_eq!(*ReadApi::read(&lock), 2);
    *DowngradableWriteApi::downgradable_write(&mut lock) = 3;
    assert_eq!(*ReadApi::read(&lock), 3);
    {
        let guard = WriteApi::write(&mut lock);
        *guard = 4;
    }
    assert!(!lock.is_locked());
    let mut handle = &mut lock;
    *WriteApi::write(&mut handle) = 5;
    *DowngradableWriteApi::downgradable_write(&mut handle) += 1;
    assert_eq!(*ReadApi::read(&handle), 6);
    assert_eq!(lock.into_inner(), 6);
}

#[test]
fn a_write_guard_keeps_every_other_guard_out() {
    let lock = RwLock::new(1u64);
    let mut handle = &lock;
    let mut guard = WriteApi::write(&mut handle);
    assert!(lock.is_locked_exclusive());
    assert!(lock.try_read().is_none());
    assert!(lock.try_upgradable_read().is_none());
    assert!(lock.try_write().is_none());
    *guard = 2;
    drop(guard);
    assert!(!lock.is_locked());
    assert_eq!(lock.try_read().map(|seen| *seen), Some(2));
    assert!(lock.try_write().is_some());
}

#[test]
fn a_downgradable_write_guard_keeps_every_other_guard_out() {
    let lock = RwLock::new(1u64);
    let mut handle = &lock;
    let guard = DowngradableWriteApi::downgradable_write(&mut handle);
    assert!(lock.try_read().is_none());
    assert!(lock.try_upgradable_read().is_none());
    assert!(lock.try_write().is_none());
    let guard = guard.downgrade();
    assert!(lock.try_write().is_none());
    assert_eq!(lock.try_read().map(|seen| *seen), Some(1));
    drop(guard);
    assert!(lock.try_write().is_some());
}

#[test]
fn an_upgraded_guard_keeps_every_other_guard_out() {
    let lock = RwLock::new(1u64);
    let mut handle = &lock;
    let guard = UpgradableReadApi::upgradable_read(&mut handle);
    assert!(lock.try_read().is_some());
    let guard = guard.upgrade();
    assert!(lock.is_locked_exclusive());
    assert!(lock.try_read().is_none());
    assert!(lock.try_upgradable_read().is_none());
    drop(guard);
    assert!(!lock.is_locked());
}

#[test]
fn a_read_guard_keeps_writers_out_and_lets_readers_in() {
    let lock = RwLock::new(1u64);
    let handle = &lock;
    let guard = ReadApi::read(&handle);
    assert!(lock.try_write().is_none());
    assert!(lock.try_read().is_some());
    assert!(lock.try_upgradable_read().is_some());
    drop(guard);
    assert!(lock.try_write().is_some());
}

#[test]
fn only_one_upgradable_guard_at_a_time() {
    let lock = RwLock::new(1u64);
    let mut handle = &lock;
    let guard = UpgradableReadApi::upgradable_read(&mut handle);
    assert!(lock.try_upgradable_read().is_none());
    assert!(lock.try_write().is_none());
    assert!(lock.try_read().is_some());
    drop(guard);
    assert!(lock.try_upgradable_read().is_some());
}

#[test]
fn an_upgradable_guard_that_was_upgraded_and_downgraded_is_still_the_only_one() {
    let lock = RwLock::new(1u64);
    let mut handle = &lock;
    let guard = UpgradableReadApi::upgradable_read(&mut handle);
    let guard = guard.upgrade_to_downgradable().downgrade_to_upgradable();
    assert_eq!(*guard, 1);
    assert!(lock.try_upgradable_read().is_none());
    assert!(lock.try_read().is_some());
    let mut guard = guard.upgrade_to_downgradable();
    assert!(lock.try_read().is_none());
    *guard.get_mut() = 9;
    let guard = guard.downgrade_to_upgradable();
    assert_eq!(*guard.get(), 9);
    drop(guard);
    assert!(lock.try_upgradable_read().is_some());
}

#[test]
fn guards_of_a_lock_can_be_used_through_their_own_methods() {
    let lock = RwLock::new(1u64);
    let mut handle = &lock;
    let guard = UpgradableReadApi::upgradable_read(&mut handle);
    assert_eq!(*guard.get(), 1);
    let mut guard = guard.upgrade();
    assert_eq!(*guard.get(), 1);
    *guard.get_mut() = 2;
    assert_eq!(*guard.get(), 2);
    let guard = guard.downgrade();
    assert_eq!(*guard.get(), 2);
}

#[test]
fn a_lock_of_a_reference_guards_the_reference() {
    let mut value = 1u64;
    let lock = RwLock::new(&mut value);
    let mut handle = &lock;
    **WriteApi::write(&mut handle) = 2;
    assert_eq!(**ReadApi::read(&handle), 2);
    drop(lock);
    assert_eq!(value, 2);
}

#[test]
fn a_guard_is_one_of_the_lock_that_was_asked_for_it() {
    let first = RwLock::new(1u64);
    let second = RwLock::new(2u64);
    {
        let guard = ReadApi::read(&first);
        assert!(first.is_locked());
        assert!(!second.is_locked());
        assert_eq!(*guard, 1);
    }
    assert!(!first.is_locked());
    {
        let handle = &second;
        let guard = ReadApi::read(&handle);
        assert!(second.is_locked());
        assert!(!first.is_locked());
        assert_eq!(*guard, 2);
    }
    {
        let mut handle = &second;
        let guard = WriteApi::write(&mut handle);
        assert!(second.is_locked_exclusive());
        assert!(!first.is_locked());
        drop(guard);
        let guard = DowngradableWriteApi::downgradable_write(&mut handle);
        assert!(second.is_locked_exclusive());
        assert!(!first.is_locked());
        drop(guard);
        let guard = UpgradableReadApi::upgradable_read(&mut handle);
        assert!(second.is_locked());
        assert!(!second.is_locked_exclusive());
        assert!(!first.is_locked());
        drop(guard);
    }
    assert!(!second.is_locked());
}

#[test]
fn a_guard_of_a_mutably_borrowed_lock_is_one_of_that_lock() {
    let mut first = RwLock::new(1u64);
    let second = RwLock::new(2u64);
    {
        let handle = &mut first;
        let guard = ReadApi::read(&handle);
        assert!(handle.is_locked());
        assert!(!second.is_locked());
        assert_eq!(*guard, 1);
    }
    {
        let mut handle = &mut first;
        let guard = UpgradableReadApi::upgradable_read(&mut handle);
        assert!(!second.is_locked());
        let mut guard = guard.upgrade();
        *guard = 3;
    }
    assert!(!first.is_locked());
    assert_eq!(first.into_inner(), 3);
    assert_eq!(second.into_inner(), 2);
}

#[test]
fn a_guard_stays_one_of_its_lock_through_every_transition() {
    let first = RwLock::new(1u64);
    let second = RwLock::new(2u64);
    let mut handle = &first;
    let guard = UpgradableReadApi::upgradable_read(&mut handle);
    let mut guard = guard.upgrade_to_downgradable();
    assert!(first.is_locked_exclusive());
    assert!(!second.is_locked());
    *guard.get_mut() = 5;
    assert!(first.is_locked_exclusive());
    let guard = guard.downgrade_to_upgradable();
    assert!(first.is_locked());
    assert!(!first.is_locked_exclusive());
    assert!(second.try_write().is_some());
    let guard = guard.upgrade().downgrade();
    assert!(first.try_read().is_some());
    assert!(first.try_write().is_none());
    assert!(!second.is_locked());
    drop(guard);
    assert!(!first.is_locked());
    assert_eq!(first.into_inner(), 5);
    assert_eq!(second.into_inner(), 2);
}
