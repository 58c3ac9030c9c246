use read_write_api::DowngradableWriteGuard;
use read_write_api::ReadGuard;
use read_write_api::UpgradableReadGuard;
use read_write_api::WriteGuard;

#[test]
fn a_shared_reference_is_a_read_guard() {
    let value = 3u64;
    let guard = &value;
    assert_eq!(*ReadGuard::get(&guard), 3);
}

#[test]
fn a_mutable_reference_is_a_write_guard() {
    let mut value = 3u64;
    let mut guard = &mut value;
    assert_eq!(*ReadGuard::get(&guard), 3);
    *WriteGuard::get_mut(&mut guard) = 4;
    assert_eq!(*ReadGuard::get(&guard), 4);
    assert_eq!(value, 4);
}

#[test]
fn transitions_of_a_mutable_reference_hand_the_reference_on() {
    let mut value = 1u64;
    let guard = &mut value;
    let guard = guard.upgrade();
    *guard += 1;
    let guard = guard.downgrade_to_upgradable();
    let guard = guard.upgrade_to_downgradable();
    *guard += 1;
    let guard = guard.downgrade();
    assert_eq!(*guard, 3);
    assert_eq!(value, 3);
}

#[test]
fn upgrading_and_downgrading_shows_the_same_value() {
    let mut value = 42u64;
    let guard = &mut value;
    let seen = *guard;
    let back = guard.upgrade_to_downgradable().downgrade_to_upgradable();
    assert_eq!(*back, seen);
    let back = back.upgrade_to_downgradable().downgrade_to_upgradable();
    assert_eq!(*back, seen);
}

fn round_trip<G: UpgradableReadGuard<Target = u64>>(guard: G) -> (u64, u64) {
    let before = *guard.get();
    let back = guard.upgrade_to_downgradable().downgrade_to_upgradable();
    (before, *back.get())
}

#[test]
fn a_round_trip_written_once_for_all_guards() {
    let mut value = 8u64;
    assert_eq!(round_trip(&mut value), (8, 8));
}
