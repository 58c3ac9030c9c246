use read_write_api::ReadApiWrapper;
use read_write_api::RwApiWrapper;
use read_write_api::RwApiWrapperOwned;
use std::collections::HashSet;

#[test]
fn the_default_owned_wrapper_wraps_the_default_value() {
    assert_eq!(RwApiWrapperOwned::<u64>::default().0, 0);
    assert_eq!(RwApiWrapperOwned::<String>::default().0, "");
    assert_eq!(RwApiWrapperOwned::<Option<u8>>::default(), RwApiWrapperOwned(None));
}

#[test]
fn owned_wrappers_compare_by_the_wrapped_value() {
    assert_eq!(RwApiWrapperOwned(1), RwApiWrapperOwned(1));
    assert_ne!(RwApiWrapperOwned(1), RwApiWrapperOwned(2));
    assert!(RwApiWrapperOwned(1) < RwApiWrapperOwned(2));
    assert_eq!(RwApiWrapperOwned(3).max(RwApiWrapperOwned(2)), RwApiWrapperOwned(3));
    let copy = RwApiWrapperOwned(5);
    let other = copy;
    assert_eq!(copy, other.clone());
    assert_eq!(format!("{:?}", RwApiWrapperOwned(7)), "RwApiWrapperOwned(7)");
    let set: HashSet<RwApiWrapperOwned<u8>> =
        [RwApiWrapperOwned(1), RwApiWrapperOwned(1), RwApiWrapperOwned(2)].into_iter().collect();
    assert_eq!(set.len(), 2);
}

#[test]
fn reference_wrappers_compare_by_the_value_behind_the_reference() {
    let (one, uno, two) = (1u64, 1u64, 2u64);
    assert_eq!(ReadApiWrapper(&one), ReadApiWrapper(&uno));
    assert!(ReadApiWrapper(&one) < ReadApiWrapper(&two));
    let copy = ReadApiWrapper(&one);
    let other = copy;
    assert_eq!(copy, other.clone());
    assert_eq!(format!("{:?}", ReadApiWrapper(&two)), "ReadApiWrapper(2)");
    let (mut a, mut b, mut c) = (1u64, 1u64, 2u64);
    assert_eq!(RwApiWrapper(&mut a), RwApiWrapper(&mut b));
    assert!(RwApiWrapper(&mut b) < RwApiWrapper(&mut c));
    assert_eq!(format!("{:?}", RwApiWrapper(&mut c)), "RwApiWrapper(2)");
    let mut set = HashSet::new();
    set.insert(RwApiWrapper(&mut a));
    set.insert(RwApiWrapper(&mut b));
    assert_eq!(set.len(), 1);
}
