//! Adapters that make a plain value a resource.

use vstd::prelude::*;

verus! {

/// A resource for reading only, which wraps a shared reference. The guarded
/// value is the reference itself.
#[derive(Debug, Clone, Copy, Ord, PartialOrd, Eq, PartialEq, Hash)]
pub struct ReadApiWrapper<'a, T: ?Sized>(
    /// The wrapped reference.
    pub &'a T,
);

/// A resource for reading and writing, which wraps a mutable reference. The
/// guarded value is the reference itself.
#[derive(Debug, Ord, PartialOrd, Eq, PartialEq, Hash)]
pub struct RwApiWrapper<'a, T: ?Sized>(
    /// The wrapped reference.
    pub &'a mut T,
);

/// A resource for reading and writing, which owns the guarded value.
#[derive(Debug, Clone, Copy, Ord, PartialOrd, Eq, PartialEq, Hash)]
pub struct RwApiWrapperOwned<T>(
    /// The wrapped value.
    pub T,
);

impl<T: Default> Default for RwApiWrapperOwned<T> {
    fn default() -> (wrapper: Self)
        ensures
            call_ensures(T::default, (), wrapper.0),
    {
        RwApiWrapperOwned(T::default())
    }
}

} // verus!
