//! Capabilities: what a resource offers to those who want to read or write
//! the value it guards.

use vstd::prelude::*;
use crate::guard::DowngradableWriteGuard;
use crate::guard::ReadGuard;
use crate::guard::UpgradableReadGuard;
use crate::guard::WriteGuard;

verus! {

/// A resource that guards a value of one type, `Target`.
pub trait GuardedTarget {
    /// The type of the guarded value, which every guard of this resource
    /// dereferences to.
    type Target;

    /// Whether this resource may be holding `value` right now.
    ///
    /// A plain value holds exactly itself. A resource that is shared with
    /// other threads may hold whatever they have stored in it. A resource
    /// that says nothing here may hold any value.
    open spec fn holds(&self, value: Self::Target) -> bool {
        true
    }
}

/// The capability to read the guarded value.
pub trait ReadApi<'a>: GuardedTarget {
    /// The guard that [`Self::read`] returns.
    type ReadGuard: ReadGuard<Target = Self::Target>;

    /// Whether `guard` is a read guard of this very resource. A resource
    /// that says nothing here takes every guard for one of its own.
    open spec fn owns_read_guard(&self, guard: &Self::ReadGuard) -> bool {
        true
    }

    /// Acquires shared access. The guard is one of this resource and shows a
    /// value that the resource holds.
    fn read(&'a self) -> (guard: Self::ReadGuard)
        ensures
            self.owns_read_guard(&guard),
            self.holds(guard.target()),
    ;
}

/// The capability to replace the guarded value.
pub trait WriteApi<'a>: GuardedTarget {
    /// The guard that [`Self::write`] returns.
    type WriteGuard: WriteGuard<Target = Self::Target>;

    /// Whether `guard` is a write guard of this very resource. A resource
    /// that says nothing here takes every guard for one of its own.
    open spec fn owns_write_guard(&self, guard: &Self::WriteGuard) -> bool {
        true
    }

    /// Acquires exclusive access. The guard is one of this resource and
    /// starts out showing a value that the resource holds.
    fn write(&'a mut self) -> (guard: Self::WriteGuard)
        ensures
            (*old(self)).owns_write_guard(&guard),
            (*old(self)).holds(guard.target()),
    ;
}

/// The capability to read the guarded value with the option of writing to it
/// later under the same guard.
pub trait UpgradableReadApi<'a>: GuardedTarget {
    /// The guard that [`Self::upgradable_read`] returns.
    type UpgradableReadGuard: UpgradableReadGuard<Target = Self::Target>;

    /// Whether `guard` is an upgradable read guard of this very resource. A
    /// resource that says nothing here takes every guard for one of its own.
    open spec fn owns_upgradable_read_guard(&self, guard: &Self::UpgradableReadGuard) -> bool {
        true
    }

    /// Acquires shared access that can be upgraded. The guard is one of this
    /// resource and shows a value that the resource holds.
    fn upgradable_read(&'a mut self) -> (guard: Self::UpgradableReadGuard)
        ensures
            (*old(self)).owns_upgradable_read_guard(&guard),
            (*old(self)).holds(guard.target()),
    ;
}

/// The capability to replace the guarded value with the option of keeping
/// shared access afterwards under the same guard.
pub trait DowngradableWriteApi<'a>: GuardedTarget {
    /// The guard that [`Self::downgradable_write`] returns. What it is
    /// downgraded to can be upgraded again, to a guard of this type.
    type DowngradableWriteGuard: DowngradableWriteGuard<
        Target = Self::Target,
        DowngradeToUpgradableResult: UpgradableReadGuard<
            Target = Self::Target,
            UpgradeToDowngradableResult = Self::DowngradableWriteGuard,
        >,
    >;

    /// Whether `guard` is a downgradable write guard of this very resource.
    /// A resource that says nothing here takes every guard for one of its
    /// own.
    open spec fn owns_downgradable_write_guard(
        &self,
        guard: &Self::DowngradableWriteGuard,
    ) -> bool {
        true
    }

    /// Acquires exclusive access that can be downgraded. The guard is one of
    /// this resource and starts out showing a value that the resource holds.
    fn downgradable_write(&'a mut self) -> (guard: Self::DowngradableWriteGuard)
        ensures
            (*old(self)).owns_downgradable_write_guard(&guard),
            (*old(self)).holds(guard.target()),
    ;
}

/// All four capabilities together. Every resource that has the four has this
/// one too.
pub trait RwApi<'a>:
    ReadApi<'a> + WriteApi<'a> + UpgradableReadApi<'a> + DowngradableWriteApi<'a> {
}

impl<'a, R: ?Sized> RwApi<'a> for R where
    R: ReadApi<'a> + WriteApi<'a> + UpgradableReadApi<'a> + DowngradableWriteApi<'a>,
{
}

/// Whether `resource` holds `value` and nothing else.
pub open spec fn holds_only<R: GuardedTarget>(resource: &R, value: R::Target) -> bool {
    forall|other: R::Target| resource.holds(other) ==> other == value
}

/// Two resources that hold the same single value show it alike, of whatever
/// types they are: guards acquired from the one and from the other through
/// the same capability start out showing the same value.
pub proof fn lemma_same_value_same_view<'a, A: RwApi<'a>, B: RwApi<'a, Target = A::Target>>(
    a: &'a mut A,
    b: &'a mut B,
    value: A::Target,
    read: (<A as ReadApi<'a>>::ReadGuard, <B as ReadApi<'a>>::ReadGuard),
    write: (<A as WriteApi<'a>>::WriteGuard, <B as WriteApi<'a>>::WriteGuard),
    upgradable: (
        <A as UpgradableReadApi<'a>>::UpgradableReadGuard,
        <B as UpgradableReadApi<'a>>::UpgradableReadGuard,
    ),
    downgradable: (
        <A as DowngradableWriteApi<'a>>::DowngradableWriteGuard,
        <B as DowngradableWriteApi<'a>>::DowngradableWriteGuard,
    ),
)
    requires
        holds_only(&*a, value),
        holds_only(&*b, value),
    ensures
        call_ensures(<A as ReadApi<'a>>::read, (&*old(a),), read.0) && call_ensures(
            <B as ReadApi<'a>>::read,
            (&*old(b),),
            read.1,
        ) ==> read.0.target() == read.1.target(),
        call_ensures(<A as WriteApi<'a>>::write, (old(a),), write.0) && call_ensures(
            <B as WriteApi<'a>>::write,
            (old(b),),
            write.1,
        ) ==> write.0.target() == write.1.target(),
        call_ensures(<A as UpgradableReadApi<'a>>::upgradable_read, (old(a),), upgradable.0)
            && call_ensures(<B as UpgradableReadApi<'a>>::upgradable_read, (old(b),), upgradable.1)
            ==> upgradable.0.target() == upgradable.1.target(),
        call_ensures(
            <A as DowngradableWriteApi<'a>>::downgradable_write,
            (old(a),),
            downgradable.0,
        ) && call_ensures(
            <B as DowngradableWriteApi<'a>>::downgradable_write,
            (old(b),),
            downgradable.1,
        ) ==> downgradable.0.target() == downgradable.1.target(),
{
}

} // verus!
