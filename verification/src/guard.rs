//! Guards: the handles through which a held resource is read and written, and
//! the transitions between them.
//!
//! Guards differ in what they allow. A read guard shows the value, a write
//! guard also lets it be replaced. An upgradable read guard is a read guard
//! that can turn into a write guard, and a downgradable write guard is a write
//! guard that can turn back into a read guard. A transition consumes the guard
//! it starts from, so the two never exist side by side, and it keeps the
//! value: what the new guard shows is what the old one showed.
//!
//! Plain references are guards: `&T` is a read guard, and `&mut T` is a guard
//! of every sort, for which each transition is the identity.

use vstd::prelude::*;
use core::ops::Deref;
use core::ops::DerefMut;

verus! {

/// A guard that grants shared access to a value of type `Target`.
pub trait ReadGuard: Deref<Target: Sized> {
    /// The value that this guard shows.
    spec fn target(&self) -> Self::Target;

    /// Borrows the guarded value.
    fn get(&self) -> (value: &Self::Target)
        ensures
            *value == self.target(),
    ;
}

/// A guard that grants exclusive access to a value of type `Target`.
pub trait WriteGuard: ReadGuard + DerefMut {
    /// Borrows the guarded value mutably. What the borrow holds when it
    /// ends is what the guard shows from then on.
    fn get_mut(&mut self) -> (value: &mut Self::Target)
        ensures
            *value == (*old(self)).target(),
            (*final(self)).target() == *final(value),
    ;
}

/// A read guard that can be turned into a write guard without giving the
/// resource up in between.
pub trait UpgradableReadGuard: ReadGuard {
    /// What [`Self::upgrade`] returns.
    type UpgradeResult: WriteGuard<Target = Self::Target>;

    /// What [`Self::upgrade_to_downgradable`] returns: a write guard whose
    /// [`DowngradableWriteGuard::downgrade_to_upgradable`] leads back to
    /// `Self`.
    type UpgradeToDowngradableResult: DowngradableWriteGuard<
        DowngradeToUpgradableResult = Self,
        Target = Self::Target,
    >;

    /// Turns this guard into a write guard that cannot be downgraded again.
    fn upgrade(self) -> (upgraded: Self::UpgradeResult)
        ensures
            upgraded.target() == self.target(),
    ;

    /// Turns this guard into a write guard that can be downgraded again.
    fn upgrade_to_downgradable(self) -> (upgraded: Self::UpgradeToDowngradableResult)
        ensures
            upgraded.target() == self.target(),
    ;
}

/// A write guard that can be turned into a read guard without giving the
/// resource up in between.
pub trait DowngradableWriteGuard: WriteGuard {
    /// What [`Self::downgrade`] returns.
    type DowngradeResult: ReadGuard<Target = Self::Target>;

    /// What [`Self::downgrade_to_upgradable`] returns.
    type DowngradeToUpgradableResult: ReadGuard<Target = Self::Target>;

    /// Turns this guard into a read guard that cannot be upgraded again.
    fn downgrade(self) -> (downgraded: Self::DowngradeResult)
        ensures
            downgraded.target() == self.target(),
    ;

    /// Turns this guard into an upgradable read guard.
    fn downgrade_to_upgradable(self) -> (downgraded: Self::DowngradeToUpgradableResult)
        ensures
            downgraded.target() == self.target(),
    ;
}

impl<'a, T> ReadGuard for &'a T {
    open spec fn target(&self) -> T {
        **self
    }

    #[inline(always)]
    fn get(&self) -> (value: &T)
        ensures
            *value == **self,
    {
        &**self
    }
}

impl<'a, T> ReadGuard for &'a mut T {
    open spec fn target(&self) -> T {
        **self
    }

    #[inline(always)]
    fn get(&self) -> (value: &T) {
        &**self
    }
}

impl<'a, T> WriteGuard for &'a mut T {
    #[inline(always)]
    fn get_mut(&mut self) -> (value: &mut T)
        ensures
            *final(*final(self)) == *final(*old(self)),
    {
        &mut **self
    }
}

impl<'a, T> UpgradableReadGuard for &'a mut T {
    type UpgradeResult = Self;

    type UpgradeToDowngradableResult = Self;

    #[inline(always)]
    fn upgrade(self) -> (upgraded: Self)
        ensures
            *upgraded == *old(self),
            *final(upgraded) == *final(self),
    {
        self
    }

    #[inline(always)]
    fn upgrade_to_downgradable(self) -> (upgraded: Self)
        ensures
            *upgraded == *old(self),
            *final(upgraded) == *final(self),
    {
        self
    }
}

impl<'a, T> DowngradableWriteGuard for &'a mut T {
    type DowngradeResult = Self;

    type DowngradeToUpgradableResult = Self;

    #[inline(always)]
    fn downgrade(self) -> (downgraded: Self)
        ensures
            *downgraded == *old(self),
            *final(downgraded) == *final(self),
    {
        self
    }

    #[inline(always)]
    fn downgrade_to_upgradable(self) -> (downgraded: Self)
        ensures
            *downgraded == *old(self),
            *final(downgraded) == *final(self),
    {
        self
    }
}

/// Upgrading a guard and downgrading the result again gives a guard that
/// shows what the first one showed.
pub proof fn lemma_upgrade_downgrade_round_trip<G: UpgradableReadGuard>(
    guard: G,
    upgraded: G::UpgradeToDowngradableResult,
    back: G,
)
    requires
        call_ensures(G::upgrade_to_downgradable, (guard,), upgraded),
        call_ensures(
            <G::UpgradeToDowngradableResult as DowngradableWriteGuard>::downgrade_to_upgradable,
            (upgraded,),
            back,
        ),
    ensures
        back.target() == guard.target(),
{
}

/// Two guards that show the same value, of whatever types they are, keep
/// doing so when both are upgraded, and when both are then downgraded.
pub proof fn lemma_same_view_after_transitions<
    G: UpgradableReadGuard,
    H: UpgradableReadGuard<Target = G::Target>,
>(
    guards: (G, H),
    upgraded: (G::UpgradeToDowngradableResult, H::UpgradeToDowngradableResult),
    downgraded: (
        <G::UpgradeToDowngradableResult as DowngradableWriteGuard>::DowngradeResult,
        <H::UpgradeToDowngradableResult as DowngradableWriteGuard>::DowngradeResult,
    ),
)
    requires
        guards.0.target() == guards.1.target(),
        call_ensures(G::upgrade_to_downgradable, (guards.0,), upgraded.0),
        call_ensures(H::upgrade_to_downgradable, (guards.1,), upgraded.1),
        call_ensures(
            <G::UpgradeToDowngradableResult as DowngradableWriteGuard>::downgrade,
            (upgraded.0,),
            downgraded.0,
        ),
        call_ensures(
            <H::UpgradeToDowngradableResult as DowngradableWriteGuard>::downgrade,
            (upgraded.1,),
            downgraded.1,
        ),
    ensures
        upgraded.0.target() == upgraded.1.target(),
        downgraded.0.target() == downgraded.1.target(),
{
}

} // verus!
