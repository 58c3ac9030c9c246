//! One interface for reading and writing a value, whether the value is a plain
//! one, reached through ordinary borrows, or sits behind a reader-writer lock.
//!
//! A resource names the type of the value it guards ([`GuardedTarget`]) and
//! grants access through up to four capabilities: [`ReadApi`], [`WriteApi`],
//! [`UpgradableReadApi`] and [`DowngradableWriteApi`]. Each hands out a guard;
//! the guards are described by [`ReadGuard`], [`WriteGuard`],
//! [`UpgradableReadGuard`] and [`DowngradableWriteGuard`]. [`RwApi`] is the
//! combination of all four capabilities.
//!
//! The resources that come with the crate are the adapters for plain values
//! ([`ReadApiWrapper`], [`RwApiWrapper`], [`RwApiWrapperOwned`]) and the
//! reader-writer lock of `parking_lot`. Code written against the capabilities
//! runs on either: on a plain value it compiles down to borrows, on a lock it
//! locks.

pub mod api;
pub mod auto_impl;
pub mod guard;
pub mod impls;
pub mod wrappers;

pub use api::DowngradableWriteApi;
pub use api::GuardedTarget;
pub use api::ReadApi;
pub use api::RwApi;
pub use api::UpgradableReadApi;
pub use api::WriteApi;
pub use auto_impl::AutoReadApi;
pub use auto_impl::AutoWriteApi;
pub use guard::DowngradableWriteGuard;
pub use guard::ReadGuard;
pub use guard::UpgradableReadGuard;
pub use guard::WriteGuard;
pub use impls::lock::held::LockReadGuard;
pub use impls::lock::held::LockUpgradableReadGuard;
pub use impls::lock::held::LockWriteGuard;
pub use wrappers::ReadApiWrapper;
pub use wrappers::RwApiWrapper;
pub use wrappers::RwApiWrapperOwned;
