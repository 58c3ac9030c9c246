//! The capabilities of the resources that this crate provides.

pub mod lock;
pub mod wrappers;
