//! Tools that look at the state of the system.

pub mod handles;
pub mod persistence;
