//! Clients of analysis sandboxes.

pub mod cape;
