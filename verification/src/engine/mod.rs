//! The session registry and the components it is built from.

pub mod backend;
pub mod error;
pub mod frida_handler;
pub mod laws;
pub mod manager;
pub mod registry;
pub mod session;
pub mod session_id;
