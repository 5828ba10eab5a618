//! Tools that work on sessions and processes.

pub mod frida_session;
pub mod process;
