//! The command surface: the tools through which callers reach the session
//! manager, and the schemas that describe their parameters.

pub mod common;
pub mod failure;
pub mod json;
pub mod schema;
pub mod system;

pub use schema::{ParamDef, ToolSchema};
