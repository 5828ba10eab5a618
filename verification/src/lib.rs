//! Instrumentation session manager: a registry of live dynamic-instrumentation
//! sessions against target processes, with script injection, resumption and a
//! per-session inbox of messages emitted by injected code.
//!
//! The engine that spawns and attaches to processes is consumed through the
//! trait [`engine::backend::Engine`], and nothing is assumed about what it
//! answers. Every call of it goes through [`engine::backend::Traced`], which
//! keeps a record of the calls and answers; the contracts of the registry
//! say, for every way in which the engine may answer, what the registry
//! holds afterwards and what the engine was asked.
//!
//! Around the registry stand the tools through which callers reach it, with
//! the schemas of their parameters, and the rules of two helpers of the
//! server: the reader of handle listings and the client of the CAPE sandbox.

pub mod decimal;
pub mod engine;
pub mod sandbox;
pub mod tools;
