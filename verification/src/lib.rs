//! Retry a command until it exits successfully or a retry budget runs out.
//!
//! The crate is organised around a verified state machine: the engine in
//! [`app`] alternates between an executing phase and a waiting phase, counts
//! failed attempts against an optional limit, and yields a terminal verdict.
//! The pieces that touch the operating system (spawning the command, the
//! timed delay) live outside the engine and hand it plain values: the engine
//! consumes an [`exec::ExecutionResult`] per attempt and decides the next
//! transition.

pub mod app;
pub mod config;
pub mod exec;
