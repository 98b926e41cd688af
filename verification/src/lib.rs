//! Self-update engine for a single-binary tool: decide whether a newer release
//! exists, stage its executable, and swap it for the running one while keeping
//! the previous build as a rollback copy.
//!
//! The crate holds the decisions and leaves every effect to its caller: the
//! caller performs the requested action and reports what happened.

pub mod text;
pub mod archive;
pub mod error;
pub mod json;
pub mod laws;
pub mod process;
pub mod protocol;
pub mod release;
pub mod swap;
pub mod update;
pub mod utility;
