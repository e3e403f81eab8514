//! Bootstrap logic of a debugger launcher: find the engine's shared library,
//! prepare the platform loader calls that bring it and the extension library
//! into the process, and sequence the hand-over to the extension's entry point.
//!
//! The crate decides; its caller performs. Every function here works on plain
//! values, so the caller walks directories, calls the platform loader and
//! invokes foreign code, and reports back what happened.

pub mod bootstrap;
pub mod loader;
pub mod locator;
pub mod matcher;
pub mod platform;
pub mod report;
pub mod trace;
