//! Decision logic for a native module that attaches to a Java virtual machine
//! already running in its host process, reaches one object of the hosted
//! application by reflection and keeps invoking a method on it.
//!
//! The operating-system side (module entry point, console, message box,
//! sleeping, process exit) lives outside this crate. It performs the actions
//! that [`sequence`] asks for and reports back what happened.

pub mod addressing;
pub mod bridge;
pub mod diagnostics;
pub mod failure;
mod jvm;
pub mod laws;
pub mod loader;
pub mod locate;
pub mod sequence;
