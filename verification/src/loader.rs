//! The reply to the operating system's loader.
//!
//! The loader calls the module's entry point on several occasions and waits
//! for it to return, so the entry point does no work of its own: at most it
//! starts the worker thread.

use vstd::prelude::*;

verus! {

/// The reason code with which the loader announces that the module was
/// loaded into a process.
pub const PROCESS_ATTACH: u32 = 1;

/// What the entry point does on one call of the loader.
#[derive(Clone, Copy, Debug, PartialEq, Eq, Structural)]
pub struct LoaderReply {
    /// Whether to start the worker thread before returning.
    pub start_worker: bool,
    /// The success indicator handed back to the loader.
    pub accepted: bool,
}

/// Decides on the reply to one call of the loader: the worker is started
/// when the module is loaded into a process and on no other occasion, and
/// every call is answered with success.
pub fn on_loader_event(reason: u32) -> (reply: LoaderReply)
    ensures
        reply.start_worker == (reason == PROCESS_ATTACH),
        reply.accepted,
{
    LoaderReply { start_worker: reason == PROCESS_ATTACH, accepted: true }
}

} // verus!
