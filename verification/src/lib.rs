//! Core logic of a single-shot launcher: it supervises exactly one child
//! server process and decides when the host may reveal its main surface.
//!
//! The host application spawns the server, records its handle in a
//! [`supervisor::HandleSlot`], feeds readiness-check outcomes to a
//! [`poller::Poller`] until one succeeds, and reveals the window; a
//! window-close event consumes the recorded handle exactly once and asks the
//! host to kill the child. All process, network and GUI work is the host's;
//! every decision in between is made here.

pub mod greeting;
pub mod lifecycle;
pub mod poller;
pub mod supervisor;
