//! The protocol core of overlapped (submit now, notify later) file reads.
//!
//! The operating system completes a read on a worker thread of its own and
//! reports it through a callback; the reader is a cooperative task that is
//! suspended while the read is outstanding and resumed once per completion.
//! This crate holds the decisions of that protocol as functions from state
//! and event to next state and action. Whoever embeds it performs the
//! actions: it calls the operating system, invokes the progress callback and
//! wakes the task.

pub mod drain;
pub mod handle;
pub mod read;
pub mod record;
pub mod status;
