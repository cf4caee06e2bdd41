//! Data structures and state machines of a completion-based event loop.
//!
//! The modules hold everything the loop decides: which timer is due, what an
//! operation asks of the kernel next, what a completion means, when a waiter is
//! woken. They read no clock and make no system call: the caller hands those
//! results in and carries out the actions that come back.

pub mod clock;
pub mod error;
pub mod handle;
pub mod io;
pub mod op;
pub mod outside;
pub mod poll;
pub mod process;
pub mod service;
pub mod signal;
pub mod system;
pub mod task;
pub mod time;
pub mod timer;
pub mod util;
pub mod watchdog;
