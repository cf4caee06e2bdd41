//! Signals of the operating system, and those who wait for them.

pub mod listeners;
pub mod unix;
pub mod windows;
