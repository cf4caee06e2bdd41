//! Adapters.

pub mod async_wrap;
