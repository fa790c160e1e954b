//! Decision core of a concurrent file cache warmer.
//!
//! Warming a file means forcing its bytes to be fetched from backing storage.
//! Everything that touches the operating system lives outside this crate; what
//! lives here is every decision around those calls, written as functions from
//! a state and an event to the next state and the next action, each with a
//! contract that says what it decides.

pub mod buffer;
pub mod config;
pub mod coordinator;
pub mod discovery;
pub mod pipeline;
pub mod warming;
