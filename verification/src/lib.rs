//! Safe callback-dispatch core for a native game-platform SDK binding.
//!
//! The native SDK completes asynchronous operations by invoking trampolines
//! on a driver thread it controls; each trampoline projects a raw status code
//! into a structured result and pushes it onto a single-capacity channel.
//! This crate owns the bookkeeping for those pending operations: registering
//! them, draining the ready ones exactly once in insertion order, and
//! projecting native status codes into a structured error taxonomy.

pub mod callbacks;
pub mod channel;
pub mod discord;
pub mod error;
pub mod event;
pub mod file_stat;
