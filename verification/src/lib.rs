//! The single-threaded core of an event-loop binding.
//!
//! The polling itself belongs to a native loop that the embedding code drives.
//! This crate holds everything around those calls: it encodes and bounds the
//! arguments that go in, keeps the table of registered sources, and decides,
//! for each readiness report that comes back, which callback is owed and with
//! what argument.

pub mod context;
pub mod core_;
pub mod data;
pub mod error;
pub mod flags;
pub mod laws;
pub mod list;
pub mod loop_;
pub mod metadata;
pub mod proxy;
pub mod result;
pub mod source;
pub mod state;
pub mod time;
