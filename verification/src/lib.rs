//! Transfer task engine: durable transfer tasks, the storage session and
//! token lifecycle that gates every upload, and the resumable chunked
//! upload driver that moves a task's bytes.
//!
//! The engine itself is pure state and decisions. Network exchanges,
//! persistence to disk and the chat transport run outside it and hand it
//! plain values: token responses, chunk outcomes, header strings.

pub mod cancel;
pub mod client;
pub mod driver;
pub mod error;
pub mod formatter;
pub mod session;
pub mod store;
pub mod strutil;
pub mod tasks;
pub mod upload;
