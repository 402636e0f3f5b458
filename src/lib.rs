//! Lifecycle discipline for a handle-based native inference engine.
//!
//! The native library is reached through raw handles (plain addresses, where
//! zero is the null handle). This crate holds no handle it cannot account for:
//! every construct call has exactly one matching destroy call, every buffer is
//! read before it is released, and every null handle becomes a typed error.
//! The decisions are made here as verified step functions; the host program
//! performs each requested native call and reports what the call returned.

pub mod backend;
pub mod error;
pub mod native_text;
pub mod engine;
pub mod session;
pub mod laws;

pub use backend::Backend;
pub use error::{Error, ErrorKind};
pub use engine::{Engine, EngineLoad};
pub use session::{Generation, MetricsFetch, Session, TurnCounts};
