//! Grammar-constrained decoding sessions.
//!
//! A session binds a grammar to a fixed vocabulary and answers, step by step,
//! which tokens may come next. The grammar engine itself is `llguidance`; this
//! crate holds the rules around it: how a grammar description is read and
//! normalized, and how a session answers queries, advances and is reset
//! without ever being left half-changed.

pub mod engine;
pub mod error;
pub mod grammar;
pub mod json;
pub mod mask;
pub mod session;
pub mod stop;

pub use crate::error::{ErrorKind, SessionError};
pub use crate::session::LLGuidanceParser;
pub use crate::stop::StopReason;
