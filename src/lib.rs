//! A tag-driven dispatch and authorization gateway: operation names and the
//! table behind them, the framing of responses, the guards that commands
//! share, identity resolution, and the one-shot life of a request.
//!
//! Storage reads and the awaiting of commands happen outside; their outcomes
//! come in as plain values, and every decision taken on them is verified here.

pub mod dispatch;
pub mod envelope;
pub mod error;
pub mod guards;
pub mod identity;
pub mod operation;
