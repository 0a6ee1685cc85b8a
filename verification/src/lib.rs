//! Decision logic of a webhook-driven deployment agent.
//!
//! The crate decides *what* to run and *what follows from each result*; it
//! never spawns a process itself. A caller feeds it the result of every
//! external step and carries out the invocation it hands back.

pub mod agent;
pub mod config;
pub mod decimal;
pub mod error;
pub mod idempotency;
pub mod invocation;
pub mod laws;
pub mod outcome;
pub mod pipeline;
pub mod search;
pub mod text;

pub use crate::error::Error;
pub use crate::search::is_sub;
