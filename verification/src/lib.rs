//! A reputation-accounting ledger core: per-identity records ("souls") with a
//! cumulative signed karma score and a daily energy budget, mutated by a pure
//! state-transition engine (`create`, `good`, `bad`, `sunrise`).
//!
//! Persistence, authentication and the clock are the caller's business: every
//! transition takes the current time as an argument and returns or updates
//! plain record values.

pub mod engine;
pub mod laws;
pub mod soul;
