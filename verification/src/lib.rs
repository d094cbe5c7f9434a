//! Supervision core for a spot-trading session against an exchange.
//!
//! The crate models the lifecycle logic of a trading process: a public
//! market-data feed, an authenticated account stream kept alive through a
//! renewable listen key, a trade engine that tracks orders and balances, and
//! a supervisor that owns all three and decides how the process reacts when
//! any of them stops. Every decision is a pure transition on plain values;
//! the surrounding process performs the network calls and hands the results
//! back as events.

pub mod config;
pub mod errors;
pub mod session;
pub mod engine;
pub mod supervisor;
