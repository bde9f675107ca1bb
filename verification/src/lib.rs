//! Risk-gated trade execution control plane.
//!
//! The crate models the admission-control path of an automated trading
//! system: a circuit breaker, a daily-loss ledger, a bounded position
//! registry, per-trade and per-campaign lifecycle state machines, a
//! pending/completed order ledger, and a fee-capped retrying submission
//! engine.  Monetary amounts are carried in lamports (10^-9 SOL) and
//! fractional scores in parts per million, so that every comparison the
//! admission logic makes is exact integer arithmetic.
//!
//! Time-dependent rules are verified against explicit clock readings
//! (`*_at` methods); the plain methods sample the real clock and state
//! what holds of every possible reading.

pub mod clock;
pub mod ident;
pub mod errors;
pub mod types;
pub mod config;

pub mod circuit_breaker;
pub mod admission;
pub mod daily_limits;
pub mod guard;
pub mod concmap;
pub mod position_manager;

pub mod phase;
pub mod tracker;
pub mod manager;

pub mod transaction;
pub mod fee;
pub mod retry;
pub mod shield;
pub mod tpu;
pub mod executor;

pub mod filter;
pub mod filters;
pub mod scorer;
pub mod tpsl;

pub mod analyzer;
pub mod cache;
pub mod parser;
pub mod pipeline;
pub mod reconnect;
pub mod alerts;
