//! Accounting core of a single-asset lending pool.
//!
//! The pool keeps per-token reserves, a registry of debt positions and a
//! staging area for repayments. Every operation either commits a complete new
//! state or fails and leaves the state as it was.

pub mod fixed_point;
pub mod bytes;
pub mod error;
pub mod types;
pub mod byte_map;
pub mod interest;
pub mod health;
pub mod ledger;
pub mod registry;
pub mod state;
pub mod liquidity;
pub mod laws;
