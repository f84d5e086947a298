//! Bonding-curve automated market maker for token launches.
//!
//! A single token mint is sold against a base currency (lamports) along a
//! constant-product curve until the lamport reserve reaches a configured
//! threshold; the curve is then completed and its liquidity can be withdrawn
//! or migrated to an external pool. This crate holds the curve's state
//! machine and all of its settlement arithmetic; account custody and
//! transfer execution belong to the host and stay outside.

pub mod curve;
pub mod errors;
pub mod events;
pub mod math;
pub mod state;
