//! Custody and reward rules of a staking program for unique digital assets.
//!
//! A holder stakes an asset, which freezes it; unstakes it once the freeze
//! period has passed, which earns points; and claims the points as reward
//! tokens. Every transition is a function from the records it is shown to the
//! records it leaves and the request it hands to the host, or to one error
//! that leaves the records as they were.

pub mod authority;
pub mod errors;
pub mod identity;
pub mod instructions;
pub mod laws;
pub mod registry;
pub mod rewards;
pub mod state;
pub mod token;
