//! The three transitions: stake, unstake and claim.

pub mod claim;
pub mod stake;
pub mod unstake;
