//! The messages of the liquidity-provider staking contract.
pub mod execute_msgs;
