//! The staking ledger: voting shares for staked tokens, and withdrawals
//! that wait for their unlock height.
pub mod executions;
pub mod queries;
pub mod states;
