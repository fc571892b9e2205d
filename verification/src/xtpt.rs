//! The token of voting shares: who runs it, the history of its supply,
//! and the lock that votes put on a balance.
pub mod executions;
pub mod queries;
pub mod state;
