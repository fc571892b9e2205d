//! Polls: their records, the rules of voting and tallying, and the
//! execution of passed proposals.
pub mod executions;
pub mod queries;
pub mod states;
