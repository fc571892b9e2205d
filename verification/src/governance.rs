//! The messages, answers and enumerations of the governance contract.
pub mod enumerations;
pub mod execute_msgs;
pub mod models;
pub mod query_msgs;
