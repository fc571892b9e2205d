//! Governance for a staking token: a staking ledger that mints voting
//! shares, a poll store, and the poll state machine that tallies votes and
//! drives the execution of passed proposals.
use vstd::prelude::*;

pub mod common;
pub mod community;
pub mod decimal;
pub mod entrypoints;
pub mod errors;
pub mod governance;
pub mod invariants;
pub mod laws;
pub mod lp_staking;
pub mod poll;
pub mod staking;
pub mod storage;
pub mod store;
pub mod utils;
pub mod xtpt;

verus! {

/// A page of items returned by a list query.
#[derive(Clone, Debug, PartialEq)]
pub struct ListResponse<T> {
    pub items: Vec<T>,
}

impl<T> ListResponse<T> {
    /// Wraps `items` as a page.
    pub fn new(items: Vec<T>) -> (r: ListResponse<T>)
        ensures
            r.items == items,
    {
        ListResponse { items }
    }
}

} // verus!
