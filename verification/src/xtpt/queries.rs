use vstd::prelude::*;
use crate::errors::{checked_sub, OverflowError, OverflowOperation, StdError, StdResult};
use crate::xtpt::state::{Config, Storage};

verus! {

/// A balance, and how much of it the votes of its holder lock and leave.
#[derive(Clone, Copy, Debug, PartialEq, Eq, Structural)]
pub struct AvailableBalanceMsg {
    pub total: u128,
    pub locked: u128,
    pub available: u128,
}

/// The stored configuration of the token.
pub fn query_config(storage: &Storage) -> (r: StdResult<Config>)
    ensures
        match storage@.config {
            Some(c) => r matches Ok(v) && v@ == c,
            None => r matches Err(e) && e == (StdError::NotFound {
                kind: crate::errors::Kind::Config,
            }),
        },
{
    Config::load(storage)
}

/// What is left of a balance of `total` once `locked` is taken off. There
/// is no such balance where more is locked than there is.
pub fn query_available_balance(total: u128, locked: u128) -> (r: StdResult<AvailableBalanceMsg>)
    ensures
        r == (if total >= locked {
            Ok::<AvailableBalanceMsg, StdError>(
                AvailableBalanceMsg { total, locked, available: (total - locked) as u128 },
            )
        } else {
            Err::<AvailableBalanceMsg, StdError>(
                StdError::Overflow {
                    source: OverflowError {
                        operation: OverflowOperation::Sub,
                        operand1: total,
                        operand2: locked,
                    },
                },
            )
        }),
{
    match checked_sub(total, locked) {
        Ok(available) => Ok(AvailableBalanceMsg { total, locked, available }),
        Err(source) => Err(StdError::Overflow { source }),
    }
}

} // verus!
