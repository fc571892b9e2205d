use vstd::prelude::*;

verus! {

/// What a transfer of liquidity-provider tokens to the staking contract
/// asks for.
#[derive(Clone, Copy, Debug, PartialEq, Eq, Structural)]
pub enum Cw20HookMsg {
    Bond {  },
}

/// The staking contract takes no arguments for a migration.
#[derive(Clone, Copy, Debug, PartialEq, Eq, Structural)]
pub struct MigrateMsg {  }

} // verus!
