use vstd::prelude::*;
use crate::common::ExecutionMsg;
use crate::decimal::Decimal;
use crate::governance::enumerations::VoteOption;

verus! {

/// What the contract is set up with.
#[derive(Debug, PartialEq, Eq)]
pub struct InstantiateMsg {
    pub contract_config: ContractConfigInitMsg,
    pub poll_config: PollConfigInitMsg,
    pub staking_config: StakingConfigInitMsg,
}

/// The two tokens the contract works with.
#[derive(Debug, PartialEq, Eq)]
pub struct ContractConfigInitMsg {
    /// The token that is staked.
    pub staking_token: String,
    /// The token that stands for voting shares.
    pub governance_token: String,
}

/// The rules of polls.
#[derive(Clone, Copy, Debug, PartialEq, Eq, Structural)]
pub struct PollConfigInitMsg {
    pub quorum: Decimal,
    pub threshold: Decimal,
    pub voting_period: u64,
    pub execution_delay_period: u64,
    pub proposal_deposit: u128,
}

/// The rules of staking.
#[derive(Debug, PartialEq, Eq)]
pub struct StakingConfigInitMsg {
    pub distributor: Option<String>,
    pub unstake_lock_period: u64,
}

/// A transfer of tokens to the contract, with what the sender asks for.
#[derive(Debug, PartialEq, Eq)]
pub struct Cw20ReceiveMsg {
    pub sender: String,
    pub amount: u128,
    pub msg: Cw20HookMsg,
}

/// The commands of the contract.
#[derive(Debug, PartialEq, Eq)]
pub enum ExecuteMsg {
    Receive(Cw20ReceiveMsg),
    UpdateStakingConfig { distributor: Option<String>, unstake_lock_period: Option<u64> },
    UpdatePollConfig {
        quorum: Option<Decimal>,
        threshold: Option<Decimal>,
        voting_period: Option<u64>,
        execution_delay_period: Option<u64>,
        proposal_deposit: Option<u128>,
    },
    StakeGovernanceTokenHook { staker: String, amount: u128 },
    UnstakeGovernanceTokenHook { staker: String, amount: u128 },
    ClaimUnstakedToken {  },
    CastVote { poll_id: u64, vote: VoteOption, amount: u128 },
    EndPoll { poll_id: u64 },
    ExecutePoll { poll_id: u64 },
    RunExecution { executions: Vec<ExecutionMsg> },
}

/// What a transfer of tokens to the contract asks for.
#[derive(Debug, PartialEq, Eq)]
pub enum Cw20HookMsg {
    StakeToken {  },
    CreatePoll {
        title: String,
        description: String,
        link: Option<String>,
        executions: Vec<ExecutionMsg>,
    },
    UnstakeGovernanceToken {  },
}

/// The contract takes no arguments for a migration.
#[derive(Clone, Copy, Debug, PartialEq, Eq, Structural)]
pub struct MigrateMsg {  }

} // verus!
