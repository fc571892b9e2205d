use vstd::prelude::*;
use crate::common::{ExecutionMsg, ExecutionModel, OrderBy};
use crate::decimal::Decimal;
use crate::governance::enumerations::PollStatus;
use crate::governance::models::{VoteInfoMsg, VoteModel};
use crate::store::{models, text_of};

verus! {

/// The questions the contract answers.
#[derive(Debug, PartialEq, Eq)]
pub enum QueryMsg {
    ContractConfig {  },
    PollConfig {  },
    PollState {  },
    Poll { poll_id: u64 },
    Polls {
        filter: Option<PollStatus>,
        start_after: Option<u64>,
        limit: Option<u32>,
        order_by: Option<OrderBy>,
    },
    Voters {
        poll_id: u64,
        start_after: Option<String>,
        limit: Option<u32>,
        order_by: Option<OrderBy>,
    },
    StakingConfig {  },
    StakingState {  },
    StakerState { address: String },
    AllStaker { start_after: Option<String>, limit: Option<u32> },
    VotingPower { address: String },
    SimulateStakeAmount { amount: u128 },
    SimulateUnstakeAmount { amount: u128 },
}

#[derive(Debug, PartialEq, Eq)]
pub struct ContractConfigResponse {
    pub governance_token: String,
    pub staking_token: String,
}

/// The model of a [`ContractConfigResponse`].
pub ghost struct ContractConfigResponseModel {
    pub governance_token: Seq<char>,
    pub staking_token: Seq<char>,
}

impl View for ContractConfigResponse {
    type V = ContractConfigResponseModel;

    open spec fn view(&self) -> ContractConfigResponseModel {
        ContractConfigResponseModel {
            governance_token: self.governance_token@,
            staking_token: self.staking_token@,
        }
    }
}

#[derive(Clone, Copy, Debug, PartialEq, Eq, Structural)]
pub struct StakingStateResponse {
    pub total_unstake_locked: u128,
}

impl View for StakingStateResponse {
    type V = StakingStateResponse;

    open spec fn view(&self) -> StakingStateResponse {
        *self
    }
}

/// What a staker has at stake: the votes on polls still in progress, the
/// voting shares those votes lock, and the withdrawals that wait for their
/// unlock height.
#[derive(Debug, PartialEq, Eq)]
pub struct StakerStateResponse {
    pub votes: Vec<(u64, VoteInfoMsg)>,
    pub locked_balance: u128,
    pub unstake_locked_list: Vec<(u64, u128)>,
}

/// The model of a list of votes, each with the id of its poll.
pub open spec fn vote_models(votes: Seq<(u64, VoteInfoMsg)>) -> Seq<(u64, VoteModel)> {
    votes.map_values(|v: (u64, VoteInfoMsg)| (v.0, v.1@))
}

/// The model of a [`StakerStateResponse`].
pub ghost struct StakerStateResponseModel {
    pub votes: Seq<(u64, VoteModel)>,
    pub locked_balance: u128,
    pub unstake_locked_list: Seq<(u64, u128)>,
}

impl View for StakerStateResponse {
    type V = StakerStateResponseModel;

    open spec fn view(&self) -> StakerStateResponseModel {
        StakerStateResponseModel {
            votes: vote_models(self.votes@),
            locked_balance: self.locked_balance,
            unstake_locked_list: self.unstake_locked_list@,
        }
    }
}

impl Default for StakerStateResponse {
    fn default() -> (r: Self)
        ensures
            r@ == (StakerStateResponseModel {
                votes: Seq::empty(),
                locked_balance: 0,
                unstake_locked_list: Seq::empty(),
            }),
    {
        let r = StakerStateResponse {
            votes: Vec::new(),
            locked_balance: 0,
            unstake_locked_list: Vec::new(),
        };
        assert(r@.votes =~= Seq::empty());
        r
    }
}

#[derive(Debug, PartialEq, Eq)]
pub struct AllStakersResponse {
    pub stakers: Vec<StakerInfoResponse>,
}

impl View for AllStakersResponse {
    type V = Seq<Seq<char>>;

    /// The addresses, in the order in which they are reported.
    open spec fn view(&self) -> Seq<Seq<char>> {
        models(self.stakers@)
    }
}

#[derive(Debug, PartialEq, Eq)]
pub struct StakerInfoResponse {
    pub address: String,
}

impl View for StakerInfoResponse {
    type V = Seq<char>;

    open spec fn view(&self) -> Seq<char> {
        self.address@
    }
}

#[derive(Clone, Copy, Debug, PartialEq, Eq, Structural)]
pub struct PollConfigResponse {
    pub quorum: Decimal,
    pub threshold: Decimal,
    pub voting_period: u64,
    pub execution_delay_period: u64,
    pub proposal_deposit: u128,
}

impl View for PollConfigResponse {
    type V = PollConfigResponse;

    open spec fn view(&self) -> PollConfigResponse {
        *self
    }
}

#[derive(Clone, Copy, Debug, PartialEq, Eq, Structural)]
pub struct PollStateResponse {
    pub poll_count: u64,
    pub total_deposit: u128,
}

impl View for PollStateResponse {
    type V = PollStateResponse;

    open spec fn view(&self) -> PollStateResponse {
        *self
    }
}

/// A poll, as reported to a query.
#[derive(Debug, PartialEq, Eq)]
pub struct PollResponse {
    pub id: u64,
    pub title: String,
    pub description: String,
    pub link: Option<String>,
    pub executions: Vec<ExecutionMsg>,
    pub creator: String,
    pub deposit_amount: u128,
    pub yes_votes: u128,
    pub no_votes: u128,
    pub abstain_votes: u128,
    pub start_height: u64,
    pub end_height: u64,
    pub status: PollStatus,
    pub total_balance_at_start_poll: u128,
}

/// The model of a poll as it is reported.
pub ghost struct PollResponseModel {
    pub id: u64,
    pub title: Seq<char>,
    pub description: Seq<char>,
    pub link: Option<Seq<char>>,
    pub executions: Seq<ExecutionModel>,
    pub creator: Seq<char>,
    pub deposit_amount: u128,
    pub yes_votes: u128,
    pub no_votes: u128,
    pub abstain_votes: u128,
    pub start_height: u64,
    pub end_height: u64,
    pub status: PollStatus,
    pub total_balance_at_start_poll: u128,
}

impl View for PollResponse {
    type V = PollResponseModel;

    open spec fn view(&self) -> PollResponseModel {
        PollResponseModel {
            id: self.id,
            title: self.title@,
            description: self.description@,
            link: text_of(self.link),
            executions: models(self.executions@),
            creator: self.creator@,
            deposit_amount: self.deposit_amount,
            yes_votes: self.yes_votes,
            no_votes: self.no_votes,
            abstain_votes: self.abstain_votes,
            start_height: self.start_height,
            end_height: self.end_height,
            status: self.status,
            total_balance_at_start_poll: self.total_balance_at_start_poll,
        }
    }
}

#[derive(Debug, PartialEq, Eq)]
pub struct PollsResponse {
    pub polls: Vec<PollResponse>,
}

impl View for PollsResponse {
    type V = Seq<PollResponseModel>;

    /// The polls, in the order in which they are reported.
    open spec fn view(&self) -> Seq<PollResponseModel> {
        models(self.polls@)
    }
}

#[derive(Clone, Copy, Debug, PartialEq, Eq, Structural)]
pub struct PollCountResponse {
    pub poll_count: u64,
}

#[derive(Debug, PartialEq, Eq)]
pub struct VotersResponse {
    pub voters: Vec<VoteInfoMsg>,
}

impl View for VotersResponse {
    type V = Seq<VoteModel>;

    /// The votes, in the order in which they are reported.
    open spec fn view(&self) -> Seq<VoteModel> {
        models(self.voters@)
    }
}

#[derive(Clone, Copy, Debug, PartialEq, Eq, Structural)]
pub struct VotingPowerResponse {
    pub voting_power: Decimal,
}

impl View for VotingPowerResponse {
    type V = VotingPowerResponse;

    open spec fn view(&self) -> VotingPowerResponse {
        *self
    }
}

} // verus!
