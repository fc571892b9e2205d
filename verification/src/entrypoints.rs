//! The doors of the contract: setting it up, its commands, the outcomes
//! that come back to it, and its queries.
use vstd::prelude::*;
use crate::common::executions as config_executions;
use crate::common::queries::{contract_config_spec, get_contract_config};
use crate::common::{
    answered,
    committed,
    unchanged,
    ContractResult,
    Env,
    Ledger,
    MessageInfo,
    Reply,
    Response,
    ResponseModel,
};
use crate::errors::{missing, ContractError, ErrorModel, Kind, StdError};
use crate::governance::execute_msgs::{
    Cw20HookMsg,
    Cw20ReceiveMsg,
    ExecuteMsg,
    InstantiateMsg,
    MigrateMsg,
};
use crate::governance::models::VoteModel;
use crate::governance::query_msgs::{
    AllStakersResponse,
    ContractConfigResponse,
    ContractConfigResponseModel,
    PollConfigResponse,
    PollResponse,
    PollResponseModel,
    PollStateResponse,
    PollsResponse,
    QueryMsg,
    StakerStateResponse,
    StakerStateResponseModel,
    StakingStateResponse,
    VotersResponse,
    VotingPowerResponse,
};
use crate::poll::executions as poll_executions;
use crate::poll::queries::{
    get_poll,
    get_poll_config,
    get_poll_state,
    poll_config_spec,
    poll_spec,
    poll_state_spec,
    polls_spec,
    query_polls,
    query_voters,
    voters_spec,
};
use crate::staking::executions as staking_executions;
use crate::staking::queries::{
    get_all_stakers,
    get_simulate_stake_amount,
    get_simulate_unstake_amount,
    get_staker_state,
    get_staking_config,
    get_staking_state,
    get_voting_power,
    stake_preview,
    staker_addresses,
    staker_response,
    staking_config_spec,
    staking_state_spec,
    unstake_amount,
    voting_power_spec,
};
use crate::staking::states::{StakingConfig, StakingConfigModel};
use crate::storage::{Storage, StorageModel};
use crate::store::{models, text_of};

verus! {

/// Setting up the contract: the rules of polls must be in order; then
/// the contract remembers who it is, and the staking ledger and the polls
/// start empty.
pub open spec fn instantiate_spec(s: StorageModel, contract_address: Seq<char>, msg: InstantiateMsg) -> Result<
    (StorageModel, ResponseModel),
    ErrorModel,
> {
    match poll_executions::instantiate_spec(s, msg.poll_config) {
        Err(e) => Err(e),
        Ok((s1, _)) => {
            let s2 = config_executions::instantiate_spec(
                s1,
                contract_address,
                msg.contract_config,
            )->Ok_0.0;
            let s3 = staking_executions::instantiate_spec(s2, msg.staking_config)->Ok_0.0;
            Ok((s3, ResponseModel::empty()))
        },
    }
}

/// Sets up the contract.
pub fn instantiate(storage: &mut Storage, env: Env, info: MessageInfo, msg: InstantiateMsg) -> (r:
    ContractResult<Response>)
    requires
        old(storage).wf(),
    ensures
        final(storage).wf(),
        committed(
            old(storage)@,
            final(storage)@,
            r,
            instantiate_spec(old(storage)@, env.contract.address@, msg),
        ),
{
    if let Err(e) = poll_executions::instantiate(
        storage,
        env.duplicate(),
        info.duplicate(),
        msg.poll_config,
    ) {
        return Err(e);
    }
    let _done = config_executions::instantiate(
        storage,
        env.duplicate(),
        info.duplicate(),
        msg.contract_config,
    );
    let _done = staking_executions::instantiate(storage, env, info, msg.staking_config);
    Ok(Response::new())
}

/// What a transfer of tokens to the contract leads to: a stake, a
/// proposal, or voting shares that are given back. Of `ledger`, a
/// proposal looks at the number of voting shares.
pub open spec fn receive_cw20_spec(
    s: StorageModel,
    contract_address: Seq<char>,
    height: u64,
    sender: Seq<char>,
    cw20_msg: Cw20ReceiveMsg,
    ledger: Ledger,
) -> Result<(StorageModel, ResponseModel), ErrorModel> {
    match cw20_msg.msg {
        Cw20HookMsg::StakeToken {  } => unchanged(
            s,
            staking_executions::stake_token_spec(
                s,
                contract_address,
                sender,
                cw20_msg.sender@,
                cw20_msg.amount,
            ),
        ),
        Cw20HookMsg::CreatePoll { title, description, link, executions } => {
            poll_executions::create_poll_spec(
                s,
                height,
                sender,
                cw20_msg.sender@,
                cw20_msg.amount,
                title@,
                description@,
                text_of(link),
                models(executions@),
                ledger.gov_token_total_supply,
            )
        },
        Cw20HookMsg::UnstakeGovernanceToken {  } => unchanged(
            s,
            staking_executions::unstake_token_spec(
                s,
                contract_address,
                sender,
                cw20_msg.sender@,
                cw20_msg.amount,
            ),
        ),
    }
}

/// Takes a transfer of tokens to the contract.
pub fn receive_cw20(
    storage: &mut Storage,
    env: Env,
    info: MessageInfo,
    cw20_msg: Cw20ReceiveMsg,
    ledger: Ledger,
) -> (r: ContractResult<Response>)
    requires
        old(storage).wf(),
    ensures
        final(storage).wf(),
        committed(
            old(storage)@,
            final(storage)@,
            r,
            receive_cw20_spec(
                old(storage)@,
                env.contract.address@,
                env.block.height,
                info.sender@,
                cw20_msg,
                ledger,
            ),
        ),
{
    match cw20_msg.msg {
        Cw20HookMsg::StakeToken {  } => staking_executions::stake_token(
            storage,
            env,
            info,
            cw20_msg.sender,
            cw20_msg.amount,
        ),
        Cw20HookMsg::CreatePoll { title, description, link, executions } => {
            poll_executions::create_poll(
                storage,
                env,
                info,
                cw20_msg.sender,
                cw20_msg.amount,
                title,
                description,
                link,
                executions,
                ledger.gov_token_total_supply,
            )
        },
        Cw20HookMsg::UnstakeGovernanceToken {  } => staking_executions::unstake_token(
            storage,
            env,
            info,
            cw20_msg.sender,
            cw20_msg.amount,
        ),
    }
}

/// What a command leads to. Of `ledger`, the hook of a stake looks at the
/// staking tokens of the contract and at the number of voting shares;
/// the hook of an unstake at both and at the voting shares of the staker;
/// a vote at the voting shares that the voter had when the poll was
/// created.
pub open spec fn execute_spec(
    s: StorageModel,
    contract_address: Seq<char>,
    height: u64,
    sender: Seq<char>,
    msg: ExecuteMsg,
    ledger: Ledger,
) -> Result<(StorageModel, ResponseModel), ErrorModel> {
    match msg {
        ExecuteMsg::Receive(cw20_msg) => receive_cw20_spec(
            s,
            contract_address,
            height,
            sender,
            cw20_msg,
            ledger,
        ),
        ExecuteMsg::UpdateStakingConfig { distributor, unstake_lock_period } => {
            staking_executions::update_staking_config_spec(
                s,
                contract_address,
                sender,
                text_of(distributor),
                unstake_lock_period,
            )
        },
        ExecuteMsg::UpdatePollConfig {
            quorum,
            threshold,
            voting_period,
            execution_delay_period,
            proposal_deposit,
        } => poll_executions::update_poll_config_spec(
            s,
            contract_address,
            sender,
            quorum,
            threshold,
            voting_period,
            execution_delay_period,
            proposal_deposit,
        ),
        ExecuteMsg::StakeGovernanceTokenHook { staker, amount } => unchanged(
            s,
            staking_executions::stake_token_hook_spec(
                s,
                contract_address,
                sender,
                staker@,
                amount,
                ledger.staking_token_balance,
                ledger.gov_token_total_supply,
            ),
        ),
        ExecuteMsg::UnstakeGovernanceTokenHook { staker, amount } => {
            staking_executions::unstake_token_hook_spec(
                s,
                contract_address,
                height,
                sender,
                staker@,
                amount,
                ledger.gov_token_balance,
                ledger.gov_token_total_supply,
                ledger.staking_token_balance,
            )
        },
        ExecuteMsg::ClaimUnstakedToken {  } => staking_executions::claim_unstaked_token_spec(
            s,
            height,
            sender,
        ),
        ExecuteMsg::CastVote { poll_id, vote, amount } => poll_executions::cast_vote_spec(
            s,
            height,
            sender,
            poll_id,
            vote,
            amount,
            ledger.gov_token_balance,
        ),
        ExecuteMsg::EndPoll { poll_id } => poll_executions::end_poll_spec(s, height, poll_id),
        ExecuteMsg::ExecutePoll { poll_id } => poll_executions::execute_poll_spec(
            s,
            contract_address,
            height,
            poll_id,
        ),
        ExecuteMsg::RunExecution { executions } => unchanged(
            s,
            poll_executions::run_execution_spec(contract_address, sender, models(executions@)),
        ),
    }
}

/// Carries out a command.
pub fn execute(storage: &mut Storage, env: Env, info: MessageInfo, msg: ExecuteMsg, ledger: Ledger) -> (r:
    ContractResult<Response>)
    requires
        old(storage).wf(),
    ensures
        final(storage).wf(),
        committed(
            old(storage)@,
            final(storage)@,
            r,
            execute_spec(
                old(storage)@,
                env.contract.address@,
                env.block.height,
                info.sender@,
                msg,
                ledger,
            ),
        ),
{
    match msg {
        ExecuteMsg::Receive(cw20_msg) => receive_cw20(storage, env, info, cw20_msg, ledger),
        ExecuteMsg::UpdateStakingConfig { distributor, unstake_lock_period } => {
            staking_executions::update_staking_config(
                storage,
                env,
                info,
                distributor,
                unstake_lock_period,
            )
        },
        ExecuteMsg::UpdatePollConfig {
            quorum,
            threshold,
            voting_period,
            execution_delay_period,
            proposal_deposit,
        } => poll_executions::update_poll_config(
            storage,
            env,
            info,
            quorum,
            threshold,
            voting_period,
            execution_delay_period,
            proposal_deposit,
        ),
        ExecuteMsg::StakeGovernanceTokenHook { staker, amount } => {
            staking_executions::stake_token_hook(
                storage,
                env,
                info,
                staker,
                amount,
                ledger.staking_token_balance,
                ledger.gov_token_total_supply,
            )
        },
        ExecuteMsg::UnstakeGovernanceTokenHook { staker, amount } => {
            staking_executions::unstake_token_hook(
                storage,
                env,
                info,
                staker,
                amount,
                ledger.gov_token_balance,
                ledger.gov_token_total_supply,
                ledger.staking_token_balance,
            )
        },
        ExecuteMsg::ClaimUnstakedToken {  } => staking_executions::claim_unstaked_token(
            storage,
            env,
            info,
        ),
        ExecuteMsg::CastVote { poll_id, vote, amount } => poll_executions::cast_vote(
            storage,
            env,
            info,
            poll_id,
            vote,
            amount,
            ledger.gov_token_balance,
        ),
        ExecuteMsg::EndPoll { poll_id } => poll_executions::end_poll(storage, env, info, poll_id),
        ExecuteMsg::ExecutePoll { poll_id } => poll_executions::execute_poll(
            storage,
            env,
            info,
            poll_id,
        ),
        ExecuteMsg::RunExecution { executions } => poll_executions::run_execution(
            env,
            info,
            executions,
        ),
    }
}

/// What an outcome that comes back to the contract leads to: under the
/// id of execution steps, the execution goes on; no other id is known.
pub open spec fn reply_spec(s: StorageModel, contract_address: Seq<char>, msg: Reply) -> Result<
    (StorageModel, ResponseModel),
    ErrorModel,
> {
    if msg.id == poll_executions::REPLY_EXECUTION {
        poll_executions::reply_execution_spec(s, contract_address, text_of(msg.error))
    } else {
        Err(missing(Kind::ReplyId))
    }
}

/// Takes an outcome that comes back to the contract.
pub fn reply(storage: &mut Storage, env: Env, msg: Reply) -> (r: ContractResult<Response>)
    requires
        old(storage).wf(),
    ensures
        final(storage).wf(),
        committed(
            old(storage)@,
            final(storage)@,
            r,
            reply_spec(old(storage)@, env.contract.address@, msg),
        ),
{
    if msg.id == poll_executions::REPLY_EXECUTION {
        poll_executions::reply_execution(storage, env, msg)
    } else {
        Err(ContractError::Std(StdError::not_found(Kind::ReplyId)))
    }
}

/// A migration changes nothing.
pub fn migrate(_storage: &mut Storage, _env: Env, _msg: MigrateMsg) -> (r: ContractResult<Response>)
    ensures
        *final(_storage) == *old(_storage),
        r matches Ok(response) && response@ == ResponseModel::empty(),
{
    Ok(Response::new())
}

/// The answer to a query.
#[derive(Debug, PartialEq, Eq)]
pub enum QueryResponse {
    ContractConfig(ContractConfigResponse),
    PollConfig(PollConfigResponse),
    PollState(PollStateResponse),
    Poll(PollResponse),
    Polls(PollsResponse),
    Voters(VotersResponse),
    StakingConfig(StakingConfig),
    StakingState(StakingStateResponse),
    StakerState(StakerStateResponse),
    AllStaker(AllStakersResponse),
    VotingPower(VotingPowerResponse),
    SimulateStakeAmount(u128),
    SimulateUnstakeAmount(u128),
}

/// The model of the answer to a query.
pub ghost enum QueryResponseModel {
    ContractConfig(ContractConfigResponseModel),
    PollConfig(PollConfigResponse),
    PollState(PollStateResponse),
    Poll(PollResponseModel),
    Polls(Seq<PollResponseModel>),
    Voters(Seq<VoteModel>),
    StakingConfig(StakingConfigModel),
    StakingState(StakingStateResponse),
    StakerState(StakerStateResponseModel),
    AllStaker(Seq<Seq<char>>),
    VotingPower(VotingPowerResponse),
    SimulateStakeAmount(u128),
    SimulateUnstakeAmount(u128),
}

impl View for QueryResponse {
    type V = QueryResponseModel;

    open spec fn view(&self) -> QueryResponseModel {
        match *self {
            QueryResponse::ContractConfig(v) => QueryResponseModel::ContractConfig(v@),
            QueryResponse::PollConfig(v) => QueryResponseModel::PollConfig(v),
            QueryResponse::PollState(v) => QueryResponseModel::PollState(v),
            QueryResponse::Poll(v) => QueryResponseModel::Poll(v@),
            QueryResponse::Polls(v) => QueryResponseModel::Polls(v@),
            QueryResponse::Voters(v) => QueryResponseModel::Voters(v@),
            QueryResponse::StakingConfig(v) => QueryResponseModel::StakingConfig(v@),
            QueryResponse::StakingState(v) => QueryResponseModel::StakingState(v),
            QueryResponse::StakerState(v) => QueryResponseModel::StakerState(v@),
            QueryResponse::AllStaker(v) => QueryResponseModel::AllStaker(v@),
            QueryResponse::VotingPower(v) => QueryResponseModel::VotingPower(v),
            QueryResponse::SimulateStakeAmount(v) => QueryResponseModel::SimulateStakeAmount(v),
            QueryResponse::SimulateUnstakeAmount(v) => QueryResponseModel::SimulateUnstakeAmount(
                v,
            ),
        }
    }
}

/// An answer of one kind as the answer to a query.
pub open spec fn as_answer<A>(
    outcome: Result<A, ErrorModel>,
    wrap: spec_fn(A) -> QueryResponseModel,
) -> Result<QueryResponseModel, ErrorModel> {
    match outcome {
        Ok(a) => Ok(wrap(a)),
        Err(e) => Err(e),
    }
}

/// The answer to a query. Of `ledger`, the voting power looks at the
/// voting shares of the address asked for and at their number; the two
/// simulations at the staking tokens of the contract and at the number of
/// voting shares.
pub open spec fn query_spec(s: StorageModel, msg: QueryMsg, ledger: Ledger) -> Result<
    QueryResponseModel,
    ErrorModel,
> {
    match msg {
        QueryMsg::ContractConfig {  } => as_answer(
            contract_config_spec(s),
            |a| QueryResponseModel::ContractConfig(a),
        ),
        QueryMsg::PollConfig {  } => as_answer(
            poll_config_spec(s),
            |a| QueryResponseModel::PollConfig(a),
        ),
        QueryMsg::PollState {  } => as_answer(
            poll_state_spec(s),
            |a| QueryResponseModel::PollState(a),
        ),
        QueryMsg::Poll { poll_id } => as_answer(
            poll_spec(s, poll_id),
            |a| QueryResponseModel::Poll(a),
        ),
        QueryMsg::Polls { filter, start_after, limit, order_by } => as_answer(
            polls_spec(s, filter, start_after, limit, order_by),
            |a| QueryResponseModel::Polls(a),
        ),
        QueryMsg::Voters { poll_id, start_after, limit, order_by } => as_answer(
            voters_spec(s, poll_id, text_of(start_after), limit, order_by),
            |a| QueryResponseModel::Voters(a),
        ),
        QueryMsg::StakingConfig {  } => as_answer(
            staking_config_spec(s),
            |a| QueryResponseModel::StakingConfig(a),
        ),
        QueryMsg::StakingState {  } => as_answer(
            staking_state_spec(s),
            |a| QueryResponseModel::StakingState(a),
        ),
        QueryMsg::StakerState { address } => Ok(
            QueryResponseModel::StakerState(staker_response(s, address@)),
        ),
        QueryMsg::AllStaker { start_after, limit } => Ok(
            QueryResponseModel::AllStaker(staker_addresses(s, text_of(start_after), limit)),
        ),
        QueryMsg::VotingPower { address } => as_answer(
            voting_power_spec(ledger.gov_token_balance, ledger.gov_token_total_supply),
            |a| QueryResponseModel::VotingPower(a),
        ),
        QueryMsg::SimulateStakeAmount { amount } => as_answer(
            stake_preview(s, amount, ledger.staking_token_balance, ledger.gov_token_total_supply),
            |a| QueryResponseModel::SimulateStakeAmount(a),
        ),
        QueryMsg::SimulateUnstakeAmount { amount } => as_answer(
            unstake_amount(s, amount, ledger.gov_token_total_supply, ledger.staking_token_balance),
            |a| QueryResponseModel::SimulateUnstakeAmount(a),
        ),
    }
}

/// Answers a query.
pub fn query(storage: &Storage, env: Env, msg: QueryMsg, ledger: Ledger) -> (r: ContractResult<
    QueryResponse,
>)
    requires
        storage.wf(),
    ensures
        answered(r, query_spec(storage@, msg, ledger)),
{
    match msg {
        QueryMsg::ContractConfig {  } => match get_contract_config(storage, env) {
            Ok(v) => Ok(QueryResponse::ContractConfig(v)),
            Err(e) => Err(e),
        },
        QueryMsg::PollConfig {  } => match get_poll_config(storage, env) {
            Ok(v) => Ok(QueryResponse::PollConfig(v)),
            Err(e) => Err(e),
        },
        QueryMsg::PollState {  } => match get_poll_state(storage, env) {
            Ok(v) => Ok(QueryResponse::PollState(v)),
            Err(e) => Err(e),
        },
        QueryMsg::Poll { poll_id } => match get_poll(storage, env, poll_id) {
            Ok(v) => Ok(QueryResponse::Poll(v)),
            Err(e) => Err(e),
        },
        QueryMsg::Polls { filter, start_after, limit, order_by } => match query_polls(
            storage,
            env,
            filter,
            start_after,
            limit,
            order_by,
        ) {
            Ok(v) => Ok(QueryResponse::Polls(v)),
            Err(e) => Err(e),
        },
        QueryMsg::Voters { poll_id, start_after, limit, order_by } => match query_voters(
            storage,
            env,
            poll_id,
            start_after,
            limit,
            order_by,
        ) {
            Ok(v) => Ok(QueryResponse::Voters(v)),
            Err(e) => Err(e),
        },
        QueryMsg::StakingConfig {  } => match get_staking_config(storage, env) {
            Ok(v) => Ok(QueryResponse::StakingConfig(v)),
            Err(e) => Err(e),
        },
        QueryMsg::StakingState {  } => match get_staking_state(storage, env) {
            Ok(v) => Ok(QueryResponse::StakingState(v)),
            Err(e) => Err(e),
        },
        QueryMsg::StakerState { address } => match get_staker_state(storage, env, address) {
            Ok(v) => Ok(QueryResponse::StakerState(v)),
            Err(e) => Err(e),
        },
        QueryMsg::AllStaker { start_after, limit } => match get_all_stakers(
            storage,
            env,
            start_after,
            limit,
        ) {
            Ok(v) => Ok(QueryResponse::AllStaker(v)),
            Err(e) => Err(e),
        },
        QueryMsg::VotingPower { address } => match get_voting_power(
            env,
            ledger.gov_token_balance,
            ledger.gov_token_total_supply,
        ) {
            Ok(v) => Ok(QueryResponse::VotingPower(v)),
            Err(e) => Err(e),
        },
        QueryMsg::SimulateStakeAmount { amount } => match get_simulate_stake_amount(
            storage,
            env,
            amount,
            ledger.staking_token_balance,
            ledger.gov_token_total_supply,
        ) {
            Ok(v) => Ok(QueryResponse::SimulateStakeAmount(v)),
            Err(e) => Err(e),
        },
        QueryMsg::SimulateUnstakeAmount { amount } => match get_simulate_unstake_amount(
            storage,
            env,
            amount,
            ledger.gov_token_total_supply,
            ledger.staking_token_balance,
        ) {
            Ok(v) => Ok(QueryResponse::SimulateUnstakeAmount(v)),
            Err(e) => Err(e),
        },
    }
}

} // verus!
