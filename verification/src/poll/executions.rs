use vstd::prelude::*;
use vstd::string::*;
use crate::common::states::ContractConfig;
use crate::common::{
    committed,
    plain_call,
    responded,
    watched_call,
    Call,
    CallModel,
    ContractResult,
    Env,
    Execution,
    ExecutionModel,
    ExecutionMsg,
    MessageInfo,
    Reply,
    Response,
    ResponseModel,
    SubMsg,
    SubMsgModel,
};
use crate::decimal::Decimal;
use crate::errors::{
    missing,
    reason,
    sum_overflow,
    unauthorized,
    ContractError,
    ErrorModel,
    Kind,
    OverflowError,
    OverflowOperation,
    StdError,
};
use crate::governance::enumerations::{PollStatus, VoteOption};
use crate::governance::execute_msgs::PollConfigInitMsg;
use crate::governance::models::VoteModel;
use crate::poll::states::{
    counted,
    get_poll_id,
    Poll,
    PollConfig,
    PollExecutionContext,
    PollModel,
    PollResult,
    PollState,
    PollVoter,
    PollVoterModel,
};
use crate::staking::states::{active_votes, staker_at, vote_sum, StakerModel, StakerState};
use crate::storage::{poll_key, voter_key, IndexModel, Storage, StorageModel};
use crate::store::{has_key, lemma_lookup, lookup, models, put, text_of, Duplicate, Record};
use crate::utils::{
    action_response,
    decimal_text,
    make_response,
    u128_to_string,
    u64_to_string,
    validate_zero_to_one,
};

verus! {

/// The id under which the outcome of an execution step comes back.
pub const REPLY_EXECUTION: u64 = 1;

/// The execution delay period must be above this many blocks.
pub const MIN_EXECUTION_DELAY_PERIOD: u64 = 1000;

/// What is wrong with rules of polls, if anything: the quorum and the
/// threshold must lie between 0 and 1, and the execution delay period
/// must be above the fixed minimum. What is given as `None` is not looked
/// at.
pub open spec fn poll_config_fault(
    quorum: Option<Decimal>,
    threshold: Option<Decimal>,
    execution_delay_period: Option<u64>,
) -> Option<ErrorModel> {
    if quorum is Some && !quorum->0.zero_to_one() {
        Some(ErrorModel::Text("quorum"@ + " must be 0 to 1"@))
    } else if threshold is Some && !threshold->0.zero_to_one() {
        Some(ErrorModel::Text("threshold"@ + " must be 0 to 1"@))
    } else if execution_delay_period is Some && execution_delay_period->0
        <= MIN_EXECUTION_DELAY_PERIOD {
        Some(reason(StdError::ExecutionDelayTooShort))
    } else {
        None
    }
}

/// Checks rules of polls that are about to be stored.
fn validate_poll_config(
    quorum: Option<Decimal>,
    threshold: Option<Decimal>,
    execution_delay_period: Option<u64>,
) -> (r: Result<(), ContractError>)
    ensures
        match poll_config_fault(quorum, threshold, execution_delay_period) {
            Some(e) => r matches Err(x) && x@ == e,
            None => r is Ok,
        },
{
    if let Some(q) = quorum {
        if let Err(e) = validate_zero_to_one(q, "quorum") {
            return Err(ContractError::Std(e));
        }
    }
    if let Some(t) = threshold {
        if let Err(e) = validate_zero_to_one(t, "threshold") {
            return Err(ContractError::Std(e));
        }
    }
    if let Some(d) = execution_delay_period {
        if d <= MIN_EXECUTION_DELAY_PERIOD {
            return Err(ContractError::Std(StdError::ExecutionDelayTooShort));
        }
    }
    Ok(())
}

/// Setting up the polls: rules that are in order are stored, and there
/// has been no poll yet.
pub open spec fn instantiate_spec(s: StorageModel, msg: PollConfigInitMsg) -> Result<
    (StorageModel, ResponseModel),
    ErrorModel,
> {
    match poll_config_fault(
        Some(msg.quorum),
        Some(msg.threshold),
        Some(msg.execution_delay_period),
    ) {
        Some(e) => Err(e),
        None => Ok(
            (
                StorageModel {
                    poll_config: Some(
                        PollConfig {
                            quorum: msg.quorum,
                            threshold: msg.threshold,
                            voting_period: msg.voting_period,
                            execution_delay_period: msg.execution_delay_period,
                            proposal_deposit: msg.proposal_deposit,
                        },
                    ),
                    poll_state: Some(PollState { poll_count: 0, total_deposit: 0 }),
                    ..s
                },
                action_response("instantiate"@),
            ),
        ),
    }
}

/// Sets up the polls.
pub fn instantiate(storage: &mut Storage, _env: Env, _info: MessageInfo, msg: PollConfigInitMsg) -> (r:
    ContractResult<Response>)
    requires
        old(storage).wf(),
    ensures
        final(storage).wf(),
        committed(old(storage)@, final(storage)@, r, instantiate_spec(old(storage)@, msg)),
{
    if let Err(e) = validate_poll_config(
        Some(msg.quorum),
        Some(msg.threshold),
        Some(msg.execution_delay_period),
    ) {
        return Err(e);
    }
    let response = make_response("instantiate");
    let config = PollConfig {
        quorum: msg.quorum,
        threshold: msg.threshold,
        voting_period: msg.voting_period,
        execution_delay_period: msg.execution_delay_period,
        proposal_deposit: msg.proposal_deposit,
    };
    let _saved = config.save(storage);
    let _saved = (PollState { poll_count: 0, total_deposit: 0 }).save(storage);
    Ok(response)
}

/// One attribute that says that a rule was changed, if it was.
pub open spec fn updated<A>(name: Seq<char>, value: Option<A>) -> Seq<(Seq<char>, Seq<char>)> {
    if value is Some {
        seq![(name, "true"@)]
    } else {
        Seq::empty()
    }
}

/// The attributes that report which rules were changed.
pub open spec fn poll_update_attributes(
    quorum: Option<Decimal>,
    threshold: Option<Decimal>,
    voting_period: Option<u64>,
    execution_delay_period: Option<u64>,
    proposal_deposit: Option<u128>,
) -> Seq<(Seq<char>, Seq<char>)> {
    seq![("action"@, "update_poll_config"@)] + updated("is_updated_quorum"@, quorum) + updated(
        "is_updated_threshold"@,
        threshold,
    ) + updated("is_updated_voting_period"@, voting_period) + updated(
        "is_updated_execution_delay_period"@,
        execution_delay_period,
    ) + updated("is_updated_proposal_deposit"@, proposal_deposit)
}

/// `value`, or `stored` where there is none.
pub open spec fn or_stored<A>(value: Option<A>, stored: A) -> A {
    match value {
        Some(v) => v,
        None => stored,
    }
}

/// Changing the rules of polls: only the contract itself may, that is a
/// proposal that has passed. Each rule that is given takes the place of
/// the stored one, unless one of them is out of range: then none does.
pub open spec fn update_poll_config_spec(
    s: StorageModel,
    contract_address: Seq<char>,
    sender: Seq<char>,
    quorum: Option<Decimal>,
    threshold: Option<Decimal>,
    voting_period: Option<u64>,
    execution_delay_period: Option<u64>,
    proposal_deposit: Option<u128>,
) -> Result<(StorageModel, ResponseModel), ErrorModel> {
    if contract_address != sender {
        Err(unauthorized())
    } else {
        match s.poll_config {
            None => Err(missing(Kind::PollConfig)),
            Some(config) => match poll_config_fault(quorum, threshold, execution_delay_period) {
                Some(e) => Err(e),
                None => Ok(
                    (
                        StorageModel {
                            poll_config: Some(
                                PollConfig {
                                    quorum: or_stored(quorum, config.quorum),
                                    threshold: or_stored(threshold, config.threshold),
                                    voting_period: or_stored(voting_period, config.voting_period),
                                    execution_delay_period: or_stored(
                                        execution_delay_period,
                                        config.execution_delay_period,
                                    ),
                                    proposal_deposit: or_stored(
                                        proposal_deposit,
                                        config.proposal_deposit,
                                    ),
                                },
                            ),
                            ..s
                        },
                        ResponseModel {
                            messages: Seq::empty(),
                            attributes: poll_update_attributes(
                                quorum,
                                threshold,
                                voting_period,
                                execution_delay_period,
                                proposal_deposit,
                            ),
                        },
                    ),
                ),
            },
        }
    }
}

/// Changes the rules of polls.
pub fn update_poll_config(
    storage: &mut Storage,
    env: Env,
    info: MessageInfo,
    quorum: Option<Decimal>,
    threshold: Option<Decimal>,
    voting_period: Option<u64>,
    execution_delay_period: Option<u64>,
    proposal_deposit: Option<u128>,
) -> (r: ContractResult<Response>)
    requires
        old(storage).wf(),
    ensures
        final(storage).wf(),
        committed(
            old(storage)@,
            final(storage)@,
            r,
            update_poll_config_spec(
                old(storage)@,
                env.contract.address@,
                info.sender@,
                quorum,
                threshold,
                voting_period,
                execution_delay_period,
                proposal_deposit,
            ),
        ),
{
    if env.contract.address != info.sender {
        return Err(ContractError::Unauthorized {  });
    }
    let mut response = make_response("update_poll_config");
    let mut config = match PollConfig::load(storage) {
        Ok(c) => c,
        Err(e) => {
            return Err(ContractError::Std(e));
        },
    };
    if let Err(e) = validate_poll_config(quorum, threshold, execution_delay_period) {
        return Err(e);
    }
    if let Some(q) = quorum {
        config.quorum = q;
        response = response.add_attribute("is_updated_quorum", "true");
    }
    if let Some(t) = threshold {
        config.threshold = t;
        response = response.add_attribute("is_updated_threshold", "true");
    }
    if let Some(p) = voting_period {
        config.voting_period = p;
        response = response.add_attribute("is_updated_voting_period", "true");
    }
    if let Some(d) = execution_delay_period {
        config.execution_delay_period = d;
        response = response.add_attribute("is_updated_execution_delay_period", "true");
    }
    if let Some(d) = proposal_deposit {
        config.proposal_deposit = d;
        response = response.add_attribute("is_updated_proposal_deposit", "true");
    }
    let _saved = config.save(storage);
    assert(response@.attributes =~= poll_update_attributes(
        quorum,
        threshold,
        voting_period,
        execution_delay_period,
        proposal_deposit,
    ));
    Ok(response)
}

/// The poll that a proposal starts as.
pub open spec fn new_poll(
    id: u64,
    height: u64,
    end_height: u64,
    proposer: Seq<char>,
    deposit_amount: u128,
    title: Seq<char>,
    description: Seq<char>,
    link: Option<Seq<char>>,
    executions: Seq<ExecutionModel>,
    gov_token_total_supply: u128,
) -> PollModel {
    PollModel {
        id,
        title,
        description,
        link,
        executions,
        creator: proposer,
        deposit_amount,
        yes_votes: 0,
        no_votes: 0,
        abstain_votes: 0,
        start_height: height,
        end_height,
        status: PollStatus::InProgress,
        total_balance_at_start_poll: gov_token_total_supply,
        _status: Some(PollStatus::InProgress),
    }
}

/// Submitting a proposal: the governance token tells the contract that
/// `proposer` has sent it `deposit_amount` as the deposit, which must be
/// at least the configured one. The poll gets the next id, takes votes up
/// to the height `height + voting_period`, and remembers how many voting
/// shares there are now.
pub open spec fn create_poll_spec(
    s: StorageModel,
    height: u64,
    sender: Seq<char>,
    proposer: Seq<char>,
    deposit_amount: u128,
    title: Seq<char>,
    description: Seq<char>,
    link: Option<Seq<char>>,
    executions: Seq<ExecutionModel>,
    gov_token_total_supply: u128,
) -> Result<(StorageModel, ResponseModel), ErrorModel> {
    if s.contract_config is None {
        Err(missing(Kind::ContractConfig))
    } else if s.contract_config->0.governance_token != sender {
        Err(unauthorized())
    } else if s.poll_config is None {
        Err(missing(Kind::PollConfig))
    } else if deposit_amount < s.poll_config->0.proposal_deposit {
        Err(reason(StdError::InsufficientDeposit))
    } else if height + s.poll_config->0.voting_period > u64::MAX {
        Err(sum_overflow(height as u128, s.poll_config->0.voting_period as u128))
    } else if s.poll_state is None {
        Err(missing(Kind::PollState))
    } else {
        match counted(s.poll_state->0, deposit_amount) {
            Err(e) => Err(reason(e)),
            Ok(next) => {
                let end_height = (height + s.poll_config->0.voting_period) as u64;
                let poll = new_poll(
                    next.poll_count,
                    height,
                    end_height,
                    proposer,
                    deposit_amount,
                    title,
                    description,
                    link,
                    executions,
                    gov_token_total_supply,
                );
                Ok(
                    (
                        StorageModel {
                            poll_state: Some(next),
                            polls: put::<Poll>(s.polls, poll),
                            poll_status_index: s.poll_status_index.save(
                                PollStatus::InProgress,
                                next.poll_count,
                            ),
                            ..s
                        },
                        ResponseModel {
                            messages: Seq::empty(),
                            attributes: seq![
                                ("action"@, "create_poll"@),
                                ("creator"@, proposer),
                                ("poll_id"@, decimal_text(next.poll_count as nat)),
                                ("end_height"@, decimal_text(end_height as nat)),
                            ],
                        },
                    ),
                )
            },
        }
    }
}

/// The steps of a proposal in the form they are stored in.
pub fn to_executions(executions: &Vec<ExecutionMsg>) -> (r: Vec<Execution>)
    ensures
        models(r@) == models(executions@),
{
    let mut out: Vec<Execution> = Vec::new();
    let mut i: usize = 0;
    while i < executions.len()
        invariant
            i <= executions.len(),
            out.len() == i,
            forall|j: int| 0 <= j < i ==> (#[trigger] out[j])@ == executions[j]@,
        decreases executions.len() - i,
    {
        out.push(executions[i].to_execution());
        i += 1;
    }
    assert(models(out@) =~= models(executions@));
    out
}

/// Submits a proposal of `proposer`, who has sent `deposit_amount` of the
/// governance token with it. `gov_token_total_supply` is the number of
/// voting shares that the token ledger reports.
pub fn create_poll(
    storage: &mut Storage,
    env: Env,
    info: MessageInfo,
    proposer: String,
    deposit_amount: u128,
    title: String,
    description: String,
    link: Option<String>,
    executions: Vec<ExecutionMsg>,
    gov_token_total_supply: u128,
) -> (r: ContractResult<Response>)
    requires
        old(storage).wf(),
    ensures
        final(storage).wf(),
        committed(
            old(storage)@,
            final(storage)@,
            r,
            create_poll_spec(
                old(storage)@,
                env.block.height,
                info.sender@,
                proposer@,
                deposit_amount,
                title@,
                description@,
                text_of(link),
                models(executions@),
                gov_token_total_supply,
            ),
        ),
{
    let contract_config = match ContractConfig::load(storage) {
        Ok(c) => c,
        Err(e) => {
            return Err(ContractError::Std(e));
        },
    };
    if !contract_config.is_governance_token(&info.sender) {
        return Err(ContractError::Unauthorized {  });
    }
    let config = match PollConfig::load(storage) {
        Ok(c) => c,
        Err(e) => {
            return Err(ContractError::Std(e));
        },
    };
    if deposit_amount < config.proposal_deposit {
        return Err(ContractError::Std(StdError::InsufficientDeposit));
    }
    if env.block.height > u64::MAX - config.voting_period {
        return Err(
            ContractError::OverflowError(
                OverflowError::new(
                    OverflowOperation::Add,
                    env.block.height as u128,
                    config.voting_period as u128,
                ),
            ),
        );
    }
    let poll_id = match get_poll_id(storage, &deposit_amount) {
        Ok(id) => id,
        Err(e) => {
            return Err(ContractError::Std(e));
        },
    };
    let end_height = env.block.height + config.voting_period;
    let mut response = make_response("create_poll");
    response = response.add_attribute("creator", proposer.as_str());
    response = response.add_attribute("poll_id", u64_to_string(poll_id).as_str());
    response = response.add_attribute("end_height", u64_to_string(end_height).as_str());
    let mut poll = Poll {
        id: poll_id,
        title,
        description,
        link,
        executions: to_executions(&executions),
        creator: proposer,
        deposit_amount,
        yes_votes: 0,
        no_votes: 0,
        abstain_votes: 0,
        start_height: env.block.height,
        end_height,
        status: PollStatus::InProgress,
        total_balance_at_start_poll: gov_token_total_supply,
        _status: None,
    };
    let _saved = poll.save_with_index(storage);
    proof {
        let expected = create_poll_spec(
            old(storage)@,
            env.block.height,
            info.sender@,
            proposer@,
            deposit_amount,
            title@,
            description@,
            text_of(link),
            models(executions@),
            gov_token_total_supply,
        )->Ok_0;
        assert(response@.messages =~= expected.1.messages);
        assert(response@.attributes =~= expected.1.attributes);
    }
    Ok(response)
}

/// Casting a vote of `amount` voting shares for `option` on the poll
/// `poll_id`. The poll must take votes at `height`, and the voter must
/// not have voted on it. The voter's votes on polls that are no longer
/// in progress are dropped first; what is left of `gov_token_balance`
/// once the votes on polls still in progress are taken off must cover
/// `amount`. The vote is added to the tally and filed under the poll and
/// the voter, and the voter's own list of votes gets it too.
pub open spec fn cast_vote_spec(
    s: StorageModel,
    height: u64,
    sender: Seq<char>,
    poll_id: u64,
    option: VoteOption,
    amount: u128,
    gov_token_balance: u128,
) -> Result<(StorageModel, ResponseModel), ErrorModel> {
    match lookup::<Poll>(s.polls, poll_key(poll_id)) {
        None => Err(reason(StdError::PollNotFound)),
        Some(poll) => {
            let staker = staker_at(s.staker_states, sender);
            let active = active_votes(staker.votes, s.polls);
            if !poll.in_progress(height) {
                Err(reason(StdError::VotingClosed))
            } else if has_key::<PollVoter>(s.poll_voters, voter_key(poll_id, sender)) {
                Err(reason(StdError::AlreadyVoted))
            } else if vote_sum(active) + amount > gov_token_balance {
                Err(reason(StdError::InsufficientBalance))
            } else if poll.vote_amount() + amount > u128::MAX {
                Err(
                    reason(
                        StdError::Overflow {
                            source: OverflowError {
                                operation: OverflowOperation::Add,
                                operand1: poll.vote_amount() as u128,
                                operand2: amount,
                            },
                        },
                    ),
                )
            } else {
                let vote = VoteModel { voter: sender, option, amount };
                Ok(
                    (
                        StorageModel {
                            polls: put::<Poll>(s.polls, poll.voted(option, amount)),
                            poll_voters: put::<PollVoter>(
                                s.poll_voters,
                                PollVoterModel { poll_id, vote },
                            ),
                            staker_states: put::<StakerState>(
                                s.staker_states,
                                StakerModel {
                                    address: sender,
                                    votes: active.push((poll_id, vote)),
                                    unstake_locked_list: staker.unstake_locked_list,
                                },
                            ),
                            ..s
                        },
                        ResponseModel {
                            messages: Seq::empty(),
                            attributes: seq![
                                ("action"@, "cast_vote"@),
                                ("poll_id"@, decimal_text(poll_id as nat)),
                                ("amount"@, decimal_text(amount as nat)),
                                ("voter"@, sender),
                                ("vote_option"@, option.name()),
                            ],
                        },
                    ),
                )
            }
        },
    }
}

/// Casts a vote of the caller. `gov_token_balance` is the caller's
/// balance of voting shares at the height at which the poll was created,
/// as the token ledger reports it.
pub fn cast_vote(
    storage: &mut Storage,
    env: Env,
    info: MessageInfo,
    poll_id: u64,
    vote: VoteOption,
    amount: u128,
    gov_token_balance: u128,
) -> (r: ContractResult<Response>)
    requires
        old(storage).wf(),
    ensures
        final(storage).wf(),
        committed(
            old(storage)@,
            final(storage)@,
            r,
            cast_vote_spec(
                old(storage)@,
                env.block.height,
                info.sender@,
                poll_id,
                vote,
                amount,
                gov_token_balance,
            ),
        ),
{
    proof {
        lemma_lookup::<Poll>(storage@.polls, poll_key(poll_id));
        lemma_lookup::<StakerState>(
            storage@.staker_states,
            crate::storage::staker_key(info.sender@),
        );
    }
    let mut poll = match Poll::load(storage, &poll_id) {
        Ok(p) => p,
        Err(_) => {
            return Err(ContractError::Std(StdError::PollNotFound));
        },
    };
    if !poll.in_progress(env.block.height) {
        return Err(ContractError::Std(StdError::VotingClosed));
    }
    if poll.is_voted(storage, &info.sender) {
        return Err(ContractError::Std(StdError::AlreadyVoted));
    }
    let mut staker_state = match StakerState::load_safe(storage, &info.sender) {
        Ok(s) => s,
        Err(e) => {
            return Err(ContractError::Std(e));
        },
    };
    staker_state.clean_votes(storage);
    if !staker_state.can_vote(gov_token_balance, amount) {
        return Err(ContractError::Std(StdError::InsufficientBalance));
    }
    if let Err(e) = poll.vote(storage, &mut staker_state, vote, amount) {
        return Err(ContractError::Std(e));
    }
    let _saved = staker_state.save(storage);
    let _saved = poll.save(storage);
    let mut response = make_response("cast_vote");
    response = response.add_attribute("poll_id", u64_to_string(poll_id).as_str());
    response = response.add_attribute("amount", u128_to_string(amount).as_str());
    response = response.add_attribute("voter", info.sender.as_str());
    response = response.add_attribute("vote_option", vote.to_string().as_str());
    proof {
        let expected = cast_vote_spec(
            old(storage)@,
            env.block.height,
            info.sender@,
            poll_id,
            vote,
            amount,
            gov_token_balance,
        )->Ok_0;
        assert(response@.messages =~= expected.1.messages);
        assert(response@.attributes =~= expected.1.attributes);
    }
    Ok(response)
}

/// The status index after the poll `poll`, which stood under the status
/// it remembers, is stored with the status `status`.
pub open spec fn reindexed(index: IndexModel, poll: PollModel, status: PollStatus) -> IndexModel {
    (match poll._status {
        Some(prev) => index.remove(prev, poll.id),
        None => index,
    }).save(status, poll.id)
}

/// The storage after the poll `poll` is stored with the status `status`
/// and stands under it in the status index.
pub open spec fn with_status(s: StorageModel, poll: PollModel, status: PollStatus) -> StorageModel {
    StorageModel {
        polls: put::<Poll>(s.polls, PollModel { status, _status: Some(status), ..poll }),
        poll_status_index: reindexed(s.poll_status_index, poll, status),
        ..s
    }
}

/// The status a tally leads to.
pub open spec fn decided(result: PollResult) -> PollStatus {
    if result == PollResult::Passed {
        PollStatus::Passed
    } else {
        PollStatus::Rejected
    }
}

/// Ending the poll `poll_id`: it must be past its end height and still in
/// progress. The votes are tallied under the stored rules. A poll that
/// passes has its deposit transferred back to its creator; the deposit of a
/// poll that is rejected stays with the contract.
pub open spec fn end_poll_spec(s: StorageModel, height: u64, poll_id: u64) -> Result<
    (StorageModel, ResponseModel),
    ErrorModel,
> {
    match lookup::<Poll>(s.polls, poll_key(poll_id)) {
        None => Err(reason(StdError::PollNotFound)),
        Some(poll) => if height <= poll.end_height {
            Err(reason(StdError::VotingNotYetClosed))
        } else if poll.status != PollStatus::InProgress {
            Err(reason(StdError::PollNotInProgress))
        } else if s.poll_config is None {
            Err(missing(Kind::PollConfig))
        } else {
            let result = poll.tally(s.poll_config->0);
            let passed = result == PollResult::Passed;
            if passed && s.contract_config is None {
                Err(missing(Kind::ContractConfig))
            } else {
                Ok(
                    (
                        with_status(s, poll, decided(result)),
                        ResponseModel {
                            messages: if passed {
                                seq![
                                    plain_call(
                                        s.contract_config->0.governance_token,
                                        CallModel::Transfer {
                                            recipient: poll.creator,
                                            amount: poll.deposit_amount,
                                        },
                                    ),
                                ]
                            } else {
                                Seq::empty()
                            },
                            attributes: seq![
                                ("action"@, "end_poll"@),
                                ("poll_id"@, decimal_text(poll_id as nat)),
                                ("result"@, result.name()),
                                ("passed"@, if passed {
                                    "true"@
                                } else {
                                    "false"@
                                }),
                            ],
                        },
                    ),
                )
            }
        },
    }
}

/// Ends the poll `poll_id` and decides it.
pub fn end_poll(storage: &mut Storage, env: Env, _info: MessageInfo, poll_id: u64) -> (r:
    ContractResult<Response>)
    requires
        old(storage).wf(),
    ensures
        final(storage).wf(),
        committed(
            old(storage)@,
            final(storage)@,
            r,
            end_poll_spec(old(storage)@, env.block.height, poll_id),
        ),
{
    proof {
        lemma_lookup::<Poll>(storage@.polls, poll_key(poll_id));
    }
    let mut poll = match Poll::load(storage, &poll_id) {
        Ok(p) => p,
        Err(_) => {
            return Err(ContractError::Std(StdError::PollNotFound));
        },
    };
    if env.block.height <= poll.end_height {
        return Err(ContractError::Std(StdError::VotingNotYetClosed));
    }
    if poll.status != PollStatus::InProgress {
        return Err(ContractError::Std(StdError::PollNotInProgress));
    }
    let (poll_result, _supply) = match poll.get_result(storage) {
        Ok(r) => r,
        Err(e) => {
            return Err(ContractError::Std(e));
        },
    };
    let passed = poll_result == PollResult::Passed;
    let mut response = make_response("end_poll");
    if passed {
        let contract_config = match ContractConfig::load(storage) {
            Ok(c) => c,
            Err(e) => {
                return Err(ContractError::Std(e));
            },
        };
        response = response.add_submessage(
            SubMsg::new(
                contract_config.governance_token.as_str(),
                Call::Transfer { recipient: poll.creator.clone(), amount: poll.deposit_amount },
            ),
        );
        poll.status = PollStatus::Passed;
    } else {
        poll.status = PollStatus::Rejected;
    }
    let _saved = poll.save_with_index(storage);
    response = response.add_attribute("poll_id", u64_to_string(poll_id).as_str());
    response = response.add_attribute("result", poll_result.to_string().as_str());
    response = response.add_attribute("passed", if passed {
        "true"
    } else {
        "false"
    });
    proof {
        let expected = end_poll_spec(old(storage)@, env.block.height, poll_id)->Ok_0;
        assert(response@.messages =~= expected.1.messages);
        assert(response@.attributes =~= expected.1.attributes);
    }
    Ok(response)
}


/// Where a step with the order `order` goes into `steps`, which are in
/// ascending order: behind the last step whose order is not above it.
pub open spec fn slot(steps: Seq<ExecutionModel>, order: u64) -> int
    decreases steps.len(),
{
    if steps.len() == 0 || steps.last().order <= order {
        steps.len() as int
    } else {
        slot(steps.drop_last(), order)
    }
}

/// The steps in the order in which they are dispatched: by ascending
/// `order`, and steps of the same order as they were submitted.
pub open spec fn in_order(steps: Seq<ExecutionModel>) -> Seq<ExecutionModel>
    decreases steps.len(),
{
    if steps.len() == 0 {
        steps
    } else {
        let front = in_order(steps.drop_last());
        front.insert(slot(front, steps.last().order), steps.last())
    }
}

/// The orders of `steps` ascend.
pub open spec fn ascending(steps: Seq<ExecutionModel>) -> bool {
    forall|i: int, j: int| 0 <= i < j < steps.len() ==> steps[i].order <= steps[j].order
}

/// A slot lies in the sequence; before it no order is above `order`, from
/// it on every order is.
pub proof fn lemma_slot(steps: Seq<ExecutionModel>, order: u64)
    requires
        ascending(steps),
    ensures
        0 <= slot(steps, order) <= steps.len(),
        forall|j: int| 0 <= j < slot(steps, order) ==> steps[j].order <= order,
        forall|j: int| slot(steps, order) <= j < steps.len() ==> steps[j].order > order,
    decreases steps.len(),
{
    if steps.len() > 0 && steps.last().order > order {
        let front = steps.drop_last();
        assert(ascending(front)) by {
            assert forall|i: int, j: int| 0 <= i < j < front.len() implies front[i].order
                <= front[j].order by {
                assert(front[i] == steps[i] && front[j] == steps[j]);
            }
        }
        lemma_slot(front, order);
        assert forall|j: int| 0 <= j < front.len() implies front[j] == steps[j] by {}
    }
}

/// The steps in dispatch order are the submitted steps, each as often as
/// it was submitted, and their orders ascend.
pub proof fn lemma_in_order(steps: Seq<ExecutionModel>)
    ensures
        ascending(in_order(steps)),
        in_order(steps).len() == steps.len(),
        in_order(steps).to_multiset() == steps.to_multiset(),
    decreases steps.len(),
{
    broadcast use vstd::seq_lib::group_to_multiset_ensures;

    if steps.len() == 0 {
    } else {
        let front = in_order(steps.drop_last());
        let x = steps.last();
        lemma_in_order(steps.drop_last());
        lemma_slot(front, x.order);
        let p = slot(front, x.order);
        let t = front.insert(p, x);
        assert forall|i: int, j: int| 0 <= i < j < t.len() implies t[i].order <= t[j].order by {
            let i0 = if i < p { i } else { i - 1 };
            let j0 = if j < p { j } else { j - 1 };
            if i != p && j != p {
                assert(t[i] == front[i0] && t[j] == front[j0]);
            } else if i == p {
                assert(t[j] == front[j0]);
            } else {
                assert(t[i] == front[i0]);
            }
        }
        vstd::seq_lib::to_multiset_insert(front, p, x);
        assert(steps =~= steps.drop_last().push(x));
        vstd::seq_lib::to_multiset_build(steps.drop_last(), x);
    }
}

/// The steps `executions` in the order in which they are dispatched.
pub fn sort_executions(executions: &Vec<ExecutionMsg>) -> (r: Vec<ExecutionMsg>)
    ensures
        models(r@) == in_order(models(executions@)),
{
    let ghost all = models(executions@);
    let mut out: Vec<ExecutionMsg> = Vec::new();
    let mut i: usize = 0;
    assert(all.take(0) =~= Seq::empty());
    assert(models(out@) =~= Seq::empty());
    while i < executions.len()
        invariant
            all == models(executions@),
            i <= executions.len(),
            out.len() == i,
            models(out@) == in_order(all.take(i as int)),
        decreases executions.len() - i,
    {
        let order = executions[i].order;
        let ghost front = models(out@);
        proof {
            lemma_in_order(all.take(i as int));
            assert(all.take(i + 1).drop_last() =~= all.take(i as int));
            assert(all.take(i + 1).last() == executions[i as int]@);
        }
        let mut p: usize = out.len();
        assert(front.take(p as int) =~= front);
        while p > 0 && out[p - 1].order > order
            invariant
                p <= out.len(),
                front == models(out@),
                slot(front, order) == slot(front.take(p as int), order),
            decreases p,
        {
            proof {
                assert(front.take(p as int).drop_last() =~= front.take(p - 1));
                assert(front.take(p as int).last() == out[p - 1]@);
            }
            p -= 1;
        }
        proof {
            assert(front.take(front.len() as int) =~= front);
            if p > 0 {
                assert(front.take(p as int).last() == out[p - 1]@);
            }
            assert(slot(front, order) == p);
        }
        out.insert(p, executions[i].duplicate());
        assert(models(out@) =~= front.insert(p as int, executions[i as int]@));
        i += 1;
    }
    assert(all.take(i as int) =~= all);
    out
}

/// The calls that dispatch `steps`, one for each step and in their order:
/// each hands the payload of a step to its target.
pub open spec fn dispatched(steps: Seq<ExecutionModel>) -> Seq<SubMsgModel> {
    steps.map_values(|e: ExecutionModel| plain_call(e.contract, CallModel::Raw { msg: e.msg }))
}

/// Dispatching steps of a proposal: only the contract itself may ask for
/// it. The steps are dispatched by ascending order.
pub open spec fn run_execution_spec(
    contract_address: Seq<char>,
    sender: Seq<char>,
    executions: Seq<ExecutionModel>,
) -> Result<ResponseModel, ErrorModel> {
    if contract_address != sender {
        Err(unauthorized())
    } else {
        Ok(
            ResponseModel {
                messages: dispatched(in_order(executions)),
                attributes: seq![("action"@, "run_execution"@)],
            },
        )
    }
}

/// Dispatches the steps `executions`.
pub fn run_execution(env: Env, info: MessageInfo, executions: Vec<ExecutionMsg>) -> (r:
    ContractResult<Response>)
    ensures
        responded(r, run_execution_spec(env.contract.address@, info.sender@, models(executions@))),
{
    if env.contract.address != info.sender {
        return Err(ContractError::Unauthorized {  });
    }
    let mut response = make_response("run_execution");
    let sorted = sort_executions(&executions);
    let ghost steps = models(sorted@);
    let mut i: usize = 0;
    assert(response@.messages =~= dispatched(steps.take(0)));
    while i < sorted.len()
        invariant
            steps == models(sorted@),
            i <= sorted.len(),
            response@.attributes == seq![("action"@, "run_execution"@)],
            response@.messages == dispatched(steps.take(i as int)),
        decreases sorted.len() - i,
    {
        let ghost before = response@.messages;
        response = response.add_submessage(
            SubMsg::new(sorted[i].contract.as_str(), Call::Raw { msg: sorted[i].msg.clone() }),
        );
        assert(sorted[i as int]@ == steps[i as int]);
        assert(response@.messages =~= dispatched(steps.take(i + 1)));
        i += 1;
    }
    assert(steps.take(i as int) =~= steps);
    Ok(response)
}

/// The call by which the contract has step number `count` of the poll
/// `poll` dispatched: it calls itself, and asks for the outcome.
pub open spec fn step_call(contract_address: Seq<char>, poll: PollModel, count: int) -> SubMsgModel {
    watched_call(
        contract_address,
        CallModel::RunExecution { executions: seq![in_order(poll.executions)[count]] },
        REPLY_EXECUTION,
    )
}

/// Going on with the execution of `poll`, of which `count` steps are
/// done. While a step is left, the cursor is stored and the next step is
/// dispatched. Once none is left, the poll is executed and the cursor is
/// cleared.
pub open spec fn advanced(
    s: StorageModel,
    contract_address: Seq<char>,
    poll: PollModel,
    count: u64,
    action: Seq<char>,
) -> (StorageModel, ResponseModel) {
    let attributes = seq![("action"@, action), ("poll_id"@, decimal_text(poll.id as nat))];
    if count >= poll.executions.len() {
        (
            StorageModel {
                poll_execution_context: None,
                ..with_status(s, poll, PollStatus::Executed)
            },
            ResponseModel { messages: Seq::empty(), attributes },
        )
    } else {
        (
            StorageModel {
                poll_execution_context: Some(
                    PollExecutionContext { poll_id: poll.id, execution_count: count },
                ),
                ..s
            },
            ResponseModel {
                messages: seq![step_call(contract_address, poll, count as int)],
                attributes,
            },
        )
    }
}

/// Goes on with the execution of `poll`, of which `count` steps are done.
fn advance(storage: &mut Storage, env: &Env, poll: Poll, count: u64, action: &str) -> (response:
    Response)
    requires
        old(storage).wf(),
        Poll::valid(poll@),
    ensures
        final(storage).wf(),
        (final(storage)@, response@) == advanced(
            old(storage)@,
            env.contract.address@,
            poll@,
            count,
            action@,
        ),
{
    let mut response = make_response(action);
    response = response.add_attribute("poll_id", u64_to_string(poll.id).as_str());
    let mut poll = poll;
    let ghost before = poll@;
    if count as u128 >= poll.executions.len() as u128 {
        poll.status = PollStatus::Executed;
        let _saved = poll.save_with_index(storage);
        PollExecutionContext::clear(storage);
        assert(response@.attributes =~= advanced(
            old(storage)@,
            env.contract.address@,
            before,
            count,
            action@,
        ).1.attributes);
        response
    } else {
        let steps = sort_executions(&poll_steps(&poll));
        proof {
            lemma_in_order(before.executions);
        }
        let step = steps[count as usize].duplicate();
        let mut one: Vec<ExecutionMsg> = Vec::new();
        one.push(step);
        assert(models(one@) =~= seq![in_order(before.executions)[count as int]]);
        let _saved = (PollExecutionContext { poll_id: poll.id, execution_count: count }).save(
            storage,
        );
        response = response.add_submessage(
            SubMsg::reply_always(
                env.contract.address.as_str(),
                Call::RunExecution { executions: one },
                REPLY_EXECUTION,
            ),
        );
        proof {
            let expected = advanced(old(storage)@, env.contract.address@, before, count, action@);
            assert(response@.attributes =~= expected.1.attributes);
            assert(response@.messages =~= expected.1.messages);
        }
        response
    }
}

/// The steps of `poll` in the form they are submitted in.
fn poll_steps(poll: &Poll) -> (r: Vec<ExecutionMsg>)
    ensures
        models(r@) == poll@.executions,
{
    let mut out: Vec<ExecutionMsg> = Vec::new();
    let mut i: usize = 0;
    while i < poll.executions.len()
        invariant
            i <= poll.executions.len(),
            out.len() == i,
            forall|j: int| 0 <= j < i ==> (#[trigger] out[j])@ == poll.executions[j]@,
        decreases poll.executions.len() - i,
    {
        out.push(poll.executions[i].to_msg());
        i += 1;
    }
    assert(models(out@) =~= models(poll.executions@));
    out
}

/// Starting the execution of the poll `poll_id`, or taking it up again
/// where it stopped: the poll must have passed, and the execution delay
/// period must have gone by since its end height. No execution of another
/// poll may be under way. Of each step that is done the cursor keeps
/// count, so that a step is never dispatched again.
pub open spec fn execute_poll_spec(
    s: StorageModel,
    contract_address: Seq<char>,
    height: u64,
    poll_id: u64,
) -> Result<(StorageModel, ResponseModel), ErrorModel> {
    match lookup::<Poll>(s.polls, poll_key(poll_id)) {
        None => Err(reason(StdError::PollNotFound)),
        Some(poll) => if poll.status != PollStatus::Passed {
            Err(reason(StdError::PollNotPassed))
        } else if s.poll_config is None {
            Err(missing(Kind::PollConfig))
        } else if height < poll.end_height + s.poll_config->0.execution_delay_period {
            Err(reason(StdError::ExecutionNotDue))
        } else {
            match s.poll_execution_context {
                None => Ok(advanced(s, contract_address, poll, 0, "execute_poll"@)),
                Some(context) => if context.poll_id != poll_id {
                    Err(reason(StdError::ExecutionInProgress))
                } else {
                    Ok(
                        advanced(
                            s,
                            contract_address,
                            poll,
                            context.execution_count,
                            "execute_poll"@,
                        ),
                    )
                },
            }
        },
    }
}

/// Starts the execution of the poll `poll_id`, or takes it up again.
pub fn execute_poll(storage: &mut Storage, env: Env, _info: MessageInfo, poll_id: u64) -> (r:
    ContractResult<Response>)
    requires
        old(storage).wf(),
    ensures
        final(storage).wf(),
        committed(
            old(storage)@,
            final(storage)@,
            r,
            execute_poll_spec(old(storage)@, env.contract.address@, env.block.height, poll_id),
        ),
{
    proof {
        lemma_lookup::<Poll>(storage@.polls, poll_key(poll_id));
    }
    let poll = match Poll::load(storage, &poll_id) {
        Ok(p) => p,
        Err(_) => {
            return Err(ContractError::Std(StdError::PollNotFound));
        },
    };
    if poll.status != PollStatus::Passed {
        return Err(ContractError::Std(StdError::PollNotPassed));
    }
    let config = match PollConfig::load(storage) {
        Ok(c) => c,
        Err(e) => {
            return Err(ContractError::Std(e));
        },
    };
    if (env.block.height as u128) < poll.end_height as u128 + config.execution_delay_period as u128 {
        return Err(ContractError::Std(StdError::ExecutionNotDue));
    }
    let count = match storage.poll_execution_context {
        None => 0,
        Some(context) => {
            if context.poll_id != poll_id {
                return Err(ContractError::Std(StdError::ExecutionInProgress));
            }
            context.execution_count
        },
    };
    Ok(advance(storage, &env, poll, count, "execute_poll"))
}

/// The outcome of a step comes back. A step that failed stops the
/// execution: its error is handed on, and the cursor stays where it is,
/// so that what was done is not done again. A step that succeeded is
/// counted, and the execution goes on.
pub open spec fn reply_execution_spec(
    s: StorageModel,
    contract_address: Seq<char>,
    error: Option<Seq<char>>,
) -> Result<(StorageModel, ResponseModel), ErrorModel> {
    match s.poll_execution_context {
        None => Err(missing(Kind::PollExecutionContext)),
        Some(context) => match error {
            Some(msg) => Err(ErrorModel::Text(msg)),
            None => match lookup::<Poll>(s.polls, poll_key(context.poll_id)) {
                None => Err(missing(Kind::Poll)),
                Some(poll) => if poll.status != PollStatus::Passed {
                    Err(reason(StdError::PollNotPassed))
                } else if context.execution_count == u64::MAX {
                    Err(sum_overflow(context.execution_count as u128, 1))
                } else {
                    Ok(
                        advanced(
                            s,
                            contract_address,
                            poll,
                            (context.execution_count + 1) as u64,
                            "reply_execution"@,
                        ),
                    )
                },
            },
        },
    }
}

/// Takes the outcome of an execution step.
pub fn reply_execution(storage: &mut Storage, env: Env, msg: Reply) -> (r: ContractResult<Response>)
    requires
        old(storage).wf(),
    ensures
        final(storage).wf(),
        committed(
            old(storage)@,
            final(storage)@,
            r,
            reply_execution_spec(old(storage)@, env.contract.address@, text_of(msg.error)),
        ),
{
    let context = match PollExecutionContext::load(storage) {
        Ok(c) => c,
        Err(e) => {
            return Err(ContractError::Std(e));
        },
    };
    if let Some(error) = msg.error {
        return Err(ContractError::Std(StdError::GenericErr { msg: error }));
    }
    proof {
        lemma_lookup::<Poll>(storage@.polls, poll_key(context.poll_id));
    }
    let poll = match Poll::load(storage, &context.poll_id) {
        Ok(p) => p,
        Err(e) => {
            return Err(ContractError::Std(e));
        },
    };
    if poll.status != PollStatus::Passed {
        return Err(ContractError::Std(StdError::PollNotPassed));
    }
    if context.execution_count == u64::MAX {
        return Err(
            ContractError::OverflowError(
                OverflowError::new(OverflowOperation::Add, context.execution_count as u128, 1),
            ),
        );
    }
    Ok(advance(storage, &env, poll, context.execution_count + 1, "reply_execution"))
}

} // verus!
