use terrapoker::common::executions as config_executions;
use terrapoker::common::states::ContractConfig;
use terrapoker::common::{
    attr, BlockInfo, Call, ContractInfo, ContractResult, Env, ExecutionMsg, Ledger, MessageInfo,
    OrderBy, Reply, ReplyOn, Response, SubMsg,
};
use terrapoker::decimal::Decimal;
use terrapoker::entrypoints;
use terrapoker::errors::{ContractError, Kind, OverflowError, OverflowOperation, StdError};
use terrapoker::governance::enumerations::{PollStatus, VoteOption};
use terrapoker::governance::execute_msgs::{
    ContractConfigInitMsg, Cw20HookMsg, Cw20ReceiveMsg, ExecuteMsg, InstantiateMsg,
    PollConfigInitMsg, StakingConfigInitMsg,
};
use terrapoker::governance::query_msgs::QueryMsg;
use terrapoker::poll::executions as poll_executions;
use terrapoker::poll::executions::{
    cast_vote, create_poll, end_poll, execute_poll, reply_execution, run_execution,
    update_poll_config, REPLY_EXECUTION,
};
use terrapoker::poll::queries::{get_poll, query_polls, query_voters};
use terrapoker::poll::states::{
    Poll, PollConfig, PollExecutionContext, PollResult, PollState, VoteInfo,
};
use terrapoker::staking::executions as staking_executions;
use terrapoker::staking::executions::{
    claim_unstaked_token, stake_token, stake_token_hook, unstake_token, unstake_token_hook,
    update_staking_config,
};
use terrapoker::staking::queries::{
    get_all_stakers, get_simulate_stake_amount, get_simulate_unstake_amount, get_staker_state,
    get_voting_power, simulate_stake_amount,
};
use terrapoker::staking::states::{StakerState, StakingConfig, StakingState};
use terrapoker::storage::Storage;

const GOVERNANCE: &str = "governance";
const GOVERNANCE_TOKEN: &str = "governance_token";
const STAKING_TOKEN: &str = "staking_token";
const DEFAULT_SENDER: &str = "terra1sender";
const PROPOSER1: &str = "Proposer1";
const VOTER1: &str = "Voter1";
const VOTER2: &str = "Voter2";
const VOTER3: &str = "Voter3";
const STAKER1: &str = "Staker1";
const STAKER2: &str = "Staker2";
const STAKER1_STAKE_AMOUNT: u128 = 100;
const STAKER2_STAKE_AMOUNT: u128 = 100;
const GOVERNANCE_HEIGHT: u64 = 12345;
const POLL_QUORUM_PERCENT: u64 = 10;
const POLL_THRESHOLD_PERCENT: u64 = 50;
const POLL_VOTING_PERIOD: u64 = 20000;
const POLL_EXECUTION_DELAY_PERIOD: u64 = 10000;
const POLL_PROPOSAL_DEPOSIT: u128 = 100;
const UNSTAKE_LOCK_PERIOD: u64 = 50;

fn governance_env_height(height: u64) -> Env {
    Env {
        block: BlockInfo { height },
        contract: ContractInfo { address: GOVERNANCE.to_string() },
    }
}

fn governance_env() -> Env {
    governance_env_height(GOVERNANCE_HEIGHT)
}

fn mock_info(sender: &str) -> MessageInfo {
    MessageInfo { sender: sender.to_string() }
}

fn default_sender() -> MessageInfo {
    mock_info(DEFAULT_SENDER)
}

fn governance_sender() -> MessageInfo {
    mock_info(GOVERNANCE)
}

fn ledger(supply: u128, balance: u128, staking: u128) -> Ledger {
    Ledger {
        gov_token_total_supply: supply,
        gov_token_balance: balance,
        staking_token_balance: staking,
    }
}

fn init_default(storage: &mut Storage) -> (Env, MessageInfo) {
    let env = governance_env();
    let info = default_sender();
    let msg = InstantiateMsg {
        contract_config: ContractConfigInitMsg {
            governance_token: GOVERNANCE_TOKEN.to_string(),
            staking_token: STAKING_TOKEN.to_string(),
        },
        poll_config: PollConfigInitMsg {
            quorum: Decimal::percent(POLL_QUORUM_PERCENT),
            threshold: Decimal::percent(POLL_THRESHOLD_PERCENT),
            voting_period: POLL_VOTING_PERIOD,
            execution_delay_period: POLL_EXECUTION_DELAY_PERIOD,
            proposal_deposit: POLL_PROPOSAL_DEPOSIT,
        },
        staking_config: StakingConfigInitMsg {
            distributor: None,
            unstake_lock_period: UNSTAKE_LOCK_PERIOD,
        },
    };
    entrypoints::instantiate(storage, governance_env(), default_sender(), msg).unwrap();
    (env, info)
}

fn expect_generic_err(result: &ContractResult<Response>, expected: &str) {
    match result {
        Err(ContractError::Std(e)) => assert_eq!(e.to_string(), expected),
        _ => panic!("expected an error with the message {:?}, got {:?}", expected, result),
    }
}

fn expect_unauthorized_err(result: &ContractResult<Response>) {
    assert_eq!(result, &Err(ContractError::Unauthorized {}));
}

fn create_poll_with(
    storage: &mut Storage,
    supply: u128,
    executions: Vec<ExecutionMsg>,
) -> Response {
    create_poll(
        storage,
        governance_env(),
        mock_info(GOVERNANCE_TOKEN),
        PROPOSER1.to_string(),
        POLL_PROPOSAL_DEPOSIT,
        "title".to_string(),
        "description".to_string(),
        None,
        executions,
        supply,
    )
    .unwrap()
}

fn create_default_poll(storage: &mut Storage, supply: u128) -> Response {
    create_poll_with(storage, supply, vec![])
}

fn vote_will_success(
    storage: &mut Storage,
    voter: &str,
    poll_id: u64,
    option: VoteOption,
    amount: u128,
) -> Response {
    cast_vote(storage, governance_env(), mock_info(voter), poll_id, option, amount, 100).unwrap()
}

fn end_poll_will_success(storage: &mut Storage, poll_id: u64) -> Response {
    let poll = Poll::load(storage, &poll_id).unwrap();
    end_poll(storage, governance_env_height(poll.end_height + 1), default_sender(), poll_id)
        .unwrap()
}

fn end_poll_attributes(poll_id: u64, result: PollResult, passed: &str) -> Vec<terrapoker::common::Attribute> {
    vec![
        attr("action", "end_poll"),
        attr("poll_id", &poll_id.to_string()),
        attr("result", &result.to_string()),
        attr("passed", passed),
    ]
}

fn refund_to_proposer() -> Vec<SubMsg> {
    vec![SubMsg::new(
        GOVERNANCE_TOKEN,
        Call::Transfer { recipient: PROPOSER1.to_string(), amount: POLL_PROPOSAL_DEPOSIT },
    )]
}

#[test]
fn instantiate_succeed() {
    let mut storage = Storage::new();
    let (env, _) = init_default(&mut storage);

    let contract_config = ContractConfig::load(&storage).unwrap();
    assert_eq!(GOVERNANCE_TOKEN, contract_config.governance_token.as_str());
    assert_eq!(STAKING_TOKEN, contract_config.staking_token.as_str());
    assert_eq!(env.contract.address, contract_config.address);

    let poll_config = PollConfig::load(&storage).unwrap();
    assert_eq!(poll_config.quorum, Decimal::percent(POLL_QUORUM_PERCENT));
    assert_eq!(poll_config.threshold, Decimal::percent(POLL_THRESHOLD_PERCENT));
    assert_eq!(poll_config.voting_period, POLL_VOTING_PERIOD);
    assert_eq!(poll_config.execution_delay_period, POLL_EXECUTION_DELAY_PERIOD);
    assert_eq!(poll_config.proposal_deposit, POLL_PROPOSAL_DEPOSIT);

    let poll_state = PollState::load(&storage).unwrap();
    assert_eq!(poll_state.poll_count, 0);
    assert_eq!(poll_state.total_deposit, 0);

    let staking_state = StakingState::load(&storage).unwrap();
    assert_eq!(staking_state.total_unstake_locked, 0);
    let staking_config = StakingConfig::load(&storage).unwrap();
    assert_eq!(staking_config.distributor, None);
    assert_eq!(staking_config.unstake_lock_period, UNSTAKE_LOCK_PERIOD);
}

#[test]
fn contract_config_instantiate_succeed() {
    let mut storage = Storage::new();
    let response = config_executions::instantiate(
        &mut storage,
        governance_env(),
        default_sender(),
        ContractConfigInitMsg {
            governance_token: GOVERNANCE_TOKEN.to_string(),
            staking_token: STAKING_TOKEN.to_string(),
        },
    )
    .unwrap();
    assert_eq!(response.attributes, vec![attr("action", "instantiate")]);
    let contract_config = ContractConfig::load(&storage).unwrap();
    assert_eq!(GOVERNANCE_TOKEN, contract_config.governance_token.as_str());
    assert_eq!(STAKING_TOKEN, contract_config.staking_token.as_str());
    assert_eq!(GOVERNANCE, contract_config.address.as_str());
    assert!(contract_config.is_governance_token(&GOVERNANCE_TOKEN.to_string()));
    assert!(!contract_config.is_governance_token(&STAKING_TOKEN.to_string()));
    assert!(contract_config.is_staking_token(&STAKING_TOKEN.to_string()));
}

#[test]
fn staking_instantiate_succeed() {
    let mut storage = Storage::new();
    staking_executions::instantiate(
        &mut storage,
        governance_env(),
        default_sender(),
        StakingConfigInitMsg { distributor: None, unstake_lock_period: UNSTAKE_LOCK_PERIOD },
    )
    .unwrap();
    let staking_state = StakingState::load(&storage).unwrap();
    assert_eq!(staking_state.total_unstake_locked, 0);
}

fn poll_instantiate(
    storage: &mut Storage,
    quorum: Decimal,
    threshold: Decimal,
    execution_delay_period: u64,
) -> ContractResult<Response> {
    poll_executions::instantiate(
        storage,
        governance_env(),
        default_sender(),
        PollConfigInitMsg {
            quorum,
            threshold,
            voting_period: POLL_VOTING_PERIOD,
            execution_delay_period,
            proposal_deposit: POLL_PROPOSAL_DEPOSIT,
        },
    )
}

#[test]
fn poll_instantiate_succeed() {
    let mut storage = Storage::new();
    poll_instantiate(
        &mut storage,
        Decimal::percent(POLL_QUORUM_PERCENT),
        Decimal::percent(POLL_THRESHOLD_PERCENT),
        POLL_EXECUTION_DELAY_PERIOD,
    )
    .unwrap();
    let poll_config = PollConfig::load(&storage).unwrap();
    assert_eq!(poll_config.quorum, Decimal::percent(POLL_QUORUM_PERCENT));
    assert_eq!(poll_config.threshold, Decimal::percent(POLL_THRESHOLD_PERCENT));
    assert_eq!(poll_config.voting_period, POLL_VOTING_PERIOD);
    assert_eq!(poll_config.execution_delay_period, POLL_EXECUTION_DELAY_PERIOD);
    assert_eq!(poll_config.proposal_deposit, POLL_PROPOSAL_DEPOSIT);
    let poll_state = PollState::load(&storage).unwrap();
    assert_eq!(poll_state.poll_count, 0);
    assert_eq!(poll_state.total_deposit, 0);
}

#[test]
fn instantiate_failed_invalid_threshold() {
    let mut storage = Storage::new();
    let result = poll_instantiate(
        &mut storage,
        Decimal::percent(POLL_QUORUM_PERCENT),
        Decimal::percent(101),
        POLL_EXECUTION_DELAY_PERIOD,
    );
    expect_generic_err(&result, "threshold must be 0 to 1");
    assert!(PollConfig::load(&storage).is_err());
}

#[test]
fn instantiate_failed_invalid_quorum() {
    let mut storage = Storage::new();
    let result = poll_instantiate(
        &mut storage,
        Decimal::percent(101),
        Decimal::percent(POLL_THRESHOLD_PERCENT),
        POLL_EXECUTION_DELAY_PERIOD,
    );
    expect_generic_err(&result, "quorum must be 0 to 1");
}

#[test]
fn instantiate_failed_invalid_execution_delay_period() {
    let mut storage = Storage::new();
    let result = poll_instantiate(
        &mut storage,
        Decimal::percent(POLL_QUORUM_PERCENT),
        Decimal::percent(POLL_THRESHOLD_PERCENT),
        999,
    );
    expect_generic_err(&result, "execution_delay_period must be greater than 1000");
    assert_eq!(result, Err(ContractError::Std(StdError::ExecutionDelayTooShort)));
}

#[test]
fn instantiate_rejects_the_minimum_delay_itself() {
    let mut storage = Storage::new();
    let at_minimum = poll_instantiate(
        &mut storage,
        Decimal::percent(POLL_QUORUM_PERCENT),
        Decimal::percent(POLL_THRESHOLD_PERCENT),
        1000,
    );
    assert_eq!(at_minimum, Err(ContractError::Std(StdError::ExecutionDelayTooShort)));
    let above = poll_instantiate(
        &mut storage,
        Decimal::one(),
        Decimal::zero(),
        1001,
    );
    assert!(above.is_ok());
}

#[test]
fn instantiate_with_invalid_rules_stores_nothing() {
    let mut storage = Storage::new();
    let msg = InstantiateMsg {
        contract_config: ContractConfigInitMsg {
            governance_token: GOVERNANCE_TOKEN.to_string(),
            staking_token: STAKING_TOKEN.to_string(),
        },
        poll_config: PollConfigInitMsg {
            quorum: Decimal::percent(POLL_QUORUM_PERCENT),
            threshold: Decimal::percent(POLL_THRESHOLD_PERCENT),
            voting_period: POLL_VOTING_PERIOD,
            execution_delay_period: 1,
            proposal_deposit: POLL_PROPOSAL_DEPOSIT,
        },
        staking_config: StakingConfigInitMsg { distributor: None, unstake_lock_period: 1 },
    };
    let result = entrypoints::instantiate(&mut storage, governance_env(), default_sender(), msg);
    assert!(result.is_err());
    assert!(ContractConfig::load(&storage).is_err());
    assert!(StakingConfig::load(&storage).is_err());
    assert_eq!(
        PollConfig::load(&storage),
        Err(StdError::NotFound { kind: Kind::PollConfig })
    );
}

fn update_config_exec(
    storage: &mut Storage,
    info: MessageInfo,
    quorum: Option<Decimal>,
    threshold: Option<Decimal>,
    voting_period: Option<u64>,
    execution_delay_period: Option<u64>,
    proposal_deposit: Option<u128>,
) -> ContractResult<Response> {
    update_poll_config(
        storage,
        governance_env(),
        info,
        quorum,
        threshold,
        voting_period,
        execution_delay_period,
        proposal_deposit,
    )
}

#[test]
fn update_config_succeed() {
    let mut storage = Storage::new();
    init_default(&mut storage);

    let quorum = Decimal::percent(POLL_QUORUM_PERCENT / 2);
    let threshold = Decimal::percent(POLL_THRESHOLD_PERCENT / 2);
    let voting_period = POLL_VOTING_PERIOD + 100;
    let execution_delay_period = POLL_EXECUTION_DELAY_PERIOD + 100;
    let proposal_deposit = POLL_PROPOSAL_DEPOSIT + 100;

    let response = update_config_exec(
        &mut storage,
        mock_info(GOVERNANCE),
        Some(quorum),
        Some(threshold),
        Some(voting_period),
        Some(execution_delay_period),
        Some(proposal_deposit),
    )
    .unwrap();
    assert_eq!(
        response.attributes,
        vec![
            attr("action", "update_poll_config"),
            attr("is_updated_quorum", "true"),
            attr("is_updated_threshold", "true"),
            attr("is_updated_voting_period", "true"),
            attr("is_updated_execution_delay_period", "true"),
            attr("is_updated_proposal_deposit", "true"),
        ]
    );

    let config = PollConfig::load(&storage).unwrap();
    assert_eq!(config.quorum, quorum);
    assert_ne!(config.quorum, Decimal::percent(POLL_QUORUM_PERCENT));
    assert_eq!(config.threshold, threshold);
    assert_ne!(config.threshold, Decimal::percent(POLL_THRESHOLD_PERCENT));
    assert_eq!(config.voting_period, voting_period);
    assert_ne!(config.voting_period, POLL_VOTING_PERIOD);
    assert_eq!(config.execution_delay_period, execution_delay_period);
    assert_ne!(config.execution_delay_period, POLL_EXECUTION_DELAY_PERIOD);
    assert_eq!(config.proposal_deposit, proposal_deposit);
    assert_ne!(config.proposal_deposit, POLL_PROPOSAL_DEPOSIT);
}

#[test]
fn update_config_changes_only_what_is_given() {
    let mut storage = Storage::new();
    init_default(&mut storage);
    let response = update_config_exec(
        &mut storage,
        mock_info(GOVERNANCE),
        None,
        None,
        Some(7),
        None,
        None,
    )
    .unwrap();
    assert_eq!(
        response.attributes,
        vec![attr("action", "update_poll_config"), attr("is_updated_voting_period", "true")]
    );
    let config = PollConfig::load(&storage).unwrap();
    assert_eq!(config.quorum, Decimal::percent(POLL_QUORUM_PERCENT));
    assert_eq!(config.voting_period, 7);
    assert_eq!(config.proposal_deposit, POLL_PROPOSAL_DEPOSIT);
}

#[test]
fn update_config_failed_invalid_threshold() {
    let mut storage = Storage::new();
    init_default(&mut storage);
    let result = update_config_exec(
        &mut storage,
        mock_info(GOVERNANCE),
        Some(Decimal::percent(POLL_QUORUM_PERCENT)),
        Some(Decimal::percent(101)),
        Some(POLL_VOTING_PERIOD),
        Some(POLL_EXECUTION_DELAY_PERIOD),
        Some(POLL_PROPOSAL_DEPOSIT),
    );
    expect_generic_err(&result, "threshold must be 0 to 1");
}

#[test]
fn update_config_failed_invalid_quorum() {
    let mut storage = Storage::new();
    init_default(&mut storage);
    let result = update_config_exec(
        &mut storage,
        mock_info(GOVERNANCE),
        Some(Decimal::percent(101)),
        Some(Decimal::percent(POLL_THRESHOLD_PERCENT)),
        Some(POLL_VOTING_PERIOD),
        Some(POLL_EXECUTION_DELAY_PERIOD),
        Some(POLL_PROPOSAL_DEPOSIT),
    );
    expect_generic_err(&result, "quorum must be 0 to 1");
}

#[test]
fn update_config_failed_invalid_execution_delay_period() {
    let mut storage = Storage::new();
    init_default(&mut storage);
    let result = update_config_exec(
        &mut storage,
        mock_info(GOVERNANCE),
        Some(Decimal::percent(POLL_QUORUM_PERCENT)),
        Some(Decimal::percent(POLL_THRESHOLD_PERCENT)),
        Some(POLL_VOTING_PERIOD),
        Some(999),
        Some(POLL_PROPOSAL_DEPOSIT),
    );
    expect_generic_err(&result, "execution_delay_period must be greater than 1000");
    let config = PollConfig::load(&storage).unwrap();
    assert_eq!(config.execution_delay_period, POLL_EXECUTION_DELAY_PERIOD);
}

#[test]
fn update_config_failed_invalid_permission() {
    let mut storage = Storage::new();
    init_default(&mut storage);
    let result =
        update_config_exec(&mut storage, default_sender(), None, None, None, None, None);
    expect_unauthorized_err(&result);
}

#[test]
fn update_staking_config_by_the_contract_only() {
    let mut storage = Storage::new();
    init_default(&mut storage);
    let refused = update_staking_config(
        &mut storage,
        governance_env(),
        default_sender(),
        Some("distributor".to_string()),
        Some(9),
    );
    expect_unauthorized_err(&refused);
    assert_eq!(StakingConfig::load(&storage).unwrap().distributor, None);

    let response = update_staking_config(
        &mut storage,
        governance_env(),
        governance_sender(),
        Some("distributor".to_string()),
        Some(9),
    )
    .unwrap();
    assert_eq!(
        response.attributes,
        vec![
            attr("action", "update_staking_config"),
            attr("is_updated_distributor", "true"),
            attr("is_updated_unstake_lock_period", "true"),
        ]
    );
    let config = StakingConfig::load(&storage).unwrap();
    assert_eq!(config.distributor, Some("distributor".to_string()));
    assert_eq!(config.unstake_lock_period, 9);
}

#[test]
fn create_poll_assigns_ids_in_sequence() {
    let mut storage = Storage::new();
    init_default(&mut storage);
    let response = create_default_poll(&mut storage, 300);
    assert_eq!(
        response.attributes,
        vec![
            attr("action", "create_poll"),
            attr("creator", PROPOSER1),
            attr("poll_id", "1"),
            attr("end_height", &(GOVERNANCE_HEIGHT + POLL_VOTING_PERIOD).to_string()),
        ]
    );
    create_default_poll(&mut storage, 400);
    let first = Poll::load(&storage, &1).unwrap();
    let second = Poll::load(&storage, &2).unwrap();
    assert_eq!(first.id, 1);
    assert_eq!(first.status, PollStatus::InProgress);
    assert_eq!(first.start_height, GOVERNANCE_HEIGHT);
    assert_eq!(first.end_height, GOVERNANCE_HEIGHT + POLL_VOTING_PERIOD);
    assert_eq!(first.total_balance_at_start_poll, 300);
    assert_eq!(first.creator, PROPOSER1);
    assert_eq!(first.deposit_amount, POLL_PROPOSAL_DEPOSIT);
    assert_eq!((first.yes_votes, first.no_votes, first.abstain_votes), (0, 0, 0));
    assert_eq!(second.id, 2);
    assert_eq!(second.total_balance_at_start_poll, 400);
    let state = PollState::load(&storage).unwrap();
    assert_eq!(state.poll_count, 2);
    assert_eq!(state.total_deposit, 2 * POLL_PROPOSAL_DEPOSIT);
    assert_eq!(Poll::load(&storage, &3), Err(StdError::NotFound { kind: Kind::Poll }));
}

#[test]
fn create_poll_needs_the_deposit_and_the_token() {
    let mut storage = Storage::new();
    init_default(&mut storage);
    let low = create_poll(
        &mut storage,
        governance_env(),
        mock_info(GOVERNANCE_TOKEN),
        PROPOSER1.to_string(),
        POLL_PROPOSAL_DEPOSIT - 1,
        "title".to_string(),
        "description".to_string(),
        Some("link".to_string()),
        vec![],
        300,
    );
    assert_eq!(low, Err(ContractError::Std(StdError::InsufficientDeposit)));
    let other_token = create_poll(
        &mut storage,
        governance_env(),
        mock_info(STAKING_TOKEN),
        PROPOSER1.to_string(),
        POLL_PROPOSAL_DEPOSIT,
        "title".to_string(),
        "description".to_string(),
        None,
        vec![],
        300,
    );
    expect_unauthorized_err(&other_token);
    assert_eq!(PollState::load(&storage).unwrap().poll_count, 0);
}

#[test]
fn succeed_passed() {
    let mut storage = Storage::new();
    init_default(&mut storage);
    create_default_poll(&mut storage, 300);
    let poll_id = 1u64;

    vote_will_success(&mut storage, VOTER1, poll_id, VoteOption::Yes, 100);
    vote_will_success(&mut storage, VOTER2, poll_id, VoteOption::No, 30);
    vote_will_success(&mut storage, VOTER3, poll_id, VoteOption::Abstain, 100);

    let response = end_poll_will_success(&mut storage, poll_id);
    assert_eq!(response.messages, refund_to_proposer());
    assert_eq!(response.attributes, end_poll_attributes(poll_id, PollResult::Passed, "true"));

    let poll = Poll::load(&storage, &poll_id).unwrap();
    assert_eq!(poll.status, PollStatus::Passed);
}

#[test]
fn succeed_rejected_threshold_not_reached() {
    let mut storage = Storage::new();
    init_default(&mut storage);
    create_default_poll(&mut storage, 300);
    let poll_id = 1u64;

    vote_will_success(&mut storage, VOTER1, poll_id, VoteOption::Yes, 30);
    vote_will_success(&mut storage, VOTER2, poll_id, VoteOption::No, 100);
    vote_will_success(&mut storage, VOTER3, poll_id, VoteOption::Abstain, 10);

    let response = end_poll_will_success(&mut storage, poll_id);
    // the deposit of a rejected poll stays with the contract
    assert!(response.messages.is_empty());
    assert_eq!(
        response.attributes,
        vec![
            attr("action", "end_poll"),
            attr("poll_id", &poll_id.to_string()),
            attr("result", &PollResult::ThresholdNotReached.to_string()),
            attr("passed", "false"),
        ]
    );

    let poll = Poll::load(&storage, &poll_id).unwrap();
    assert_eq!(poll.status, PollStatus::Rejected);
}

#[test]
fn succeed_rejected_quorum_not_reached() {
    let mut storage = Storage::new();
    init_default(&mut storage);
    create_default_poll(&mut storage, 300);
    let poll_id = 1u64;

    vote_will_success(&mut storage, VOTER1, poll_id, VoteOption::Yes, 1);

    let response = end_poll_will_success(&mut storage, poll_id);
    assert!(response.messages.is_empty());

    let poll = Poll::load(&storage, &poll_id).unwrap();
    assert_eq!(poll.status, PollStatus::Rejected);
    assert_eq!(
        response.attributes,
        vec![
            attr("action", "end_poll"),
            attr("poll_id", &poll_id.to_string()),
            attr("result", &PollResult::QuorumNotReached.to_string()),
            attr("passed", "false"),
        ]
    );
}

#[test]
fn succeed_rejected_zero_quorum() {
    let mut storage = Storage::new();
    init_default(&mut storage);
    create_default_poll(&mut storage, 300);
    let poll_id = 1u64;

    let response = end_poll_will_success(&mut storage, poll_id);
    assert!(response.messages.is_empty());

    let poll = Poll::load(&storage, &poll_id).unwrap();
    assert_eq!(poll.status, PollStatus::Rejected);
    assert_eq!(
        response.attributes,
        vec![
            attr("action", "end_poll"),
            attr("poll_id", &poll_id.to_string()),
            attr("result", &PollResult::QuorumNotReached.to_string()),
            attr("passed", "false"),
        ]
    );
}

#[test]
fn succeed_end_poll_with_controlled_quorum() {
    // a quorum of exactly the configured share is reached; one atomic unit less is not
    let mut storage = Storage::new();
    init_default(&mut storage);
    create_default_poll(&mut storage, 1000);
    create_default_poll(&mut storage, 1001);
    cast_vote(&mut storage, governance_env(), mock_info(VOTER1), 1, VoteOption::Yes, 100, 100)
        .unwrap();
    cast_vote(&mut storage, governance_env(), mock_info(VOTER2), 2, VoteOption::Yes, 100, 100)
        .unwrap();
    let exact = end_poll_will_success(&mut storage, 1);
    assert_eq!(exact.attributes, end_poll_attributes(1, PollResult::Passed, "true"));
    let short = end_poll_will_success(&mut storage, 2);
    assert_eq!(short.attributes, end_poll_attributes(2, PollResult::QuorumNotReached, "false"));
}

#[test]
fn succeed_rejected_nothing_staked() {
    let mut storage = Storage::new();
    init_default(&mut storage);
    create_default_poll(&mut storage, 0);
    let poll_id = 1u64;

    let response = end_poll_will_success(&mut storage, poll_id);
    assert!(response.messages.is_empty());

    let poll = Poll::load(&storage, &poll_id).unwrap();
    assert_eq!(poll.status, PollStatus::Rejected);
    assert_eq!(
        response.attributes,
        vec![
            attr("action", "end_poll"),
            attr("poll_id", &poll_id.to_string()),
            attr("result", &PollResult::QuorumNotReached.to_string()),
            attr("passed", "false"),
        ]
    );
}

#[test]
fn failed_before_end_height() {
    let mut storage = Storage::new();
    init_default(&mut storage);
    create_default_poll(&mut storage, 300);
    let poll_id = 1u64;

    let result = end_poll(&mut storage, governance_env(), default_sender(), poll_id);
    expect_generic_err(&result, "Voting period has not expired");
    assert_eq!(result, Err(ContractError::Std(StdError::VotingNotYetClosed)));

    // the end height itself is still within the voting period
    let poll = Poll::load(&storage, &poll_id).unwrap();
    let at_end =
        end_poll(&mut storage, governance_env_height(poll.end_height), default_sender(), poll_id);
    assert_eq!(at_end, Err(ContractError::Std(StdError::VotingNotYetClosed)));
    assert_eq!(Poll::load(&storage, &poll_id).unwrap().status, PollStatus::InProgress);
}

#[test]
fn end_poll_twice_or_of_no_poll_fails() {
    let mut storage = Storage::new();
    init_default(&mut storage);
    create_default_poll(&mut storage, 300);
    end_poll_will_success(&mut storage, 1);
    let late = governance_env_height(GOVERNANCE_HEIGHT + POLL_VOTING_PERIOD + 1);
    let again = end_poll(&mut storage, late, default_sender(), 1);
    assert_eq!(again, Err(ContractError::Std(StdError::PollNotInProgress)));
    let late = governance_env_height(GOVERNANCE_HEIGHT + POLL_VOTING_PERIOD + 1);
    let missing = end_poll(&mut storage, late, default_sender(), 2);
    assert_eq!(missing, Err(ContractError::Std(StdError::PollNotFound)));
    expect_generic_err(&missing, "Poll does not exist");
}

#[test]
fn threshold_is_strict_and_ignores_abstentions() {
    // yes and no are level: the share of yes is exactly the threshold, which is not enough
    let mut storage = Storage::new();
    init_default(&mut storage);
    create_default_poll(&mut storage, 300);
    vote_will_success(&mut storage, VOTER1, 1, VoteOption::Yes, 50);
    vote_will_success(&mut storage, VOTER2, 1, VoteOption::No, 50);
    vote_will_success(&mut storage, VOTER3, 1, VoteOption::Abstain, 100);
    let response = end_poll_will_success(&mut storage, 1);
    assert_eq!(
        response.attributes,
        end_poll_attributes(1, PollResult::ThresholdNotReached, "false")
    );

    // abstentions alone reach the quorum and nothing else
    create_default_poll(&mut storage, 300);
    vote_will_success(&mut storage, VOTER1, 2, VoteOption::Abstain, 100);
    let poll = Poll::load(&storage, &2).unwrap();
    assert_eq!(
        poll.get_result(&storage),
        Ok((PollResult::ThresholdNotReached, 300))
    );

    // one more yes than no passes
    create_default_poll(&mut storage, 300);
    vote_will_success(&mut storage, VOTER2, 3, VoteOption::Yes, 51);
    vote_will_success(&mut storage, VOTER3, 3, VoteOption::No, 50);
    let poll = Poll::load(&storage, &3).unwrap();
    assert_eq!(poll.get_result(&storage), Ok((PollResult::Passed, 300)));
}

#[test]
fn round_trip_of_a_poll() {
    let mut storage = Storage::new();
    init_default(&mut storage);
    create_default_poll(&mut storage, 300);
    let poll_id = 1u64;
    let response = vote_will_success(&mut storage, VOTER1, poll_id, VoteOption::Yes, 70);
    assert_eq!(
        response.attributes,
        vec![
            attr("action", "cast_vote"),
            attr("poll_id", "1"),
            attr("amount", "70"),
            attr("voter", VOTER1),
            attr("vote_option", "yes"),
        ]
    );
    vote_will_success(&mut storage, VOTER2, poll_id, VoteOption::No, 20);
    vote_will_success(&mut storage, VOTER3, poll_id, VoteOption::Abstain, 5);

    let during = get_poll(&storage, governance_env(), poll_id).unwrap();
    assert_eq!((during.yes_votes, during.no_votes, during.abstain_votes), (70, 20, 5));
    assert_eq!(during.status, PollStatus::InProgress);

    end_poll_will_success(&mut storage, poll_id);
    let after = get_poll(&storage, governance_env(), poll_id).unwrap();
    assert_eq!(after.yes_votes, 70);
    assert_eq!(after.no_votes, 20);
    assert_eq!(after.abstain_votes, 5);
    assert_eq!(after.status, PollStatus::Passed);
    assert_eq!(after.id, poll_id);
    assert_eq!(after.creator, PROPOSER1);
    assert_eq!(after.total_balance_at_start_poll, 300);

    let missing = get_poll(&storage, governance_env(), 9);
    assert_eq!(missing.unwrap_err(), ContractError::Std(StdError::PollNotFound));
}

#[test]
fn double_vote_is_rejected() {
    let mut storage = Storage::new();
    init_default(&mut storage);
    create_default_poll(&mut storage, 300);
    vote_will_success(&mut storage, VOTER1, 1, VoteOption::Yes, 10);
    let again =
        cast_vote(&mut storage, governance_env(), mock_info(VOTER1), 1, VoteOption::No, 1, 100);
    assert_eq!(again, Err(ContractError::Std(StdError::AlreadyVoted)));
    expect_generic_err(&again, "User has already voted.");
    let poll = Poll::load(&storage, &1).unwrap();
    assert_eq!((poll.yes_votes, poll.no_votes), (10, 0));
    assert!(poll.is_voted(&storage, &VOTER1.to_string()));
    assert!(!poll.is_voted(&storage, &VOTER2.to_string()));
    let vote = poll.load_voter(&storage, &VOTER1.to_string()).unwrap();
    assert_eq!(
        vote,
        VoteInfo { voter: VOTER1.to_string(), option: VoteOption::Yes, amount: 10 }
    );
    assert_eq!(
        poll.load_voter(&storage, &VOTER2.to_string()),
        Err(StdError::NotFound { kind: Kind::VoteInfo })
    );
}

#[test]
fn vote_needs_an_open_poll() {
    let mut storage = Storage::new();
    init_default(&mut storage);
    create_default_poll(&mut storage, 300);
    let missing =
        cast_vote(&mut storage, governance_env(), mock_info(VOTER1), 2, VoteOption::Yes, 1, 100);
    assert_eq!(missing, Err(ContractError::Std(StdError::PollNotFound)));
    let end_height = GOVERNANCE_HEIGHT + POLL_VOTING_PERIOD;
    let at_end = cast_vote(
        &mut storage,
        governance_env_height(end_height),
        mock_info(VOTER1),
        1,
        VoteOption::Yes,
        1,
        100,
    );
    assert!(at_end.is_ok());
    let late = cast_vote(
        &mut storage,
        governance_env_height(end_height + 1),
        mock_info(VOTER2),
        1,
        VoteOption::Yes,
        1,
        100,
    );
    assert_eq!(late, Err(ContractError::Std(StdError::VotingClosed)));
    end_poll_will_success(&mut storage, 1);
    let decided =
        cast_vote(&mut storage, governance_env(), mock_info(VOTER3), 1, VoteOption::Yes, 1, 100);
    assert_eq!(decided, Err(ContractError::Std(StdError::VotingClosed)));
    expect_generic_err(&decided, "Poll is not in progress");
}

#[test]
fn votes_lock_the_largest_amount_and_spend_the_balance() {
    let mut storage = Storage::new();
    init_default(&mut storage);
    create_default_poll(&mut storage, 300);
    create_default_poll(&mut storage, 300);
    create_default_poll(&mut storage, 300);
    vote_will_success(&mut storage, VOTER1, 1, VoteOption::Yes, 30);
    vote_will_success(&mut storage, VOTER1, 2, VoteOption::No, 50);

    let state = get_staker_state(&storage, governance_env(), VOTER1.to_string()).unwrap();
    assert_eq!(state.votes.len(), 2);
    assert_eq!(state.locked_balance, 50);
    let staker = StakerState::load_safe(&storage, &VOTER1.to_string()).unwrap();
    assert_eq!(staker.get_vote_locked_balance(), 50);
    assert!(staker.can_vote(100, 20));
    assert!(!staker.can_vote(100, 21));

    // 30 and 50 are spent: 21 more than the balance of 100 covers
    let too_much =
        cast_vote(&mut storage, governance_env(), mock_info(VOTER1), 3, VoteOption::Yes, 21, 100);
    assert_eq!(too_much, Err(ContractError::Std(StdError::InsufficientBalance)));
    expect_generic_err(&too_much, "User does not have enough staked tokens.");
    vote_will_success(&mut storage, VOTER1, 3, VoteOption::Yes, 20);
    let state = get_staker_state(&storage, governance_env(), VOTER1.to_string()).unwrap();
    assert_eq!(state.locked_balance, 50);
    assert_eq!(state.votes.iter().map(|v| v.1.amount).sum::<u128>(), 100);
}

#[test]
fn remove_completed_vote() {
    let mut storage = Storage::new();
    init_default(&mut storage);
    create_default_poll(&mut storage, 300);
    create_default_poll(&mut storage, 300);
    vote_will_success(&mut storage, VOTER1, 1, VoteOption::Yes, 60);
    vote_will_success(&mut storage, VOTER1, 2, VoteOption::Yes, 40);
    end_poll_will_success(&mut storage, 1);

    // the stored list still holds both votes; what is reported holds the open one
    let stored = StakerState::may_load(&storage, &VOTER1.to_string()).unwrap().unwrap();
    assert_eq!(stored.votes.len(), 2);
    let reported = get_staker_state(&storage, governance_env(), VOTER1.to_string()).unwrap();
    assert_eq!(reported.votes.len(), 1);
    assert_eq!(reported.votes[0].0, 2);
    assert_eq!(reported.locked_balance, 40);

    // the vote on the decided poll no longer counts against the balance
    create_default_poll(&mut storage, 300);
    vote_will_success(&mut storage, VOTER1, 3, VoteOption::No, 60);

    // unstaking drops it from the stored list
    unstake_token_hook(
        &mut storage,
        governance_env(),
        governance_sender(),
        VOTER1.to_string(),
        10,
        100,
        300,
        300,
    )
    .unwrap();
    let stored = StakerState::may_load(&storage, &VOTER1.to_string()).unwrap().unwrap();
    assert_eq!(stored.votes.iter().map(|v| v.0).collect::<Vec<u64>>(), vec![2, 3]);
    let mut cleaned = stored.clone();
    cleaned.clean_votes(&storage);
    assert_eq!(cleaned, stored);
}

#[test]
fn stake_token_relays_to_the_hook() {
    let mut storage = Storage::new();
    init_default(&mut storage);
    let response = stake_token(
        &storage,
        governance_env(),
        mock_info(STAKING_TOKEN),
        STAKER1.to_string(),
        100,
    )
    .unwrap();
    assert_eq!(
        response.messages,
        vec![SubMsg::new(
            GOVERNANCE,
            Call::StakeGovernanceTokenHook { staker: STAKER1.to_string(), amount: 100 },
        )]
    );
    assert_eq!(response.attributes, vec![attr("action", "stake_token")]);
    let zero = stake_token(
        &storage,
        governance_env(),
        mock_info(STAKING_TOKEN),
        STAKER1.to_string(),
        0,
    );
    expect_generic_err(&zero, "Insufficient funds sent");
    let stranger =
        stake_token(&storage, governance_env(), default_sender(), STAKER1.to_string(), 100);
    expect_unauthorized_err(&stranger);

    update_staking_config(
        &mut storage,
        governance_env(),
        governance_sender(),
        Some("distributor".to_string()),
        None,
    )
    .unwrap();
    let response = unstake_token(
        &storage,
        governance_env(),
        mock_info(GOVERNANCE_TOKEN),
        STAKER1.to_string(),
        5,
    )
    .unwrap();
    assert_eq!(
        response.messages,
        vec![
            SubMsg::new("distributor", Call::Distribute),
            SubMsg::new(
                GOVERNANCE,
                Call::UnstakeGovernanceTokenHook { staker: STAKER1.to_string(), amount: 5 },
            ),
        ]
    );
    let stranger = unstake_token(
        &storage,
        governance_env(),
        mock_info(STAKING_TOKEN),
        STAKER1.to_string(),
        5,
    );
    expect_unauthorized_err(&stranger);
}

fn stake_hook(
    storage: &Storage,
    staker: &str,
    amount: u128,
    contract_balance: u128,
    supply: u128,
) -> ContractResult<Response> {
    stake_token_hook(
        storage,
        governance_env(),
        governance_sender(),
        staker.to_string(),
        amount,
        contract_balance,
        supply,
    )
}

fn mint_to(staker: &str, amount: u128) -> Vec<SubMsg> {
    vec![SubMsg::new(GOVERNANCE_TOKEN, Call::Mint { recipient: staker.to_string(), amount })]
}

#[test]
fn share_calculation() {
    let mut storage = Storage::new();
    init_default(&mut storage);

    // the first stake of 100 finds no voting shares and mints one for one
    let response = stake_hook(&storage, STAKER1, 100, 100, 0).unwrap();
    assert_eq!(response.messages, mint_to(STAKER1, 100));

    // the pool doubles to 200; a second stake of 100 mints 50
    let response = stake_hook(&storage, STAKER1, 100, 300, 100).unwrap();
    assert_eq!(
        response.attributes,
        vec![
            attr("action", "stake_token_hook"),
            attr("sender", STAKER1),
            attr("amount", "100"),
            attr("mint_amount", "50"),
        ]
    );
    assert_eq!(response.messages, mint_to(STAKER1, 50));

    // 75 of the 150 voting shares give back half of the pool of 300
    let response = unstake_token_hook(
        &mut storage,
        governance_env(),
        governance_sender(),
        STAKER1.to_string(),
        75,
        150,
        150,
        300,
    )
    .unwrap();
    assert_eq!(
        response.attributes,
        vec![attr("action", "unstake_token_hook"), attr("unstake_amount", "150")]
    );
    let staker_state = get_staker_state(&storage, governance_env(), STAKER1.to_string()).unwrap();
    assert_eq!(
        staker_state.unstake_locked_list,
        vec![(GOVERNANCE_HEIGHT + UNSTAKE_LOCK_PERIOD, 150)]
    );
}

#[test]
fn incremental_stakes_equal_one_stake_at_the_same_price() {
    // two stakes of 50 and one of 100 at the price of one for one
    let first = simulate_stake_amount(1000, 1000, 50).unwrap();
    let second = simulate_stake_amount(1000, 1000, 50).unwrap();
    let whole = simulate_stake_amount(1000, 1000, 100).unwrap();
    assert_eq!(first + second, 100);
    assert_eq!(whole, 100);
    // at a price that no decimal holds exactly, each stake is rounded down by itself
    let part = simulate_stake_amount(1, 3, 2).unwrap();
    let both = simulate_stake_amount(1, 3, 4).unwrap();
    assert_eq!(part, 0);
    assert_eq!(both, 1);
    // price 1/3, cut off at 18 digits
    assert_eq!(simulate_stake_amount(100, 300, 300).unwrap(), 99);
    assert_eq!(simulate_stake_amount(100, 300, 3_000_000_000_000_000_000).unwrap(), 999_999_999_999_999_999);
}

#[test]
fn stake_hook_failures() {
    let mut storage = Storage::new();
    init_default(&mut storage);
    expect_unauthorized_err(&stake_token_hook(
        &storage,
        governance_env(),
        default_sender(),
        STAKER1.to_string(),
        100,
        100,
        0,
    ));
    expect_generic_err(&stake_hook(&storage, STAKER1, 0, 100, 0), "Insufficient funds sent");
    // the stake is said to be larger than what the contract holds
    assert_eq!(
        stake_hook(&storage, STAKER1, 101, 100, 10),
        Err(ContractError::OverflowError(OverflowError {
            operation: OverflowOperation::Sub,
            operand1: 100,
            operand2: 101,
        }))
    );
    // voting shares exist but the pool was empty before the stake
    assert_eq!(
        stake_hook(&storage, STAKER1, 100, 100, 10),
        Err(ContractError::Std(StdError::DivideByZero))
    );
    // a price beyond what a decimal holds
    assert!(matches!(
        stake_hook(&storage, STAKER1, 1, 2, u128::MAX),
        Err(ContractError::OverflowError(_))
    ));
    // a product beyond u128
    assert!(matches!(
        stake_hook(&storage, STAKER1, u128::MAX - 1, u128::MAX, 2),
        Err(ContractError::OverflowError(_))
    ));
    assert_eq!(storage.staking_state, Some(StakingState { total_unstake_locked: 0 }));
}

#[test]
fn unstake_governance_token_hook_succeed() {
    let mut storage = Storage::new();
    init_default(&mut storage);

    assert_eq!(
        stake_hook(&storage, STAKER1, STAKER1_STAKE_AMOUNT, STAKER1_STAKE_AMOUNT, 0)
            .unwrap()
            .messages,
        mint_to(STAKER1, STAKER1_STAKE_AMOUNT)
    );
    assert_eq!(
        stake_hook(
            &storage,
            STAKER2,
            STAKER2_STAKE_AMOUNT,
            STAKER1_STAKE_AMOUNT + STAKER2_STAKE_AMOUNT,
            STAKER1_STAKE_AMOUNT
        )
        .unwrap()
        .messages,
        mint_to(STAKER2, STAKER2_STAKE_AMOUNT)
    );

    let increased_balance = (STAKER1_STAKE_AMOUNT + STAKER2_STAKE_AMOUNT).checked_mul(2).unwrap();

    let response = unstake_token_hook(
        &mut storage,
        governance_env(),
        mock_info(GOVERNANCE),
        STAKER1.to_string(),
        STAKER1_STAKE_AMOUNT,
        STAKER1_STAKE_AMOUNT,
        STAKER1_STAKE_AMOUNT + STAKER2_STAKE_AMOUNT,
        increased_balance,
    )
    .unwrap();

    let unstake_amount = response
        .attributes
        .iter()
        .find_map(|v| {
            if v.key == "unstake_amount" {
                Some(terrapoker::utils::parse_uint128(&v.value).unwrap())
            } else {
                None
            }
        })
        .unwrap();

    assert_eq!(
        response.messages,
        vec![SubMsg::new(GOVERNANCE_TOKEN, Call::Burn { amount: STAKER1_STAKE_AMOUNT })]
    );

    let staking_state = StakingState::load(&storage).unwrap();
    let staker_state = StakerState::load_safe(&storage, &STAKER1.to_string()).unwrap();

    assert_eq!(unstake_amount, STAKER1_STAKE_AMOUNT.checked_mul(2).unwrap());
    assert_eq!(staking_state.total_unstake_locked, STAKER1_STAKE_AMOUNT * 2);
    assert_eq!(
        staker_state.unstake_locked_list,
        vec![(GOVERNANCE_HEIGHT + UNSTAKE_LOCK_PERIOD, STAKER1_STAKE_AMOUNT * 2)]
    );

    // what is set aside no longer backs the voting shares that are left
    let preview = get_simulate_unstake_amount(
        &storage,
        governance_env(),
        STAKER2_STAKE_AMOUNT,
        STAKER2_STAKE_AMOUNT,
        increased_balance,
    )
    .unwrap();
    assert_eq!(preview, STAKER2_STAKE_AMOUNT * 2);
    let preview =
        get_simulate_stake_amount(&storage, governance_env(), 10, increased_balance, 100).unwrap();
    assert_eq!(preview, 5);
}

#[test]
fn failed_overflow() {
    let mut storage = Storage::new();
    init_default(&mut storage);
    stake_hook(&storage, STAKER1, STAKER1_STAKE_AMOUNT, STAKER1_STAKE_AMOUNT, 0).unwrap();

    let result = unstake_token_hook(
        &mut storage,
        governance_env(),
        governance_sender(),
        STAKER1.to_string(),
        STAKER1_STAKE_AMOUNT + 1,
        STAKER1_STAKE_AMOUNT,
        STAKER1_STAKE_AMOUNT,
        STAKER1_STAKE_AMOUNT,
    );

    assert_eq!(
        result,
        Err(ContractError::OverflowError(OverflowError {
            operation: OverflowOperation::Sub,
            operand1: STAKER1_STAKE_AMOUNT,
            operand2: STAKER1_STAKE_AMOUNT + 1,
        }))
    );
    assert_eq!(result.unwrap_err().to_string(), "Overflow");
    assert_eq!(StakingState::load(&storage).unwrap().total_unstake_locked, 0);
    assert_eq!(StakerState::may_load(&storage, &STAKER1.to_string()), Ok(None));
}

#[test]
fn failed_no_staked() {
    let mut storage = Storage::new();
    init_default(&mut storage);

    let result = unstake_token_hook(
        &mut storage,
        governance_env(),
        governance_sender(),
        default_sender().sender.to_string(),
        0,
        0,
        0,
        0,
    );

    expect_generic_err(&result, "Nothing staked");
    expect_unauthorized_err(&unstake_token_hook(
        &mut storage,
        governance_env(),
        default_sender(),
        STAKER1.to_string(),
        0,
        0,
        0,
        0,
    ));
}

#[test]
fn unstake_share_is_capped_at_the_whole_pool() {
    let mut storage = Storage::new();
    init_default(&mut storage);
    // more voting shares than the ledger counts: the share is the whole pool, not more
    let response = unstake_token_hook(
        &mut storage,
        governance_env(),
        governance_sender(),
        STAKER1.to_string(),
        500,
        500,
        100,
        70,
    )
    .unwrap();
    assert_eq!(
        response.attributes,
        vec![attr("action", "unstake_token_hook"), attr("unstake_amount", "70")]
    );
    // everything is set aside now: the free pool is empty
    let preview = get_simulate_unstake_amount(&storage, governance_env(), 10, 100, 70).unwrap();
    assert_eq!(preview, 0);
    // the ledger reports less than is set aside
    let short = get_simulate_unstake_amount(&storage, governance_env(), 10, 100, 69);
    assert!(matches!(short, Err(ContractError::Std(StdError::Overflow { .. }))));
}

#[test]
fn claim_takes_only_what_has_matured() {
    let mut storage = Storage::new();
    init_default(&mut storage);
    let unlock = GOVERNANCE_HEIGHT + UNSTAKE_LOCK_PERIOD;
    unstake_token_hook(
        &mut storage,
        governance_env(),
        governance_sender(),
        STAKER1.to_string(),
        10,
        100,
        100,
        1000,
    )
    .unwrap();
    unstake_token_hook(
        &mut storage,
        governance_env_height(GOVERNANCE_HEIGHT + 10),
        governance_sender(),
        STAKER1.to_string(),
        9,
        90,
        90,
        1000,
    )
    .unwrap();
    assert_eq!(StakingState::load(&storage).unwrap().total_unstake_locked, 190);
    let staker = StakerState::load_safe(&storage, &STAKER1.to_string()).unwrap();
    assert_eq!(staker.unstake_locked_list, vec![(unlock, 100), (unlock + 10, 90)]);
    assert_eq!(staker.get_unstake_claimable_amount(unlock), 0);
    assert_eq!(staker.get_unstake_claimable_amount(unlock + 1), 100);
    assert_eq!(staker.get_unstake_claimable_amount(unlock + 11), 190);
    assert_eq!(staker.get_unstake_locked_amount(), 190);

    // before anything is unlocked the claim is one of nothing
    let early =
        claim_unstaked_token(&mut storage, governance_env_height(unlock), mock_info(STAKER1))
            .unwrap();
    assert_eq!(
        early.messages,
        vec![SubMsg::new(
            STAKING_TOKEN,
            Call::Transfer { recipient: STAKER1.to_string(), amount: 0 },
        )]
    );
    assert_eq!(early.attributes, vec![attr("action", "claim_unstaked_token")]);
    assert_eq!(StakingState::load(&storage).unwrap().total_unstake_locked, 190);

    // one block later the first withdrawal has matured
    let partly =
        claim_unstaked_token(&mut storage, governance_env_height(unlock + 1), mock_info(STAKER1))
            .unwrap();
    assert_eq!(
        partly.messages,
        vec![SubMsg::new(
            STAKING_TOKEN,
            Call::Transfer { recipient: STAKER1.to_string(), amount: 100 },
        )]
    );
    assert_eq!(StakingState::load(&storage).unwrap().total_unstake_locked, 90);
    let staker = StakerState::load_safe(&storage, &STAKER1.to_string()).unwrap();
    assert_eq!(staker.unstake_locked_list, vec![(unlock + 10, 90)]);

    // a staker the contract has never seen claims nothing
    let stranger =
        claim_unstaked_token(&mut storage, governance_env_height(unlock + 1), mock_info(STAKER2))
            .unwrap();
    assert_eq!(
        stranger.messages,
        vec![SubMsg::new(
            STAKING_TOKEN,
            Call::Transfer { recipient: STAKER2.to_string(), amount: 0 },
        )]
    );
}

fn step(order: u64, contract: &str, msg: &[u8]) -> ExecutionMsg {
    ExecutionMsg { order, contract: contract.to_string(), msg: msg.to_vec() }
}

fn passed_poll_with_steps(storage: &mut Storage, steps: Vec<ExecutionMsg>) -> u64 {
    create_poll_with(storage, 300, steps);
    let poll_id = PollState::load(storage).unwrap().poll_count;
    vote_will_success(storage, VOTER1, poll_id, VoteOption::Yes, 100);
    end_poll_will_success(storage, poll_id);
    poll_id
}

fn due_env() -> Env {
    governance_env_height(GOVERNANCE_HEIGHT + POLL_VOTING_PERIOD + POLL_EXECUTION_DELAY_PERIOD)
}

fn run_step(step: ExecutionMsg) -> SubMsg {
    SubMsg {
        id: REPLY_EXECUTION,
        contract_addr: GOVERNANCE.to_string(),
        call: Call::RunExecution { executions: vec![step] },
        reply_on: ReplyOn::Always,
    }
}

#[test]
fn execution_runs_step_by_step_in_order() {
    let mut storage = Storage::new();
    init_default(&mut storage);
    let poll_id = passed_poll_with_steps(
        &mut storage,
        vec![step(3, "c", b"third"), step(1, "a", b"first"), step(2, "b", b"second")],
    );

    let early = execute_poll(
        &mut storage,
        governance_env_height(GOVERNANCE_HEIGHT + POLL_VOTING_PERIOD + POLL_EXECUTION_DELAY_PERIOD - 1),
        default_sender(),
        poll_id,
    );
    assert_eq!(early, Err(ContractError::Std(StdError::ExecutionNotDue)));

    let response = execute_poll(&mut storage, due_env(), default_sender(), poll_id).unwrap();
    assert_eq!(response.messages, vec![run_step(step(1, "a", b"first"))]);
    assert_eq!(
        response.attributes,
        vec![attr("action", "execute_poll"), attr("poll_id", &poll_id.to_string())]
    );
    assert_eq!(
        PollExecutionContext::may_load(&storage),
        Ok(Some(PollExecutionContext { poll_id, execution_count: 0 }))
    );

    let ok = || Reply { id: REPLY_EXECUTION, error: None };
    let response = reply_execution(&mut storage, due_env(), ok()).unwrap();
    assert_eq!(response.messages, vec![run_step(step(2, "b", b"second"))]);
    assert_eq!(
        PollExecutionContext::load(&storage),
        Ok(PollExecutionContext { poll_id, execution_count: 1 })
    );

    // the second step fails: the error comes up and the cursor stays
    let failed = reply_execution(
        &mut storage,
        due_env(),
        Reply { id: REPLY_EXECUTION, error: Some("out of gas".to_string()) },
    );
    expect_generic_err(&failed, "out of gas");
    assert_eq!(
        PollExecutionContext::load(&storage),
        Ok(PollExecutionContext { poll_id, execution_count: 1 })
    );
    assert_eq!(Poll::load(&storage, &poll_id).unwrap().status, PollStatus::Passed);

    // a retry takes the execution up at the step that failed
    let response = execute_poll(&mut storage, due_env(), default_sender(), poll_id).unwrap();
    assert_eq!(response.messages, vec![run_step(step(2, "b", b"second"))]);

    let response = reply_execution(&mut storage, due_env(), ok()).unwrap();
    assert_eq!(response.messages, vec![run_step(step(3, "c", b"third"))]);
    let response = reply_execution(&mut storage, due_env(), ok()).unwrap();
    assert!(response.messages.is_empty());
    assert_eq!(
        response.attributes,
        vec![attr("action", "reply_execution"), attr("poll_id", &poll_id.to_string())]
    );
    assert_eq!(Poll::load(&storage, &poll_id).unwrap().status, PollStatus::Executed);
    assert_eq!(PollExecutionContext::may_load(&storage), Ok(None));
    assert_eq!(
        PollExecutionContext::load(&storage),
        Err(StdError::NotFound { kind: Kind::PollExecutionContext })
    );

    let again = execute_poll(&mut storage, due_env(), default_sender(), poll_id);
    assert_eq!(again, Err(ContractError::Std(StdError::PollNotPassed)));
    let stray = reply_execution(&mut storage, due_env(), ok());
    assert_eq!(
        stray,
        Err(ContractError::Std(StdError::NotFound { kind: Kind::PollExecutionContext }))
    );
}

#[test]
fn execution_of_a_poll_without_steps_and_of_two_polls() {
    let mut storage = Storage::new();
    init_default(&mut storage);
    let empty = passed_poll_with_steps(&mut storage, vec![]);
    let first = passed_poll_with_steps(&mut storage, vec![step(1, "a", b"x")]);
    let second = passed_poll_with_steps(&mut storage, vec![step(1, "b", b"y")]);

    let response = execute_poll(&mut storage, due_env(), default_sender(), empty).unwrap();
    assert!(response.messages.is_empty());
    assert_eq!(Poll::load(&storage, &empty).unwrap().status, PollStatus::Executed);
    assert_eq!(PollExecutionContext::may_load(&storage), Ok(None));

    execute_poll(&mut storage, due_env(), default_sender(), first).unwrap();
    let blocked = execute_poll(&mut storage, due_env(), default_sender(), second);
    assert_eq!(blocked, Err(ContractError::Std(StdError::ExecutionInProgress)));
    reply_execution(&mut storage, due_env(), Reply { id: REPLY_EXECUTION, error: None }).unwrap();
    assert!(execute_poll(&mut storage, due_env(), default_sender(), second).is_ok());

    create_default_poll(&mut storage, 300);
    let open = PollState::load(&storage).unwrap().poll_count;
    assert_eq!(
        execute_poll(&mut storage, due_env(), default_sender(), open),
        Err(ContractError::Std(StdError::PollNotPassed))
    );
    assert_eq!(
        execute_poll(&mut storage, due_env(), default_sender(), open + 1),
        Err(ContractError::Std(StdError::PollNotFound))
    );
}

#[test]
fn run_execution_dispatches_in_ascending_order() {
    let steps = vec![
        step(2, "b", b"2"),
        step(1, "a", b"1"),
        step(2, "c", b"2 again"),
        step(0, "z", b"0"),
    ];
    let response = run_execution(governance_env(), governance_sender(), steps.clone()).unwrap();
    assert_eq!(
        response.messages,
        vec![
            SubMsg::new("z", Call::Raw { msg: b"0".to_vec() }),
            SubMsg::new("a", Call::Raw { msg: b"1".to_vec() }),
            SubMsg::new("b", Call::Raw { msg: b"2".to_vec() }),
            SubMsg::new("c", Call::Raw { msg: b"2 again".to_vec() }),
        ]
    );
    assert_eq!(response.attributes, vec![attr("action", "run_execution")]);
    assert_eq!(poll_executions::sort_executions(&vec![]), vec![]);
    expect_unauthorized_err(&run_execution(governance_env(), default_sender(), steps));
}

#[test]
fn polls_are_listed_by_id_and_status() {
    let mut storage = Storage::new();
    init_default(&mut storage);
    for _ in 0..35 {
        create_default_poll(&mut storage, 300);
    }
    vote_will_success(&mut storage, VOTER1, 2, VoteOption::Yes, 100);
    end_poll_will_success(&mut storage, 2);
    end_poll_will_success(&mut storage, 5);
    end_poll_will_success(&mut storage, 3);

    let ids = |polls: Vec<Poll>| polls.iter().map(|p| p.id).collect::<Vec<u64>>();

    // the default page is 10, from the largest id down
    let page = Poll::query(&storage, None, None, None, None).unwrap();
    assert_eq!(ids(page), (26..=35).rev().collect::<Vec<u64>>());
    // the largest page is 30
    let page = Poll::query(&storage, None, None, Some(100), Some(OrderBy::Asc)).unwrap();
    assert_eq!(ids(page), (1..=30).collect::<Vec<u64>>());
    // the cursor is exclusive
    let page = Poll::query(&storage, None, Some(30), Some(3), Some(OrderBy::Asc)).unwrap();
    assert_eq!(ids(page), vec![31, 32, 33]);
    let page = Poll::query(&storage, None, Some(4), Some(30), Some(OrderBy::Desc)).unwrap();
    assert_eq!(ids(page), vec![3, 2, 1]);
    let page = Poll::query(&storage, None, Some(1), None, None).unwrap();
    assert_eq!(ids(page), Vec::<u64>::new());
    let page = Poll::query(&storage, None, None, Some(0), None).unwrap();
    assert_eq!(ids(page), Vec::<u64>::new());

    let page =
        Poll::query(&storage, Some(PollStatus::Rejected), None, None, Some(OrderBy::Asc)).unwrap();
    assert_eq!(ids(page), vec![3, 5]);
    let page = Poll::query(&storage, Some(PollStatus::Rejected), Some(5), None, None).unwrap();
    assert_eq!(ids(page), vec![3]);
    let page = Poll::query(&storage, Some(PollStatus::Passed), None, None, None).unwrap();
    assert_eq!(ids(page), vec![2]);
    let page = Poll::query(&storage, Some(PollStatus::Executed), None, None, None).unwrap();
    assert_eq!(ids(page), Vec::<u64>::new());
    let page =
        Poll::query(&storage, Some(PollStatus::InProgress), None, Some(4), Some(OrderBy::Asc))
            .unwrap();
    assert_eq!(ids(page), vec![1, 4, 6, 7]);

    let response = query_polls(
        &storage,
        governance_env(),
        Some(PollStatus::Passed),
        None,
        None,
        None,
    )
    .unwrap();
    assert_eq!(response.polls.len(), 1);
    assert_eq!(response.polls[0].id, 2);
    assert_eq!(response.polls[0].status, PollStatus::Passed);
    assert_eq!(response.polls[0].yes_votes, 100);
}

#[test]
fn voters_are_listed_by_address() {
    let mut storage = Storage::new();
    init_default(&mut storage);
    create_default_poll(&mut storage, 300);
    create_default_poll(&mut storage, 300);
    for voter in ["b", "a", "ab", "c", "B"] {
        vote_will_success(&mut storage, voter, 1, VoteOption::Yes, 1);
    }
    vote_will_success(&mut storage, "zz", 2, VoteOption::No, 2);

    let names = |voters: Vec<(String, VoteInfo)>| {
        voters.iter().map(|v| v.0.clone()).collect::<Vec<String>>()
    };
    let page = Poll::read_voters(&storage, &1, None, None, Some(OrderBy::Asc)).unwrap();
    assert_eq!(names(page), vec!["B", "a", "ab", "b", "c"]);
    let page = Poll::read_voters(&storage, &1, None, Some(2), None).unwrap();
    assert_eq!(names(page), vec!["c", "b"]);
    let page =
        Poll::read_voters(&storage, &1, Some("a".to_string()), None, Some(OrderBy::Asc)).unwrap();
    assert_eq!(names(page), vec!["ab", "b", "c"]);
    let page =
        Poll::read_voters(&storage, &1, Some("ab".to_string()), None, Some(OrderBy::Desc)).unwrap();
    assert_eq!(names(page), vec!["a", "B"]);
    let page = Poll::read_voters(&storage, &2, None, None, None).unwrap();
    assert_eq!(names(page), vec!["zz"]);
    let page = Poll::read_voters(&storage, &3, None, None, None).unwrap();
    assert!(page.is_empty());

    let response = query_voters(&storage, governance_env(), 2, None, None, None).unwrap();
    assert_eq!(response.voters.len(), 1);
    assert_eq!(response.voters[0].voter, "zz");
    assert_eq!(response.voters[0].option, VoteOption::No);
    assert_eq!(response.voters[0].amount, 2);
    // once a poll is decided its voters are no longer reported
    end_poll_will_success(&mut storage, 2);
    let response = query_voters(&storage, governance_env(), 2, None, None, None).unwrap();
    assert!(response.voters.is_empty());
    let missing = query_voters(&storage, governance_env(), 3, None, None, None);
    assert_eq!(missing.unwrap_err(), ContractError::Std(StdError::PollNotFound));
}

#[test]
fn stakers_are_listed_by_address() {
    let mut storage = Storage::new();
    init_default(&mut storage);
    create_default_poll(&mut storage, 300);
    for i in 0..120u32 {
        vote_will_success(&mut storage, &format!("voter{:03}", i), 1, VoteOption::Yes, 1);
    }
    let addresses = |limit: Option<u32>, after: Option<&str>| {
        get_all_stakers(&storage, governance_env(), after.map(|a| a.to_string()), limit)
            .unwrap()
            .stakers
            .iter()
            .map(|s| s.address.clone())
            .collect::<Vec<String>>()
    };
    assert_eq!(addresses(None, None).len(), 10);
    assert_eq!(addresses(None, None)[0], "voter000");
    assert_eq!(addresses(Some(500), None).len(), 100);
    assert_eq!(addresses(Some(2), Some("voter117")), vec!["voter118", "voter119"]);
    assert_eq!(addresses(Some(2), Some("voter119")), Vec::<String>::new());
}

#[test]
fn voting_power_is_the_share_of_the_supply() {
    let power = get_voting_power(governance_env(), 25, 100).unwrap();
    assert_eq!(power.voting_power, Decimal::percent(25));
    let power = get_voting_power(governance_env(), 1, 3).unwrap();
    assert_eq!(power.voting_power, Decimal::raw(333_333_333_333_333_333));
    assert_eq!(
        get_voting_power(governance_env(), 1, 0),
        Err(ContractError::Std(StdError::DivideByZero))
    );
    assert!(matches!(
        get_voting_power(governance_env(), u128::MAX, 1),
        Err(ContractError::OverflowError(_))
    ));
}

#[test]
fn commands_and_queries_go_through_the_doors() {
    let mut storage = Storage::new();
    init_default(&mut storage);
    let receive = |hook: Cw20HookMsg, amount: u128| {
        ExecuteMsg::Receive(Cw20ReceiveMsg { sender: PROPOSER1.to_string(), amount, msg: hook })
    };
    let create = Cw20HookMsg::CreatePoll {
        title: "title".to_string(),
        description: "description".to_string(),
        link: None,
        executions: vec![],
    };
    entrypoints::execute(
        &mut storage,
        governance_env(),
        mock_info(GOVERNANCE_TOKEN),
        receive(create, POLL_PROPOSAL_DEPOSIT),
        ledger(300, 0, 0),
    )
    .unwrap();
    entrypoints::execute(
        &mut storage,
        governance_env(),
        mock_info(VOTER1),
        ExecuteMsg::CastVote { poll_id: 1, vote: VoteOption::Yes, amount: 40 },
        ledger(300, 50, 0),
    )
    .unwrap();
    let too_much = entrypoints::execute(
        &mut storage,
        governance_env(),
        mock_info(VOTER2),
        ExecuteMsg::CastVote { poll_id: 1, vote: VoteOption::Yes, amount: 51 },
        ledger(300, 50, 0),
    );
    assert_eq!(too_much, Err(ContractError::Std(StdError::InsufficientBalance)));
    let staked = entrypoints::execute(
        &mut storage,
        governance_env(),
        mock_info(STAKING_TOKEN),
        receive(Cw20HookMsg::StakeToken {}, 7),
        ledger(0, 0, 0),
    )
    .unwrap();
    assert_eq!(
        staked.messages,
        vec![SubMsg::new(
            GOVERNANCE,
            Call::StakeGovernanceTokenHook { staker: PROPOSER1.to_string(), amount: 7 },
        )]
    );
    let minted = entrypoints::execute(
        &mut storage,
        governance_env(),
        governance_sender(),
        ExecuteMsg::StakeGovernanceTokenHook { staker: PROPOSER1.to_string(), amount: 7 },
        ledger(0, 0, 7),
    )
    .unwrap();
    assert_eq!(minted.messages, mint_to(PROPOSER1, 7));
    let ended = entrypoints::execute(
        &mut storage,
        governance_env_height(GOVERNANCE_HEIGHT + POLL_VOTING_PERIOD + 1),
        default_sender(),
        ExecuteMsg::EndPoll { poll_id: 1 },
        ledger(0, 0, 0),
    )
    .unwrap();
    assert_eq!(ended.messages, refund_to_proposer());

    match entrypoints::query(
        &storage,
        governance_env(),
        QueryMsg::Poll { poll_id: 1 },
        ledger(0, 0, 0),
    ) {
        Ok(entrypoints::QueryResponse::Poll(poll)) => {
            assert_eq!(poll.status, PollStatus::Passed);
            assert_eq!(poll.yes_votes, 40);
        }
        other => panic!("unexpected answer {:?}", other),
    }
    match entrypoints::query(
        &storage,
        governance_env(),
        QueryMsg::VotingPower { address: VOTER1.to_string() },
        ledger(200, 50, 0),
    ) {
        Ok(entrypoints::QueryResponse::VotingPower(power)) => {
            assert_eq!(power.voting_power, Decimal::percent(25))
        }
        other => panic!("unexpected answer {:?}", other),
    }
    match entrypoints::query(
        &storage,
        governance_env(),
        QueryMsg::SimulateStakeAmount { amount: 10 },
        ledger(100, 0, 200),
    ) {
        Ok(entrypoints::QueryResponse::SimulateStakeAmount(amount)) => assert_eq!(amount, 5),
        other => panic!("unexpected answer {:?}", other),
    }

    let unknown = entrypoints::reply(&mut storage, governance_env(), Reply { id: 7, error: None });
    assert_eq!(
        unknown,
        Err(ContractError::Std(StdError::NotFound { kind: Kind::ReplyId }))
    );
    assert_eq!(unknown.unwrap_err().to_string(), "reply_id not found");
    let migrated = entrypoints::migrate(
        &mut storage,
        governance_env(),
        terrapoker::governance::execute_msgs::MigrateMsg {},
    )
    .unwrap();
    assert_eq!(migrated, Response::new());
}
