use vstd::prelude::*;
use vstd::string::*;
use crate::common::states::{free_pool, load_contract_staking_token_balance, ContractConfig};
use crate::common::{
    committed,
    plain_call,
    responded,
    Call,
    CallModel,
    ContractResult,
    Env,
    MessageInfo,
    Response,
    ResponseModel,
    SubMsg,
    SubMsgModel,
};
use crate::errors::{
    checked_add,
    checked_sub,
    missing,
    overflow,
    reason,
    sum_overflow,
    unauthorized,
    ContractError,
    ErrorModel,
    Kind,
    OverflowError,
    OverflowOperation,
    StdError,
};
use crate::governance::execute_msgs::StakingConfigInitMsg;
use crate::staking::queries::{
    simulate_stake_amount,
    simulate_unstake_amount,
    stake_shares,
    unstake_amount,
};
use crate::staking::states::{
    active_votes,
    claimable,
    lemma_claim_splits,
    locked_total,
    pending,
    staker_at,
    StakerModel,
    StakerState,
    StakingConfig,
    StakingConfigModel,
    StakingState,
};
use crate::storage::{Storage, StorageModel};
use crate::store::{duplicate_text, put, text_of};
use crate::utils::{action_response, decimal_text, make_response, u128_to_string};

verus! {

/// Setting up the staking ledger: the rules are stored, and nothing is
/// set aside for withdrawals.
pub open spec fn instantiate_spec(s: StorageModel, msg: StakingConfigInitMsg) -> Result<
    (StorageModel, ResponseModel),
    ErrorModel,
> {
    Ok(
        (
            StorageModel {
                staking_config: Some(
                    StakingConfigModel {
                        distributor: text_of(msg.distributor),
                        unstake_lock_period: msg.unstake_lock_period,
                    },
                ),
                staking_state: Some(StakingState { total_unstake_locked: 0 }),
                ..s
            },
            action_response("instantiate"@),
        ),
    )
}

/// Sets up the staking ledger.
pub fn instantiate(storage: &mut Storage, _env: Env, _info: MessageInfo, msg: StakingConfigInitMsg) -> (r:
    ContractResult<Response>)
    requires
        old(storage).wf(),
    ensures
        final(storage).wf(),
        committed(old(storage)@, final(storage)@, r, instantiate_spec(old(storage)@, msg)),
{
    let response = make_response("instantiate");
    let config = StakingConfig {
        distributor: duplicate_text(&msg.distributor),
        unstake_lock_period: msg.unstake_lock_period,
    };
    let _saved = config.save(storage);
    let _saved = (StakingState { total_unstake_locked: 0 }).save(storage);
    Ok(response)
}

/// The attributes that report which rules were changed.
pub open spec fn staking_update_attributes(
    distributor: Option<Seq<char>>,
    unstake_lock_period: Option<u64>,
) -> Seq<(Seq<char>, Seq<char>)> {
    seq![("action"@, "update_staking_config"@)] + (if distributor is Some {
        seq![("is_updated_distributor"@, "true"@)]
    } else {
        Seq::empty()
    }) + (if unstake_lock_period is Some {
        seq![("is_updated_unstake_lock_period"@, "true"@)]
    } else {
        Seq::empty()
    })
}

/// Changing the rules of staking: only the contract itself may, and each
/// rule that is given takes the place of the stored one.
pub open spec fn update_staking_config_spec(
    s: StorageModel,
    contract_address: Seq<char>,
    sender: Seq<char>,
    distributor: Option<Seq<char>>,
    unstake_lock_period: Option<u64>,
) -> Result<(StorageModel, ResponseModel), ErrorModel> {
    if contract_address != sender {
        Err(unauthorized())
    } else {
        match s.staking_config {
            None => Err(missing(Kind::StakingConfig)),
            Some(config) => Ok(
                (
                    StorageModel {
                        staking_config: Some(
                            StakingConfigModel {
                                distributor: match distributor {
                                    Some(d) => Some(d),
                                    None => config.distributor,
                                },
                                unstake_lock_period: match unstake_lock_period {
                                    Some(p) => p,
                                    None => config.unstake_lock_period,
                                },
                            },
                        ),
                        ..s
                    },
                    ResponseModel {
                        messages: Seq::empty(),
                        attributes: staking_update_attributes(distributor, unstake_lock_period),
                    },
                ),
            ),
        }
    }
}

/// Changes the rules of staking.
pub fn update_staking_config(
    storage: &mut Storage,
    env: Env,
    info: MessageInfo,
    distributor: Option<String>,
    unstake_lock_period: Option<u64>,
) -> (r: ContractResult<Response>)
    requires
        old(storage).wf(),
    ensures
        final(storage).wf(),
        committed(
            old(storage)@,
            final(storage)@,
            r,
            update_staking_config_spec(
                old(storage)@,
                env.contract.address@,
                info.sender@,
                text_of(distributor),
                unstake_lock_period,
            ),
        ),
{
    if env.contract.address != info.sender {
        return Err(ContractError::Unauthorized {  });
    }
    let mut response = make_response("update_staking_config");
    let mut config = match StakingConfig::load(storage) {
        Ok(c) => c,
        Err(e) => {
            return Err(ContractError::Std(e));
        },
    };
    if let Some(d) = distributor {
        config.distributor = Some(d);
        response = response.add_attribute("is_updated_distributor", "true");
    }
    if let Some(p) = unstake_lock_period {
        config.unstake_lock_period = p;
        response = response.add_attribute("is_updated_unstake_lock_period", "true");
    }
    let _saved = config.save(storage);
    assert(response@.attributes =~= staking_update_attributes(
        text_of(distributor),
        unstake_lock_period,
    ));
    Ok(response)
}

/// The calls by which the contract hands a request on to itself: first
/// the distributor, if there is one, is asked to distribute, then the
/// contract calls itself with `hook`.
pub open spec fn relayed(
    distributor: Option<Seq<char>>,
    contract_address: Seq<char>,
    hook: CallModel,
) -> Seq<SubMsgModel> {
    (match distributor {
        Some(d) => seq![plain_call(d, CallModel::Distribute)],
        None => Seq::empty(),
    }) + seq![plain_call(contract_address, hook)]
}

/// A response that hands a request on to the contract itself.
fn relay(config: &StakingConfig, env: &Env, hook: Call) -> (response: Response)
    ensures
        response@ == (ResponseModel {
            messages: relayed(config@.distributor, env.contract.address@, hook@),
            attributes: seq![("action"@, "stake_token"@)],
        }),
{
    let mut response = make_response("stake_token");
    if let Some(distributor) = &config.distributor {
        response = response.add_submessage(SubMsg::new(distributor.as_str(), Call::Distribute));
    }
    response = response.add_submessage(SubMsg::new(env.contract.address.as_str(), hook));
    assert(response@.messages =~= relayed(config@.distributor, env.contract.address@, hook@));
    response
}

/// A stake arrives: the staking token tells the contract that `staker`
/// has sent it `amount`. The contract answers by calling itself with the
/// hook that mints the voting shares.
pub open spec fn stake_token_spec(
    s: StorageModel,
    contract_address: Seq<char>,
    sender: Seq<char>,
    staker: Seq<char>,
    amount: u128,
) -> Result<ResponseModel, ErrorModel> {
    match s.contract_config {
        None => Err(missing(Kind::ContractConfig)),
        Some(config) => if config.staking_token != sender {
            Err(unauthorized())
        } else if amount == 0 {
            Err(reason(StdError::InsufficientFunds))
        } else {
            match s.staking_config {
                None => Err(missing(Kind::StakingConfig)),
                Some(rules) => Ok(
                    ResponseModel {
                        messages: relayed(
                            rules.distributor,
                            contract_address,
                            CallModel::StakeGovernanceTokenHook { staker, amount },
                        ),
                        attributes: seq![("action"@, "stake_token"@)],
                    },
                ),
            }
        },
    }
}

/// Takes a stake of `amount` staking tokens that `sender` has sent.
pub fn stake_token(storage: &Storage, env: Env, info: MessageInfo, sender: String, amount: u128) -> (r:
    ContractResult<Response>)
    ensures
        responded(
            r,
            stake_token_spec(storage@, env.contract.address@, info.sender@, sender@, amount),
        ),
{
    let config = match ContractConfig::load(storage) {
        Ok(c) => c,
        Err(e) => {
            return Err(ContractError::Std(e));
        },
    };
    if !config.is_staking_token(&info.sender) {
        return Err(ContractError::Unauthorized {  });
    }
    if amount == 0 {
        return Err(ContractError::Std(StdError::InsufficientFunds));
    }
    let rules = match StakingConfig::load(storage) {
        Ok(c) => c,
        Err(e) => {
            return Err(ContractError::Std(e));
        },
    };
    Ok(relay(&rules, &env, Call::StakeGovernanceTokenHook { staker: sender, amount }))
}

/// The voting shares for a stake of `amount` that has arrived: the free
/// pool is taken as it was before the stake came in, that is without
/// `amount`, so that a stake does not dilute itself.
pub open spec fn minted(
    s: StorageModel,
    amount: u128,
    contract_balance: u128,
    gov_token_total_supply: u128,
) -> Result<u128, ErrorModel> {
    match free_pool(s, contract_balance) {
        Err(e) => Err(e),
        Ok(pool) => if pool < amount {
            Err(
                overflow(
                    OverflowError {
                        operation: OverflowOperation::Sub,
                        operand1: pool,
                        operand2: amount,
                    },
                ),
            )
        } else {
            stake_shares(gov_token_total_supply, (pool - amount) as u128, amount)
        },
    }
}

/// Minting the voting shares for a stake: only the contract itself may
/// ask for it, and not for nothing.
pub open spec fn stake_token_hook_spec(
    s: StorageModel,
    contract_address: Seq<char>,
    sender: Seq<char>,
    staker: Seq<char>,
    amount: u128,
    contract_balance: u128,
    gov_token_total_supply: u128,
) -> Result<ResponseModel, ErrorModel> {
    if contract_address != sender {
        Err(unauthorized())
    } else if amount == 0 {
        Err(reason(StdError::InsufficientFunds))
    } else {
        match s.contract_config {
            None => Err(missing(Kind::ContractConfig)),
            Some(config) => match minted(s, amount, contract_balance, gov_token_total_supply) {
                Err(e) => Err(e),
                Ok(mint_amount) => Ok(
                    ResponseModel {
                        messages: seq![
                            plain_call(
                                config.governance_token,
                                CallModel::Mint { recipient: staker, amount: mint_amount },
                            ),
                        ],
                        attributes: seq![
                            ("action"@, "stake_token_hook"@),
                            ("sender"@, staker),
                            ("amount"@, decimal_text(amount as nat)),
                            ("mint_amount"@, decimal_text(mint_amount as nat)),
                        ],
                    },
                ),
            },
        }
    }
}

/// Mints the voting shares for a stake of `amount` by `staker`.
/// `contract_balance` is the balance of staking tokens that the token
/// ledger reports for the contract, the stake included, and
/// `gov_token_total_supply` the number of voting shares.
pub fn stake_token_hook(
    storage: &Storage,
    env: Env,
    info: MessageInfo,
    staker: String,
    amount: u128,
    contract_balance: u128,
    gov_token_total_supply: u128,
) -> (r: ContractResult<Response>)
    ensures
        responded(
            r,
            stake_token_hook_spec(
                storage@,
                env.contract.address@,
                info.sender@,
                staker@,
                amount,
                contract_balance,
                gov_token_total_supply,
            ),
        ),
{
    if env.contract.address != info.sender {
        return Err(ContractError::Unauthorized {  });
    }
    if amount == 0 {
        return Err(ContractError::Std(StdError::InsufficientFunds));
    }
    let mut response = make_response("stake_token_hook");
    let contract_config = match ContractConfig::load(storage) {
        Ok(c) => c,
        Err(e) => {
            return Err(ContractError::Std(e));
        },
    };
    let pool = match load_contract_staking_token_balance(storage, contract_balance) {
        Ok(v) => v,
        Err(e) => {
            return Err(ContractError::Std(e));
        },
    };
    let staked_amount = match checked_sub(pool, amount) {
        Ok(v) => v,
        Err(e) => {
            return Err(ContractError::OverflowError(e));
        },
    };
    let mint_amount = match simulate_stake_amount(gov_token_total_supply, staked_amount, amount) {
        Ok(v) => v,
        Err(e) => {
            return Err(e);
        },
    };
    response = response.add_submessage(
        SubMsg::new(
            contract_config.governance_token.as_str(),
            Call::Mint { recipient: staker.clone(), amount: mint_amount },
        ),
    );
    response = response.add_attribute("sender", staker.as_str());
    response = response.add_attribute("amount", u128_to_string(amount).as_str());
    response = response.add_attribute("mint_amount", u128_to_string(mint_amount).as_str());
    proof {
        let expected = stake_token_hook_spec(
            storage@,
            env.contract.address@,
            info.sender@,
            staker@,
            amount,
            contract_balance,
            gov_token_total_supply,
        )->Ok_0;
        assert(response@.messages =~= expected.messages);
        assert(response@.attributes =~= expected.attributes);
    }
    Ok(response)
}

/// Voting shares come back: the governance token tells the contract that
/// `staker` has sent it `amount`. The contract answers by calling itself
/// with the hook that locks the withdrawal.
pub open spec fn unstake_token_spec(
    s: StorageModel,
    contract_address: Seq<char>,
    sender: Seq<char>,
    staker: Seq<char>,
    amount: u128,
) -> Result<ResponseModel, ErrorModel> {
    match s.contract_config {
        None => Err(missing(Kind::ContractConfig)),
        Some(config) => if config.governance_token != sender {
            Err(unauthorized())
        } else {
            match s.staking_config {
                None => Err(missing(Kind::StakingConfig)),
                Some(rules) => Ok(
                    ResponseModel {
                        messages: relayed(
                            rules.distributor,
                            contract_address,
                            CallModel::UnstakeGovernanceTokenHook { staker, amount },
                        ),
                        attributes: seq![("action"@, "stake_token"@)],
                    },
                ),
            }
        },
    }
}

/// Takes back `amount` voting shares that `staker` has sent.
pub fn unstake_token(storage: &Storage, env: Env, info: MessageInfo, staker: String, amount: u128) -> (r:
    ContractResult<Response>)
    ensures
        responded(
            r,
            unstake_token_spec(storage@, env.contract.address@, info.sender@, staker@, amount),
        ),
{
    let contract_config = match ContractConfig::load(storage) {
        Ok(c) => c,
        Err(e) => {
            return Err(ContractError::Std(e));
        },
    };
    if !contract_config.is_governance_token(&info.sender) {
        return Err(ContractError::Unauthorized {  });
    }
    let rules = match StakingConfig::load(storage) {
        Ok(c) => c,
        Err(e) => {
            return Err(ContractError::Std(e));
        },
    };
    Ok(relay(&rules, &env, Call::UnstakeGovernanceTokenHook { staker, amount }))
}

/// Locking a withdrawal for `amount` voting shares of `staker` that are
/// given back. Only the contract itself may ask for it. The request fails
/// with an overflow where the staker does not have that many voting
/// shares, and with the reason that nothing is staked where there are no
/// voting shares at all. The staker's votes on polls that are no longer in progress are
/// dropped; the staker's share of the free pool is set aside, to be
/// claimed from the height `height + unstake_lock_period` on; the voting
/// shares are burnt.
pub open spec fn unstake_token_hook_spec(
    s: StorageModel,
    contract_address: Seq<char>,
    height: u64,
    sender: Seq<char>,
    staker: Seq<char>,
    amount: u128,
    share_balance: u128,
    gov_token_total_supply: u128,
    contract_balance: u128,
) -> Result<(StorageModel, ResponseModel), ErrorModel> {
    if contract_address != sender {
        Err(unauthorized())
    } else if share_balance < amount {
        Err(
            overflow(
                OverflowError {
                    operation: OverflowOperation::Sub,
                    operand1: share_balance,
                    operand2: amount,
                },
            ),
        )
    } else if s.staking_state is None {
        Err(missing(Kind::StakingState))
    } else {
        match unstake_amount(s, amount, gov_token_total_supply, contract_balance) {
            Err(e) => Err(e),
            Ok(withdraw_amount) => {
                let before = staker_at(s.staker_states, staker);
                let total = s.staking_state->0.total_unstake_locked;
                if s.staking_config is None {
                    Err(missing(Kind::StakingConfig))
                } else if s.contract_config is None {
                    Err(missing(Kind::ContractConfig))
                } else if height + s.staking_config->0.unstake_lock_period > u64::MAX {
                    Err(sum_overflow(height as u128, s.staking_config->0.unstake_lock_period as u128))
                } else if locked_total(before.unstake_locked_list) + withdraw_amount > u128::MAX {
                    Err(
                        sum_overflow(
                            locked_total(before.unstake_locked_list) as u128,
                            withdraw_amount,
                        ),
                    )
                } else if total + withdraw_amount > u128::MAX {
                    Err(sum_overflow(total, withdraw_amount))
                } else {
                    let after = StakerModel {
                        address: before.address,
                        votes: active_votes(before.votes, s.polls),
                        unstake_locked_list: before.unstake_locked_list.push(
                            (
                                (height + s.staking_config->0.unstake_lock_period) as u64,
                                withdraw_amount,
                            ),
                        ),
                    };
                    Ok(
                        (
                            StorageModel {
                                staker_states: put::<StakerState>(s.staker_states, after),
                                staking_state: Some(
                                    StakingState {
                                        total_unstake_locked: (total + withdraw_amount) as u128,
                                    },
                                ),
                                ..s
                            },
                            ResponseModel {
                                messages: seq![
                                    plain_call(
                                        s.contract_config->0.governance_token,
                                        CallModel::Burn { amount },
                                    ),
                                ],
                                attributes: seq![
                                    ("action"@, "unstake_token_hook"@),
                                    ("unstake_amount"@, decimal_text(withdraw_amount as nat)),
                                ],
                            },
                        ),
                    )
                }
            },
        }
    }
}

/// Locks the withdrawal for `amount` voting shares that `staker` gives
/// back. `share_balance` is the balance of voting shares that the burn is
/// taken from, as the token ledger reports it: the shares the staker has
/// handed over. `gov_token_total_supply` is the number of all voting
/// shares, and `contract_balance` the balance of staking tokens that the
/// token ledger reports for the contract.
pub fn unstake_token_hook(
    storage: &mut Storage,
    env: Env,
    info: MessageInfo,
    staker: String,
    amount: u128,
    share_balance: u128,
    gov_token_total_supply: u128,
    contract_balance: u128,
) -> (r: ContractResult<Response>)
    requires
        old(storage).wf(),
    ensures
        final(storage).wf(),
        committed(
            old(storage)@,
            final(storage)@,
            r,
            unstake_token_hook_spec(
                old(storage)@,
                env.contract.address@,
                env.block.height,
                info.sender@,
                staker@,
                amount,
                share_balance,
                gov_token_total_supply,
                contract_balance,
            ),
        ),
{
    if env.contract.address != info.sender {
        return Err(ContractError::Unauthorized {  });
    }
    if let Err(e) = checked_sub(share_balance, amount) {
        return Err(ContractError::OverflowError(e));
    }
    let mut staker_state = match StakerState::load_safe(storage, &staker) {
        Ok(s) => s,
        Err(e) => {
            return Err(ContractError::Std(e));
        },
    };
    let mut response = make_response("unstake_token_hook");
    let mut staking_state = match StakingState::load(storage) {
        Ok(s) => s,
        Err(e) => {
            return Err(ContractError::Std(e));
        },
    };
    staker_state.clean_votes(storage);
    let withdraw_amount = match simulate_unstake_amount(
        storage,
        amount,
        gov_token_total_supply,
        contract_balance,
    ) {
        Ok(v) => v,
        Err(e) => {
            return Err(e);
        },
    };
    let config = match StakingConfig::load(storage) {
        Ok(c) => c,
        Err(e) => {
            return Err(ContractError::Std(e));
        },
    };
    let contract_config = match ContractConfig::load(storage) {
        Ok(c) => c,
        Err(e) => {
            return Err(ContractError::Std(e));
        },
    };
    if env.block.height > u64::MAX - config.unstake_lock_period {
        return Err(
            ContractError::OverflowError(
                OverflowError::new(
                    OverflowOperation::Add,
                    env.block.height as u128,
                    config.unstake_lock_period as u128,
                ),
            ),
        );
    }
    let locked = staker_state.get_unstake_locked_amount();
    if let Err(e) = checked_add(locked, withdraw_amount) {
        return Err(ContractError::OverflowError(e));
    }
    let total = match checked_add(staking_state.total_unstake_locked, withdraw_amount) {
        Ok(v) => v,
        Err(e) => {
            return Err(ContractError::OverflowError(e));
        },
    };
    let ghost list = staker_state.unstake_locked_list@;
    staker_state.unstake_locked_list.push(
        (env.block.height + config.unstake_lock_period, withdraw_amount),
    );
    assert(staker_state.unstake_locked_list@.drop_last() =~= list);
    let _saved = staker_state.save(storage);
    staking_state.total_unstake_locked = total;
    let _saved = staking_state.save(storage);
    response = response.add_submessage(
        SubMsg::new(contract_config.governance_token.as_str(), Call::Burn { amount }),
    );
    response = response.add_attribute("unstake_amount", u128_to_string(withdraw_amount).as_str());
    proof {
        let expected = unstake_token_hook_spec(
            old(storage)@,
            env.contract.address@,
            env.block.height,
            info.sender@,
            staker@,
            amount,
            share_balance,
            gov_token_total_supply,
            contract_balance,
        )->Ok_0;
        assert(response@.messages =~= expected.1.messages);
        assert(response@.attributes =~= expected.1.attributes);
    }
    Ok(response)
}

/// Claiming the withdrawals of `sender` whose unlock height lies below
/// `height`: they leave the staker's list, their sum is no longer set
/// aside, and that many staking tokens are transferred to the staker.
/// Where nothing can be claimed yet, nothing changes but that the staker
/// is stored, and the transfer is one of nothing.
pub open spec fn claim_unstaked_token_spec(s: StorageModel, height: u64, sender: Seq<char>) -> Result<
    (StorageModel, ResponseModel),
    ErrorModel,
> {
    let before = staker_at(s.staker_states, sender);
    let amount = claimable(before.unstake_locked_list, height);
    if s.staking_state is None {
        Err(missing(Kind::StakingState))
    } else if s.staking_state->0.total_unstake_locked < amount {
        Err(
            overflow(
                OverflowError {
                    operation: OverflowOperation::Sub,
                    operand1: s.staking_state->0.total_unstake_locked,
                    operand2: amount as u128,
                },
            ),
        )
    } else if s.contract_config is None {
        Err(missing(Kind::ContractConfig))
    } else {
        Ok(
            (
                StorageModel {
                    staker_states: put::<StakerState>(
                        s.staker_states,
                        StakerModel {
                            unstake_locked_list: pending(before.unstake_locked_list, height),
                            ..before
                        },
                    ),
                    staking_state: Some(
                        StakingState {
                            total_unstake_locked: (s.staking_state->0.total_unstake_locked
                                - amount) as u128,
                        },
                    ),
                    ..s
                },
                ResponseModel {
                    messages: seq![
                        plain_call(
                            s.contract_config->0.staking_token,
                            CallModel::Transfer { recipient: sender, amount: amount as u128 },
                        ),
                    ],
                    attributes: seq![("action"@, "claim_unstaked_token"@)],
                },
            ),
        )
    }
}

/// Claims the withdrawals of the caller that are due.
pub fn claim_unstaked_token(storage: &mut Storage, env: Env, info: MessageInfo) -> (r: ContractResult<
    Response,
>)
    requires
        old(storage).wf(),
    ensures
        final(storage).wf(),
        committed(
            old(storage)@,
            final(storage)@,
            r,
            claim_unstaked_token_spec(old(storage)@, env.block.height, info.sender@),
        ),
{
    let mut staker_state = match StakerState::load_safe(storage, &info.sender) {
        Ok(s) => s,
        Err(e) => {
            return Err(ContractError::Std(e));
        },
    };
    let claimable_amount = staker_state.get_unstake_claimable_amount(env.block.height);
    let mut staking_state = match StakingState::load(storage) {
        Ok(s) => s,
        Err(e) => {
            return Err(ContractError::Std(e));
        },
    };
    let total = match checked_sub(staking_state.total_unstake_locked, claimable_amount) {
        Ok(v) => v,
        Err(e) => {
            return Err(ContractError::OverflowError(e));
        },
    };
    let contract_config = match ContractConfig::load(storage) {
        Ok(c) => c,
        Err(e) => {
            return Err(ContractError::Std(e));
        },
    };
    staking_state.total_unstake_locked = total;
    let _saved = staking_state.save(storage);
    proof {
        lemma_claim_splits(staker_state@.unstake_locked_list, env.block.height);
    }
    staker_state.clean_unstake_locked_list(env.block.height);
    let _saved = staker_state.save(storage);
    let mut response = make_response("claim_unstaked_token");
    response = response.add_submessage(
        SubMsg::new(
            contract_config.staking_token.as_str(),
            Call::Transfer { recipient: info.sender.clone(), amount: claimable_amount },
        ),
    );
    proof {
        let expected = claim_unstaked_token_spec(old(storage)@, env.block.height, info.sender@)->Ok_0;
        assert(response@.messages =~= expected.1.messages);
        assert(response@.attributes =~= expected.1.attributes);
    }
    Ok(response)
}

} // verus!
