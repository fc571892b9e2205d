use vstd::prelude::*;
use crate::common::states::{free_pool, load_contract_staking_token_balance};
use crate::common::{answered, ContractResult, Env};
use crate::decimal::{
    checked_mul_floor,
    mul_floor,
    ratio_atomics,
    CheckedFromRatioError,
    Decimal,
    DECIMAL_FRACTIONAL,
};
use crate::errors::{missing, overflow, reason, ContractError, ErrorModel, Kind, StdError};
use crate::errors::{OverflowError, OverflowOperation};
use crate::governance::models::{VoteInfoMsg};
use crate::governance::query_msgs::{
    vote_models,
    AllStakersResponse,
    StakerInfoResponse,
    StakerStateResponse,
    StakerStateResponseModel,
    StakingStateResponse,
    VotingPowerResponse,
};
use crate::staking::states::{
    active_votes,
    max_vote,
    staker_walk,
    StakerModel,
    StakerState,
    StakingConfig,
    StakingConfigModel,
    StakingState,
};
use crate::storage::{staker_key, Storage, StorageModel};
use crate::store::{lookup, models, text_of, walk};

verus! {

/// The stored rules of staking.
pub open spec fn staking_config_spec(s: StorageModel) -> Result<StakingConfigModel, ErrorModel> {
    match s.staking_config {
        Some(c) => Ok(c),
        None => Err(missing(Kind::StakingConfig)),
    }
}

/// The stored state of the staking ledger.
pub open spec fn staking_state_spec(s: StorageModel) -> Result<StakingStateResponse, ErrorModel> {
    match s.staking_state {
        Some(state) => Ok(StakingStateResponse { total_unstake_locked: state.total_unstake_locked }),
        None => Err(missing(Kind::StakingState)),
    }
}

/// The stored rules of staking.
pub fn get_staking_config(storage: &Storage, _env: Env) -> (r: ContractResult<StakingConfig>)
    ensures
        answered(r, staking_config_spec(storage@)),
{
    match StakingConfig::load(storage) {
        Ok(c) => Ok(c),
        Err(e) => Err(ContractError::Std(e)),
    }
}

/// The stored state of the staking ledger.
pub fn get_staking_state(storage: &Storage, _env: Env) -> (r: ContractResult<StakingStateResponse>)
    ensures
        answered(r, staking_state_spec(storage@)),
{
    match StakingState::load(storage) {
        Ok(s) => Ok(StakingStateResponse { total_unstake_locked: s.total_unstake_locked }),
        Err(e) => Err(ContractError::Std(e)),
    }
}

/// What the staker at `address` has at stake: nothing where the staker is
/// not stored; else the votes on polls still in progress, the largest of
/// them as the locked balance, and the withdrawals that wait.
pub open spec fn staker_response(s: StorageModel, address: Seq<char>) -> StakerStateResponseModel {
    match lookup::<StakerState>(s.staker_states, staker_key(address)) {
        None => StakerStateResponseModel {
            votes: Seq::empty(),
            locked_balance: 0,
            unstake_locked_list: Seq::empty(),
        },
        Some(m) => {
            let votes = active_votes(m.votes, s.polls);
            StakerStateResponseModel {
                votes,
                locked_balance: max_vote(votes),
                unstake_locked_list: m.unstake_locked_list,
            }
        },
    }
}

/// What the staker at `address` has at stake.
pub fn get_staker_state(storage: &Storage, _env: Env, address: String) -> (r: ContractResult<
    StakerStateResponse,
>)
    requires
        storage.wf(),
    ensures
        answered(r, Ok(staker_response(storage@, address@))),
{
    let loaded = match StakerState::may_load(storage, &address) {
        Ok(o) => o,
        Err(e) => {
            return Err(ContractError::Std(e));
        },
    };
    let mut staker_state = match loaded {
        None => {
            return Ok(StakerStateResponse::default());
        },
        Some(s) => s,
    };
    staker_state.clean_votes(storage);
    let mut votes: Vec<(u64, VoteInfoMsg)> = Vec::new();
    let mut i: usize = 0;
    while i < staker_state.votes.len()
        invariant
            i <= staker_state.votes.len(),
            votes.len() == i,
            forall|j: int|
                0 <= j < i ==> (#[trigger] votes[j]).0 == staker_state.votes[j].0 && votes[j].1@
                    == staker_state.votes[j].1@,
        decreases staker_state.votes.len() - i,
    {
        let vote = &staker_state.votes[i].1;
        let msg = VoteInfoMsg {
            voter: vote.voter.clone(),
            option: vote.option,
            amount: vote.amount,
        };
        votes.push((staker_state.votes[i].0, msg));
        i += 1;
    }
    assert(vote_models(votes@) =~= staker_state@.votes);
    let locked_balance = staker_state.get_vote_locked_balance();
    Ok(StakerStateResponse { votes, locked_balance, unstake_locked_list: staker_state.unstake_locked_list })
}

/// The share of `gov_token_balance` in `gov_token_total_supply`, or why
/// there is no such share.
pub open spec fn voting_power(gov_token_balance: u128, gov_token_total_supply: u128) -> Result<
    Decimal,
    ErrorModel,
> {
    match Decimal::ratio(gov_token_balance as int, gov_token_total_supply as int) {
        Ok(d) => Ok(d),
        Err(CheckedFromRatioError::DivideByZero) => Err(reason(StdError::DivideByZero)),
        Err(CheckedFromRatioError::Overflow) => Err(
            overflow(
                OverflowError {
                    operation: OverflowOperation::Mul,
                    operand1: gov_token_balance,
                    operand2: DECIMAL_FRACTIONAL,
                },
            ),
        ),
    }
}

/// A ratio for a contract call: the decimal, or the error it fails with.
pub fn contract_ratio(numerator: u128, denominator: u128) -> (r: ContractResult<Decimal>)
    ensures
        answered(r, voting_power(numerator, denominator)),
{
    match Decimal::checked_from_ratio(numerator, denominator) {
        Ok(d) => Ok(d),
        Err(CheckedFromRatioError::DivideByZero) => Err(
            ContractError::Std(StdError::DivideByZero),
        ),
        Err(CheckedFromRatioError::Overflow) => Err(
            ContractError::OverflowError(
                OverflowError::new(OverflowOperation::Mul, numerator, DECIMAL_FRACTIONAL),
            ),
        ),
    }
}

/// The answer to a question for the voting power of an address.
pub open spec fn voting_power_spec(gov_token_balance: u128, gov_token_total_supply: u128) -> Result<
    VotingPowerResponse,
    ErrorModel,
> {
    match voting_power(gov_token_balance, gov_token_total_supply) {
        Ok(d) => Ok(VotingPowerResponse { voting_power: d }),
        Err(e) => Err(e),
    }
}

/// The voting power of an address: its balance of voting shares, as the
/// token ledger reports it, as a share of all voting shares.
pub fn get_voting_power(_env: Env, gov_token_balance: u128, gov_token_total_supply: u128) -> (r:
    ContractResult<VotingPowerResponse>)
    ensures
        answered(r, voting_power_spec(gov_token_balance, gov_token_total_supply)),
{
    match contract_ratio(gov_token_balance, gov_token_total_supply) {
        Ok(d) => Ok(VotingPowerResponse { voting_power: d }),
        Err(e) => Err(e),
    }
}

/// A page of the addresses of the stakers, in ascending order, starting
/// strictly after `start_after`.
pub open spec fn staker_addresses(
    s: StorageModel,
    start_after: Option<Seq<char>>,
    limit: Option<u32>,
) -> Seq<Seq<char>> {
    walk::<StakerState>(s.staker_states, staker_walk(start_after, limit)).map_values(
        |m: StakerModel| m.address,
    )
}

/// A page of the addresses of the stakers, in ascending order, starting
/// strictly after `start_after`.
pub fn get_all_stakers(
    storage: &Storage,
    _env: Env,
    start_after: Option<String>,
    limit: Option<u32>,
) -> (r: ContractResult<AllStakersResponse>)
    ensures
        answered(r, Ok(staker_addresses(storage@, text_of(start_after), limit))),
{
    let found = match StakerState::load_all(storage, start_after, limit) {
        Ok(v) => v,
        Err(e) => {
            return Err(ContractError::Std(e));
        },
    };
    let ghost fm = models(found@);
    let mut stakers: Vec<StakerInfoResponse> = Vec::new();
    let mut i: usize = 0;
    while i < found.len()
        invariant
            fm == models(found@),
            i <= found.len(),
            stakers.len() == i,
            forall|j: int| 0 <= j < i ==> (#[trigger] stakers[j])@ == fm[j].address,
        decreases found.len() - i,
    {
        assert(found[i as int]@ == fm[i as int]);
        stakers.push(StakerInfoResponse { address: found[i].address.clone() });
        i += 1;
    }
    assert(models(stakers@) =~= fm.map_values(|m: StakerModel| m.address));
    Ok(AllStakersResponse { stakers })
}

/// The voting shares minted for a stake of `staking_amount` while the
/// free pool holds `staked_amount` and there are `gov_token_total_supply`
/// voting shares: the stake itself while there are no voting shares yet,
/// else the stake times the price of a staked token in voting shares,
/// `gov_token_total_supply / staked_amount`, both steps rounded down.
pub open spec fn stake_shares(
    gov_token_total_supply: u128,
    staked_amount: u128,
    staking_amount: u128,
) -> Result<u128, ErrorModel> {
    if gov_token_total_supply == 0 {
        Ok(staking_amount)
    } else {
        match voting_power(gov_token_total_supply, staked_amount) {
            Err(e) => Err(e),
            Ok(price) => if mul_floor(staking_amount as int, price.atomics as int) > u128::MAX {
                Err(
                    overflow(
                        OverflowError {
                            operation: OverflowOperation::Mul,
                            operand1: staking_amount,
                            operand2: price.atomics,
                        },
                    ),
                )
            } else {
                Ok(mul_floor(staking_amount as int, price.atomics as int) as u128)
            },
        }
    }
}

/// The voting shares that a stake of `staking_amount` mints.
pub fn simulate_stake_amount(
    gov_token_total_supply: u128,
    staked_amount: u128,
    staking_amount: u128,
) -> (r: ContractResult<u128>)
    ensures
        answered(r, stake_shares(gov_token_total_supply, staked_amount, staking_amount)),
{
    if gov_token_total_supply == 0 {
        Ok(staking_amount)
    } else {
        let price = match contract_ratio(gov_token_total_supply, staked_amount) {
            Ok(d) => d,
            Err(e) => {
                return Err(e);
            },
        };
        match checked_mul_floor(staking_amount, price) {
            Some(v) => Ok(v),
            None => Err(
                ContractError::OverflowError(
                    OverflowError::new(OverflowOperation::Mul, staking_amount, price.atomics),
                ),
            ),
        }
    }
}

/// The voting shares that a stake of `amount` would mint now, given the
/// balance of staking tokens that the token ledger reports for the
/// contract and the number of voting shares.
pub open spec fn stake_preview(
    s: StorageModel,
    amount: u128,
    contract_balance: u128,
    gov_token_total_supply: u128,
) -> Result<u128, ErrorModel> {
    match free_pool(s, contract_balance) {
        Err(e) => Err(e),
        Ok(pool) => stake_shares(gov_token_total_supply, pool, amount),
    }
}

/// The voting shares that a stake of `amount` would mint now.
pub fn get_simulate_stake_amount(
    storage: &Storage,
    _env: Env,
    amount: u128,
    contract_balance: u128,
    gov_token_total_supply: u128,
) -> (r: ContractResult<u128>)
    ensures
        answered(r, stake_preview(storage@, amount, contract_balance, gov_token_total_supply)),
{
    let staked_amount = match load_contract_staking_token_balance(storage, contract_balance) {
        Ok(v) => v,
        Err(e) => {
            return Err(ContractError::Std(e));
        },
    };
    simulate_stake_amount(gov_token_total_supply, staked_amount, amount)
}

/// The share of the free pool that `amount` voting shares stand for while
/// there are `gov_token_total_supply` of them, in atomic units: their
/// share of all voting shares, and never more than the whole.
pub open spec fn share_ratio(amount: u128, gov_token_total_supply: u128) -> int {
    let share = ratio_atomics(amount as int, gov_token_total_supply as int);
    if share <= DECIMAL_FRACTIONAL {
        share
    } else {
        DECIMAL_FRACTIONAL as int
    }
}

/// The staked tokens that `amount` voting shares give back: their share
/// of the free pool, rounded down.
pub open spec fn unstake_amount(
    s: StorageModel,
    amount: u128,
    gov_token_total_supply: u128,
    contract_balance: u128,
) -> Result<u128, ErrorModel> {
    if gov_token_total_supply == 0 {
        Err(reason(StdError::NothingStaked))
    } else {
        match free_pool(s, contract_balance) {
            Err(e) => Err(e),
            Ok(pool) => Ok(
                mul_floor(pool as int, share_ratio(amount, gov_token_total_supply)) as u128,
            ),
        }
    }
}

/// A share of at most the whole gives back no more than the pool.
pub proof fn lemma_share_of_pool(pool: int, share: int)
    requires
        0 <= pool,
        0 <= share <= DECIMAL_FRACTIONAL,
    ensures
        0 <= mul_floor(pool, share) <= pool,
{
    let f = DECIMAL_FRACTIONAL as int;
    assert(0 <= pool * share <= pool * f) by (nonlinear_arith)
        requires
            0 <= pool,
            0 <= share <= f,
    ;
    assert(0 <= (pool * share) / f <= pool) by (nonlinear_arith)
        requires
            0 <= pool * share <= pool * f,
            f > 0,
    ;
}

/// A ratio is not negative.
pub proof fn lemma_ratio_not_negative(numerator: int, denominator: int)
    requires
        0 <= numerator,
        0 < denominator,
    ensures
        0 <= ratio_atomics(numerator, denominator),
{
    let f = DECIMAL_FRACTIONAL as int;
    assert(0 <= (numerator * f) / denominator) by (nonlinear_arith)
        requires
            0 <= numerator,
            0 < denominator,
            f > 0,
    ;
}

/// The staked tokens that `amount` voting shares give back.
pub fn simulate_unstake_amount(
    storage: &Storage,
    amount: u128,
    gov_token_total_supply: u128,
    contract_balance: u128,
) -> (r: ContractResult<u128>)
    ensures
        answered(r, unstake_amount(storage@, amount, gov_token_total_supply, contract_balance)),
{
    if gov_token_total_supply == 0 {
        return Err(ContractError::Std(StdError::NothingStaked));
    }
    proof {
        lemma_ratio_not_negative(amount as int, gov_token_total_supply as int);
    }
    let share = match Decimal::checked_from_ratio(amount, gov_token_total_supply) {
        Ok(d) => d.min(Decimal::one()),
        Err(_) => Decimal::one(),
    };
    assert(share.atomics == share_ratio(amount, gov_token_total_supply));
    let staked_amount = match load_contract_staking_token_balance(storage, contract_balance) {
        Ok(v) => v,
        Err(e) => {
            return Err(ContractError::Std(e));
        },
    };
    proof {
        lemma_share_of_pool(staked_amount as int, share.atomics as int);
    }
    match checked_mul_floor(staked_amount, share) {
        Some(v) => Ok(v),
        None => Err(
            ContractError::OverflowError(
                OverflowError::new(OverflowOperation::Mul, staked_amount, share.atomics),
            ),
        ),
    }
}

/// The staked tokens that `amount` voting shares would give back now.
pub fn get_simulate_unstake_amount(
    storage: &Storage,
    _env: Env,
    amount: u128,
    gov_token_total_supply: u128,
    contract_balance: u128,
) -> (r: ContractResult<u128>)
    ensures
        answered(r, unstake_amount(storage@, amount, gov_token_total_supply, contract_balance)),
{
    simulate_unstake_amount(storage, amount, gov_token_total_supply, contract_balance)
}

} // verus!
