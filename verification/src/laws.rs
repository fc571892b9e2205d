//! What holds of the contract whatever its state and whoever calls it.
//! Each law is stated over the models that the contracts of the
//! operations speak of, and proved.
use vstd::prelude::*;
use vstd::arithmetic::div_mod::{lemma_fundamental_div_mod, lemma_fundamental_div_mod_converse};
use crate::common::{plain_call, CallModel, ResponseModel};
use crate::decimal::{mul_floor, ratio_atomics, DECIMAL_FRACTIONAL};
use crate::errors::{overflow, reason, ErrorModel, OverflowError, OverflowOperation, StdError};
use crate::governance::enumerations::{PollStatus, VoteOption};
use crate::governance::models::VoteModel;
use crate::poll::executions::{
    cast_vote_spec,
    decided,
    end_poll_spec,
};
use crate::poll::queries::poll_spec;
use crate::poll::states::{Poll, PollConfig, PollModel, PollResult, PollVoter, PollVoterModel};
use crate::staking::executions::{claim_unstaked_token_spec, unstake_token_hook_spec};
use crate::staking::queries::stake_shares;
use crate::staking::states::{
    active_votes,
    claimable,
    lemma_claim_splits,
    lemma_max_vote_below_sum,
    locked_total,
    max_vote,
    pending,
    staker_at,
    vote_sum,
    StakerModel,
    StakerState,
};
use crate::storage::{poll_key, staker_key, voter_key, StorageModel};
use crate::store::{has_key, lemma_lookup, lemma_put, lookup};

verus! {

/// While there are no voting shares, a stake mints as many voting shares
/// as it brings staked tokens.
pub proof fn law_first_stake_is_one_to_one(staked_amount: u128, amount: u128)
    ensures
        stake_shares(0, staked_amount, amount) == Ok::<u128, ErrorModel>(amount),
{
}

/// A stake mints voting shares in the proportion of the voting shares to
/// the free pool, rounded down: never more than
/// `amount * gov_token_total_supply / staked_amount`, and less by what
/// the two roundings cut off only, the one of the price to 18 fractional
/// digits and the one of the product to a whole share.
pub proof fn law_stake_is_proportional(
    gov_token_total_supply: u128,
    staked_amount: u128,
    amount: u128,
)
    requires
        gov_token_total_supply > 0,
        stake_shares(gov_token_total_supply, staked_amount, amount) is Ok,
    ensures
        staked_amount > 0,
        stake_shares(gov_token_total_supply, staked_amount, amount)->Ok_0 == mul_floor(
            amount as int,
            ratio_atomics(gov_token_total_supply as int, staked_amount as int),
        ),
        stake_shares(gov_token_total_supply, staked_amount, amount)->Ok_0 * staked_amount
            <= amount * gov_token_total_supply,
        amount * gov_token_total_supply * DECIMAL_FRACTIONAL < (stake_shares(
            gov_token_total_supply,
            staked_amount,
            amount,
        )->Ok_0 + 1) * staked_amount * DECIMAL_FRACTIONAL + amount * staked_amount,
{
    let f = DECIMAL_FRACTIONAL as int;
    let supply = gov_token_total_supply as int;
    let pool = staked_amount as int;
    let price = ratio_atomics(supply, pool);
    let x = mul_floor(amount as int, price);
    lemma_fundamental_div_mod(supply * f, pool);
    lemma_fundamental_div_mod(amount * price, f);
    assert(price * pool <= supply * f) by (nonlinear_arith)
        requires
            supply * f == pool * price + (supply * f) % pool,
            0 <= (supply * f) % pool,
    ;
    assert(x * f <= amount * price) by (nonlinear_arith)
        requires
            amount * price == f * x + (amount * price) % f,
            0 <= (amount * price) % f,
    ;
    assert(x * f * pool <= amount * supply * f) by (nonlinear_arith)
        requires
            x * f <= amount * price,
            price * pool <= supply * f,
            0 <= pool,
            0 <= amount,
    ;
    assert(x * pool <= amount * supply) by (nonlinear_arith)
        requires
            x * f * pool <= amount * supply * f,
            f > 0,
    ;
    assert(price * pool > supply * f - pool) by (nonlinear_arith)
        requires
            supply * f == pool * price + (supply * f) % pool,
            (supply * f) % pool < pool,
    ;
    assert((x + 1) * f > amount * price) by (nonlinear_arith)
        requires
            amount * price == f * x + (amount * price) % f,
            (amount * price) % f < f,
    ;
    assert(amount * supply * f < (x + 1) * pool * f + amount * pool) by (nonlinear_arith)
        requires
            price * pool > supply * f - pool,
            (x + 1) * f > amount * price,
            0 < pool,
            0 <= amount,
            0 <= price,
    ;
}

/// At an unchanged price, two stakes mint together what one stake of
/// both amounts mints, or one voting share less: each stake is rounded
/// down by itself. They mint the same where what the two roundings cut
/// off does not add up to a voting share.
pub proof fn law_stakes_add_up(gov_token_total_supply: u128, staked_amount: u128, a: u128, b: u128)
    requires
        a + b <= u128::MAX,
        stake_shares(gov_token_total_supply, staked_amount, a) is Ok,
        stake_shares(gov_token_total_supply, staked_amount, b) is Ok,
        stake_shares(gov_token_total_supply, staked_amount, (a + b) as u128) is Ok,
    ensures
        ({
            let one = stake_shares(gov_token_total_supply, staked_amount, a)->Ok_0;
            let other = stake_shares(gov_token_total_supply, staked_amount, b)->Ok_0;
            let both = stake_shares(gov_token_total_supply, staked_amount, (a + b) as u128)->Ok_0;
            let price = if gov_token_total_supply == 0 {
                DECIMAL_FRACTIONAL as int
            } else {
                ratio_atomics(gov_token_total_supply as int, staked_amount as int)
            };
            &&& one + other <= both <= one + other + 1
            &&& (a * price) % (DECIMAL_FRACTIONAL as int) + (b * price) % (DECIMAL_FRACTIONAL as int)
                < DECIMAL_FRACTIONAL ==> both == one + other
        }),
{
    let f = DECIMAL_FRACTIONAL as int;
    if gov_token_total_supply == 0 {
        assert((a * f) % f == 0 && (b * f) % f == 0) by (nonlinear_arith)
            requires
                f > 0,
        ;
    } else {
        let price = ratio_atomics(gov_token_total_supply as int, staked_amount as int);
        let ap = a * price;
        let bp = b * price;
        assert((a + b) * price == ap + bp) by (nonlinear_arith)
            requires
                ap == a * price,
                bp == b * price,
        ;
        lemma_fundamental_div_mod(ap, f);
        lemma_fundamental_div_mod(bp, f);
        let qa = ap / f;
        let qb = bp / f;
        let ra = ap % f;
        let rb = bp % f;
        if ra + rb < f {
            assert(ap + bp == (qa + qb) * f + (ra + rb)) by (nonlinear_arith)
                requires
                    ap == f * qa + ra,
                    bp == f * qb + rb,
            ;
            lemma_fundamental_div_mod_converse(ap + bp, f, qa + qb, ra + rb);
        } else {
            assert(ap + bp == (qa + qb + 1) * f + (ra + rb - f)) by (nonlinear_arith)
                requires
                    ap == f * qa + ra,
                    bp == f * qb + rb,
            ;
            lemma_fundamental_div_mod_converse(ap + bp, f, qa + qb + 1, ra + rb - f);
        }
    }
}

/// The voting shares that votes lock are the largest amount among them:
/// no vote is above it, it is the amount of one of them, and it is not
/// above their sum.
pub proof fn law_locked_balance_is_largest_vote(votes: Seq<(u64, VoteModel)>)
    ensures
        forall|i: int| 0 <= i < votes.len() ==> (#[trigger] votes[i]).1.amount <= max_vote(votes),
        votes.len() > 0 ==> exists|i: int| 0 <= i < votes.len() && votes[i].1.amount == max_vote(votes),
        votes.len() == 0 ==> max_vote(votes) == 0,
        max_vote(votes) <= vote_sum(votes),
    decreases votes.len(),
{
    lemma_max_vote_below_sum(votes);
    if votes.len() > 0 {
        let front = votes.drop_last();
        law_locked_balance_is_largest_vote(front);
        assert forall|i: int| 0 <= i < votes.len() implies (#[trigger] votes[i]).1.amount
            <= max_vote(votes) by {
            if i < front.len() {
                assert(front[i] == votes[i]);
            }
        }
        if votes.last().1.amount > max_vote(front) {
            assert(votes[votes.len() - 1].1.amount == max_vote(votes));
        } else if front.len() > 0 {
            let i = choose|i: int| 0 <= i < front.len() && front[i].1.amount == max_vote(front);
            assert(votes[i] == front[i]);
        } else {
            assert(votes[votes.len() - 1].1.amount == max_vote(votes));
        }
    }
}

/// Once a vote is cast, the votes of the voter on polls in progress,
/// taken together, are within the balance the vote was cast with, and so
/// are the voting shares they lock.
pub proof fn law_votes_stay_within_balance(
    s: StorageModel,
    height: u64,
    sender: Seq<char>,
    poll_id: u64,
    option: VoteOption,
    amount: u128,
    gov_token_balance: u128,
)
    requires
        s.wf(),
        cast_vote_spec(s, height, sender, poll_id, option, amount, gov_token_balance) is Ok,
    ensures
        ({
            let after = cast_vote_spec(
                s,
                height,
                sender,
                poll_id,
                option,
                amount,
                gov_token_balance,
            )->Ok_0.0;
            let staker = staker_at(after.staker_states, sender);
            &&& staker.votes == active_votes(staker_at(s.staker_states, sender).votes, s.polls).push(
                (poll_id, VoteModel { voter: sender, option, amount }),
            )
            &&& vote_sum(staker.votes) <= gov_token_balance
            &&& max_vote(staker.votes) <= gov_token_balance
        }),
{
    let before = staker_at(s.staker_states, sender);
    let active = active_votes(before.votes, s.polls);
    let vote = VoteModel { voter: sender, option, amount };
    let staker = StakerModel {
        address: sender,
        votes: active.push((poll_id, vote)),
        unstake_locked_list: before.unstake_locked_list,
    };
    lemma_put::<StakerState>(s.staker_states, staker);
    assert(active.push((poll_id, vote)).drop_last() =~= active);
    lemma_max_vote_below_sum(staker.votes);
}

/// A voter votes on a poll once: after a vote is cast, every further vote
/// of the same voter on the same poll is rejected, as a second vote while
/// the poll takes votes.
pub proof fn law_second_vote_is_rejected(
    s: StorageModel,
    height: u64,
    sender: Seq<char>,
    poll_id: u64,
    option: VoteOption,
    amount: u128,
    gov_token_balance: u128,
    later_height: u64,
    later_option: VoteOption,
    later_amount: u128,
    later_balance: u128,
)
    requires
        s.wf(),
        cast_vote_spec(s, height, sender, poll_id, option, amount, gov_token_balance) is Ok,
    ensures
        ({
            let after = cast_vote_spec(
                s,
                height,
                sender,
                poll_id,
                option,
                amount,
                gov_token_balance,
            )->Ok_0.0;
            let again = cast_vote_spec(
                after,
                later_height,
                sender,
                poll_id,
                later_option,
                later_amount,
                later_balance,
            );
            &&& has_key::<PollVoter>(after.poll_voters, voter_key(poll_id, sender))
            &&& again is Err
            &&& lookup::<Poll>(after.polls, poll_key(poll_id))->0.in_progress(later_height)
                ==> again == Err::<(StorageModel, ResponseModel), ErrorModel>(
                reason(StdError::AlreadyVoted),
            )
        }),
{
    lemma_lookup::<Poll>(s.polls, poll_key(poll_id));
    let poll = lookup::<Poll>(s.polls, poll_key(poll_id))->0;
    let vote = VoteModel { voter: sender, option, amount };
    lemma_put::<Poll>(s.polls, poll.voted(option, amount));
    lemma_put::<PollVoter>(s.poll_voters, PollVoterModel { poll_id, vote });
}

/// A vote that is cast is counted: it adds its amount to the tally of its
/// option and leaves the other two tallies as they were, and so the poll
/// is reported.
pub proof fn law_vote_is_counted(
    s: StorageModel,
    height: u64,
    sender: Seq<char>,
    poll_id: u64,
    option: VoteOption,
    amount: u128,
    gov_token_balance: u128,
)
    requires
        s.wf(),
        cast_vote_spec(s, height, sender, poll_id, option, amount, gov_token_balance) is Ok,
    ensures
        ({
            let after = cast_vote_spec(
                s,
                height,
                sender,
                poll_id,
                option,
                amount,
                gov_token_balance,
            )->Ok_0.0;
            let before = poll_spec(s, poll_id)->Ok_0;
            let reported = poll_spec(after, poll_id)->Ok_0;
            &&& poll_spec(s, poll_id) is Ok
            &&& poll_spec(after, poll_id) is Ok
            &&& reported.status == PollStatus::InProgress
            &&& reported.yes_votes == before.yes_votes + (if option == VoteOption::Yes {
                amount
            } else {
                0
            })
            &&& reported.no_votes == before.no_votes + (if option == VoteOption::No {
                amount
            } else {
                0
            })
            &&& reported.abstain_votes == before.abstain_votes + (if option
                == VoteOption::Abstain {
                amount
            } else {
                0
            })
        }),
{
    lemma_lookup::<Poll>(s.polls, poll_key(poll_id));
    let poll = lookup::<Poll>(s.polls, poll_key(poll_id))->0;
    lemma_put::<Poll>(s.polls, poll.voted(option, amount));
}

/// The table by which a poll is decided. A poll without votes does not
/// reach the quorum, and neither does one in which less than the
/// configured share of the voting shares took part. A poll that reaches
/// the quorum does not reach the threshold unless the share of yes among
/// yes and no is above the configured one. Every other poll passes.
pub proof fn law_tally_table(poll: PollModel, config: PollConfig)
    ensures
        poll.vote_amount() == 0 ==> poll.tally(config) == PollResult::QuorumNotReached,
        poll.quorum() < config.quorum.atomics ==> poll.tally(config)
            == PollResult::QuorumNotReached,
        poll.vote_amount() != 0 && poll.quorum() >= config.quorum.atomics && (poll.yes_votes
            + poll.no_votes == 0 || ratio_atomics(
            poll.yes_votes as int,
            poll.yes_votes + poll.no_votes,
        ) <= config.threshold.atomics) ==> poll.tally(config) == PollResult::ThresholdNotReached,
        poll.vote_amount() != 0 && poll.quorum() >= config.quorum.atomics && poll.yes_votes
            + poll.no_votes != 0 && ratio_atomics(
            poll.yes_votes as int,
            poll.yes_votes + poll.no_votes,
        ) > config.threshold.atomics ==> poll.tally(config) == PollResult::Passed,
{
}

/// A poll that is ended has the status that its tally leads to, and
/// stands under it in the status index. Its deposit goes back to its
/// creator if it passed, and only then: the end of a rejected poll asks
/// for no transfer.
pub proof fn law_end_poll_follows_the_tally(s: StorageModel, height: u64, poll_id: u64)
    requires
        s.wf(),
        end_poll_spec(s, height, poll_id) is Ok,
    ensures
        ({
            let before = lookup::<Poll>(s.polls, poll_key(poll_id))->0;
            let (after, response) = end_poll_spec(s, height, poll_id)->Ok_0;
            let ended = lookup::<Poll>(after.polls, poll_key(poll_id));
            let result = before.tally(s.poll_config->0);
            &&& ended is Some
            &&& ended->0.status == decided(result)
            &&& before.status.leads_to(ended->0.status)
            &&& ended->0.yes_votes == before.yes_votes
            &&& ended->0.no_votes == before.no_votes
            &&& ended->0.abstain_votes == before.abstain_votes
            &&& has_key::<crate::storage::IndexEntry>(
                after.poll_status_index.ids(decided(result)),
                poll_key(poll_id),
            )
            &&& result == PollResult::Passed ==> response.messages == seq![
                plain_call(
                    s.contract_config->0.governance_token,
                    CallModel::Transfer {
                        recipient: before.creator,
                        amount: before.deposit_amount,
                    },
                ),
            ]
            &&& result != PollResult::Passed ==> response.messages == Seq::<
                crate::common::SubMsgModel,
            >::empty()
        }),
{
    lemma_lookup::<Poll>(s.polls, poll_key(poll_id));
    let before = lookup::<Poll>(s.polls, poll_key(poll_id))->0;
    let status = decided(before.tally(s.poll_config->0));
    lemma_put::<Poll>(s.polls, PollModel { status, _status: Some(status), ..before });
    let index = match before._status {
        Some(prev) => s.poll_status_index.remove(prev, before.id),
        None => s.poll_status_index,
    };
    if let Some(prev) = before._status {
        crate::store::lemma_delete::<crate::storage::IndexEntry>(
            s.poll_status_index.ids(prev),
            poll_key(before.id),
        );
    }
    lemma_put::<crate::storage::IndexEntry>(index.ids(status), before.id);
}

/// A poll cannot be ended before its voting period is over: up to its end
/// height, the attempt fails because voting is not closed yet, whatever
/// else holds of the poll.
pub proof fn law_end_poll_waits_for_the_end_height(s: StorageModel, height: u64, poll_id: u64)
    requires
        lookup::<Poll>(s.polls, poll_key(poll_id)) is Some,
        height <= lookup::<Poll>(s.polls, poll_key(poll_id))->0.end_height,
    ensures
        end_poll_spec(s, height, poll_id) == Err::<(StorageModel, ResponseModel), ErrorModel>(
            reason(StdError::VotingNotYetClosed),
        ),
{
}

/// A request to unstake more voting shares than the staker has fails with
/// an overflow.
pub proof fn law_unstake_beyond_balance_overflows(
    s: StorageModel,
    contract_address: Seq<char>,
    height: u64,
    staker: Seq<char>,
    amount: u128,
    share_balance: u128,
    gov_token_total_supply: u128,
    contract_balance: u128,
)
    requires
        share_balance < amount,
    ensures
        unstake_token_hook_spec(
            s,
            contract_address,
            height,
            contract_address,
            staker,
            amount,
            share_balance,
            gov_token_total_supply,
            contract_balance,
        ) == Err::<(StorageModel, ResponseModel), ErrorModel>(
            overflow(
                OverflowError {
                    operation: OverflowOperation::Sub,
                    operand1: share_balance,
                    operand2: amount,
                },
            ),
        ),
{
}

/// Withdrawals that all wait for a height that is not reached yet leave
/// nothing to claim, and all of them stay pending.
pub proof fn law_nothing_matures_early(list: Seq<(u64, u128)>, height: u64)
    requires
        forall|i: int| 0 <= i < list.len() ==> (#[trigger] list[i]).0 >= height,
    ensures
        claimable(list, height) == 0,
        pending(list, height) == list,
    decreases list.len(),
{
    reveal(Seq::filter);
    if list.len() > 0 {
        let front = list.drop_last();
        assert forall|i: int| 0 <= i < front.len() implies (#[trigger] front[i]).0 >= height by {
            assert(front[i] == list[i]);
        }
        law_nothing_matures_early(front, height);
        assert(list[list.len() - 1].0 >= height);
        assert(front.push(list.last()) =~= list);
    }
}

/// A claim takes what has matured and nothing else: the staker's list
/// keeps the withdrawals that still wait; what is set aside for
/// withdrawals, for the staker and as a whole, goes down by the sum of
/// the withdrawals that have matured; and that sum is transferred to the
/// staker.
pub proof fn law_claim_takes_what_has_matured(s: StorageModel, height: u64, sender: Seq<char>)
    requires
        s.wf(),
        claim_unstaked_token_spec(s, height, sender) is Ok,
    ensures
        ({
            let before = staker_at(s.staker_states, sender);
            let (after, response) = claim_unstaked_token_spec(s, height, sender)->Ok_0;
            let staker = staker_at(after.staker_states, sender);
            let matured = claimable(before.unstake_locked_list, height);
            &&& staker.unstake_locked_list == pending(before.unstake_locked_list, height)
            &&& locked_total(staker.unstake_locked_list) == locked_total(
                before.unstake_locked_list,
            ) - matured
            &&& after.staking_state->0.total_unstake_locked
                == s.staking_state->0.total_unstake_locked - matured
            &&& response.messages == seq![
                plain_call(
                    s.contract_config->0.staking_token,
                    CallModel::Transfer { recipient: sender, amount: matured as u128 },
                ),
            ]
        }),
{
    let before = staker_at(s.staker_states, sender);
    lemma_lookup::<StakerState>(s.staker_states, staker_key(sender));
    lemma_claim_splits(before.unstake_locked_list, height);
    lemma_put::<StakerState>(
        s.staker_states,
        StakerModel { unstake_locked_list: pending(before.unstake_locked_list, height), ..before },
    );
}


/// A page of polls is in the order of their ids: descending, or ascending
/// where that is asked for. Each poll on it is stored and lies strictly
/// beyond the cursor in that order, and the page is no longer than the
/// largest page.
pub proof fn law_polls_are_listed_in_order(
    s: StorageModel,
    start_after: Option<u64>,
    limit: Option<u32>,
    order_by: Option<crate::common::OrderBy>,
)
    requires
        s.wf(),
    ensures
        crate::poll::states::listed_polls(s, None, start_after, limit, order_by) is Ok,
        ({
            let page = crate::poll::states::listed_polls(s, None, start_after, limit, order_by)->Ok_0;
            let ascending = order_by == Some(crate::common::OrderBy::Asc);
            &&& page.len() <= crate::poll::states::MAX_LIMIT
            &&& forall|i: int| 0 <= i < page.len() ==> s.polls.contains(#[trigger] page[i])
            &&& forall|i: int, j: int|
                0 <= i < j < page.len() ==> if ascending {
                    (#[trigger] page[i]).id < (#[trigger] page[j]).id
                } else {
                    page[i].id > page[j].id
                }
            &&& forall|i: int|
                0 <= i < page.len() && start_after is Some ==> if ascending {
                    (#[trigger] page[i]).id > start_after->0
                } else {
                    page[i].id < start_after->0
                }
        }),
{
    let w = crate::poll::states::poll_walk(start_after, limit, order_by);
    let page = crate::store::walk::<Poll>(s.polls, w);
    crate::store::lemma_walk_reports_records::<Poll>(s.polls, w);
    crate::store::lemma_walk_is_in_order::<Poll>(s.polls, w);
    assert forall|i: int, j: int| 0 <= i < j < page.len() implies if !w.descending {
        (#[trigger] page[i]).id < (#[trigger] page[j]).id
    } else {
        page[i].id > page[j].id
    } by {
        assert(crate::store::comes_before::<Poll>(page[i], page[j], w.descending));
        crate::store::lemma_bytes_irreflexive(vstd::utf8::encode_utf8(Seq::<char>::empty()));
    }
    assert forall|i: int| 0 <= i < page.len() && start_after is Some implies if !w.descending {
        (#[trigger] page[i]).id > start_after->0
    } else {
        page[i].id < start_after->0
    } by {
        assert(w.admits(poll_key(page[i].id)));
        crate::store::lemma_bytes_irreflexive(vstd::utf8::encode_utf8(Seq::<char>::empty()));
    }
}

} // verus!
