use vstd::prelude::*;
use crate::errors::{Kind, StdError, StdResult};
use crate::governance::enumerations::PollStatus;
use crate::governance::models::VoteModel;
use crate::poll::states::{page_limit, page_size, Poll, PollModel, VoteInfo};
use crate::storage::{no_text, poll_key, staker_key, Storage, StorageModel};
use crate::store::{
    duplicate_text,
    lemma_filter_step,
    lookup,
    models,
    put,
    text_of,
    walk,
    Cursor,
    Duplicate,
    Record,
    StoreKey,
    Walk,
};

verus! {

/// The largest page a listing of stakers hands out.
pub const MAX_STAKER_LIMIT: u32 = 100;

/// The page a listing of stakers hands out when none is asked for.
pub const DEFAULT_STAKER_LIMIT: u32 = 10;

/// The rules of staking.
#[derive(Debug, PartialEq, Eq)]
pub struct StakingConfig {
    /// The contract that is asked to distribute rewards before the pool
    /// changes, if there is one.
    pub distributor: Option<String>,
    /// The number of blocks between a request to unstake and its claim.
    pub unstake_lock_period: u64,
}

/// The model of a [`StakingConfig`].
pub ghost struct StakingConfigModel {
    pub distributor: Option<Seq<char>>,
    pub unstake_lock_period: u64,
}

impl View for StakingConfig {
    type V = StakingConfigModel;

    open spec fn view(&self) -> StakingConfigModel {
        StakingConfigModel {
            distributor: text_of(self.distributor),
            unstake_lock_period: self.unstake_lock_period,
        }
    }
}

impl Duplicate for StakingConfig {
    fn duplicate(&self) -> (r: Self) {
        StakingConfig {
            distributor: duplicate_text(&self.distributor),
            unstake_lock_period: self.unstake_lock_period,
        }
    }
}

impl Clone for StakingConfig {
    fn clone(&self) -> (r: Self)
        ensures
            r@ == self@,
    {
        self.duplicate()
    }
}

impl StakingConfig {
    /// Stores these rules in place of those that were there.
    pub fn save(&self, storage: &mut Storage) -> (r: StdResult<()>)
        requires
            old(storage).wf(),
        ensures
            r is Ok,
            final(storage).wf(),
            final(storage)@ == (StorageModel { staking_config: Some(self@), ..old(storage)@ }),
    {
        storage.staking_config = Some(self.duplicate());
        Ok(())
    }

    /// The stored rules.
    pub fn load(storage: &Storage) -> (r: StdResult<StakingConfig>)
        ensures
            match storage@.staking_config {
                Some(c) => r matches Ok(v) && v@ == c,
                None => r matches Err(e) && e == (StdError::NotFound {
                    kind: Kind::StakingConfig,
                }),
            },
    {
        match &storage.staking_config {
            Some(c) => Ok(c.duplicate()),
            None => Err(StdError::not_found(Kind::StakingConfig)),
        }
    }
}

/// The staking ledger as a whole: how many staked tokens are set aside
/// for withdrawals that wait for their unlock height.
#[derive(Clone, Copy, Debug, PartialEq, Eq, Structural)]
pub struct StakingState {
    pub total_unstake_locked: u128,
}

impl StakingState {
    /// Stores this state in place of the one that was there.
    pub fn save(&self, storage: &mut Storage) -> (r: StdResult<()>)
        requires
            old(storage).wf(),
        ensures
            r is Ok,
            final(storage).wf(),
            final(storage)@ == (StorageModel { staking_state: Some(*self), ..old(storage)@ }),
    {
        storage.staking_state = Some(*self);
        Ok(())
    }

    /// The stored state.
    pub fn load(storage: &Storage) -> (r: StdResult<StakingState>)
        ensures
            r == (match storage@.staking_state {
                Some(c) => Ok::<StakingState, StdError>(c),
                None => Err::<StakingState, StdError>(
                    StdError::NotFound { kind: Kind::StakingState },
                ),
            }),
    {
        match storage.staking_state {
            Some(c) => Ok(c),
            None => Err(StdError::not_found(Kind::StakingState)),
        }
    }
}

/// The sum of the amounts of a list of withdrawals.
pub open spec fn locked_total(list: Seq<(u64, u128)>) -> int
    decreases list.len(),
{
    if list.len() == 0 {
        0
    } else {
        locked_total(list.drop_last()) + list.last().1
    }
}

/// The sum of the withdrawals whose unlock height lies below `height`.
pub open spec fn claimable(list: Seq<(u64, u128)>, height: u64) -> int
    decreases list.len(),
{
    if list.len() == 0 {
        0
    } else {
        claimable(list.drop_last(), height) + if list.last().0 < height {
            list.last().1 as int
        } else {
            0int
        }
    }
}

/// The withdrawals whose unlock height is `height` or above.
pub open spec fn pending(list: Seq<(u64, u128)>, height: u64) -> Seq<(u64, u128)> {
    list.filter(|e: (u64, u128)| e.0 >= height)
}

/// The sum of the amounts of a list of votes.
pub open spec fn vote_sum(votes: Seq<(u64, VoteModel)>) -> int
    decreases votes.len(),
{
    if votes.len() == 0 {
        0
    } else {
        vote_sum(votes.drop_last()) + votes.last().1.amount
    }
}

/// The largest amount in a list of votes: 0 for an empty list.
pub open spec fn max_vote(votes: Seq<(u64, VoteModel)>) -> u128
    decreases votes.len(),
{
    if votes.len() == 0 {
        0
    } else {
        let rest = max_vote(votes.drop_last());
        if votes.last().1.amount > rest {
            votes.last().1.amount
        } else {
            rest
        }
    }
}

/// Whether the poll `poll_id` is stored and still in progress.
pub open spec fn poll_active(polls: Seq<PollModel>, poll_id: u64) -> bool {
    lookup::<Poll>(polls, poll_key(poll_id)) matches Some(p) && p.status == PollStatus::InProgress
}

/// The votes of `votes` on polls that are still in progress.
pub open spec fn active_votes(votes: Seq<(u64, VoteModel)>, polls: Seq<PollModel>) -> Seq<
    (u64, VoteModel),
> {
    votes.filter(|v: (u64, VoteModel)| poll_active(polls, v.0))
}

/// The models of a list of votes, each with the id of its poll.
pub open spec fn vote_list(votes: Seq<(u64, VoteInfo)>) -> Seq<(u64, VoteModel)> {
    votes.map_values(|v: (u64, VoteInfo)| (v.0, v.1@))
}

/// A prefix of a list of withdrawals sums to no more than the list.
pub proof fn lemma_locked_prefix(list: Seq<(u64, u128)>, i: int)
    requires
        0 <= i <= list.len(),
    ensures
        0 <= locked_total(list.take(i)) <= locked_total(list),
    decreases list.len(),
{
    if list.len() == 0 {
        assert(list.take(i) =~= list);
    } else if i == list.len() {
        assert(list.take(i) =~= list);
        lemma_locked_prefix(list.drop_last(), i - 1);
        assert(list.drop_last().take(i - 1) =~= list.take(i - 1));
        lemma_locked_prefix(list.drop_last(), list.len() - 1);
        assert(list.drop_last().take(list.len() - 1) =~= list.drop_last());
    } else {
        lemma_locked_prefix(list.drop_last(), i);
        assert(list.drop_last().take(i) =~= list.take(i));
    }
}

/// What can be claimed and what stays pending add up to the whole list.
pub proof fn lemma_claim_splits(list: Seq<(u64, u128)>, height: u64)
    ensures
        claimable(list, height) + locked_total(pending(list, height)) == locked_total(list),
        0 <= claimable(list, height),
        0 <= locked_total(pending(list, height)),
    decreases list.len(),
{
    reveal(Seq::filter);
    if list.len() > 0 {
        lemma_claim_splits(list.drop_last(), height);
        let rest = pending(list.drop_last(), height);
        if list.last().0 >= height {
            assert(pending(list, height) == rest.push(list.last()));
            assert(rest.push(list.last()).drop_last() =~= rest);
        }
    }
}

/// The largest vote is no more than the sum of the votes.
pub proof fn lemma_max_vote_below_sum(votes: Seq<(u64, VoteModel)>)
    ensures
        0 <= max_vote(votes) <= vote_sum(votes),
    decreases votes.len(),
{
    if votes.len() > 0 {
        lemma_max_vote_below_sum(votes.drop_last());
    }
}

/// A prefix of a list of votes sums to no more than the list.
pub proof fn lemma_vote_sum_prefix(votes: Seq<(u64, VoteModel)>, i: int)
    requires
        0 <= i <= votes.len(),
    ensures
        0 <= vote_sum(votes.take(i)) <= vote_sum(votes),
    decreases votes.len(),
{
    if votes.len() == 0 {
        assert(votes.take(i) =~= votes);
    } else if i == votes.len() {
        assert(votes.take(i) =~= votes);
        lemma_vote_sum_prefix(votes.drop_last(), votes.len() - 1);
        assert(votes.drop_last().take(votes.len() - 1) =~= votes.drop_last());
    } else {
        lemma_vote_sum_prefix(votes.drop_last(), i);
        assert(votes.drop_last().take(i) =~= votes.take(i));
    }
}

/// What one staker has at stake.
#[derive(Debug, PartialEq, Eq)]
pub struct StakerState {
    pub address: String,
    /// The votes the staker has cast, each with the id of its poll.
    pub votes: Vec<(u64, VoteInfo)>,
    /// The withdrawals that wait: each an unlock height and an amount.
    pub unstake_locked_list: Vec<(u64, u128)>,
}

/// The model of a [`StakerState`].
pub ghost struct StakerModel {
    pub address: Seq<char>,
    pub votes: Seq<(u64, VoteModel)>,
    pub unstake_locked_list: Seq<(u64, u128)>,
}

impl StakerModel {
    /// The staker at `address` with nothing at stake.
    pub open spec fn default(address: Seq<char>) -> StakerModel {
        StakerModel { address, votes: Seq::empty(), unstake_locked_list: Seq::empty() }
    }
}

impl View for StakerState {
    type V = StakerModel;

    open spec fn view(&self) -> StakerModel {
        StakerModel {
            address: self.address@,
            votes: vote_list(self.votes@),
            unstake_locked_list: self.unstake_locked_list@,
        }
    }
}

/// Copies a list of votes.
pub fn duplicate_votes(votes: &Vec<(u64, VoteInfo)>) -> (r: Vec<(u64, VoteInfo)>)
    ensures
        vote_list(r@) == vote_list(votes@),
{
    let mut out: Vec<(u64, VoteInfo)> = Vec::new();
    let mut i: usize = 0;
    while i < votes.len()
        invariant
            i <= votes.len(),
            out.len() == i,
            forall|j: int|
                0 <= j < i ==> (#[trigger] out[j]).0 == votes[j].0 && out[j].1@ == votes[j].1@,
        decreases votes.len() - i,
    {
        out.push((votes[i].0, votes[i].1.duplicate()));
        i += 1;
    }
    assert(vote_list(out@) =~= vote_list(votes@));
    out
}

/// Copies a list of withdrawals.
pub fn duplicate_locks(list: &Vec<(u64, u128)>) -> (r: Vec<(u64, u128)>)
    ensures
        r@ == list@,
{
    let mut out: Vec<(u64, u128)> = Vec::new();
    let mut i: usize = 0;
    while i < list.len()
        invariant
            i <= list.len(),
            out@ == list@.take(i as int),
        decreases list.len() - i,
    {
        out.push(list[i]);
        assert(out@ =~= list@.take(i + 1));
        i += 1;
    }
    assert(list@.take(i as int) =~= list@);
    out
}

impl Duplicate for StakerState {
    fn duplicate(&self) -> (r: Self) {
        StakerState {
            address: self.address.clone(),
            votes: duplicate_votes(&self.votes),
            unstake_locked_list: duplicate_locks(&self.unstake_locked_list),
        }
    }
}

impl Clone for StakerState {
    fn clone(&self) -> (r: Self)
        ensures
            r@ == self@,
    {
        self.duplicate()
    }
}

impl Record for StakerState {
    open spec fn key_of(m: StakerModel) -> StoreKey {
        staker_key(m.address)
    }

    /// The withdrawals of a staker can be added up.
    open spec fn valid(m: StakerModel) -> bool {
        locked_total(m.unstake_locked_list) <= u128::MAX
    }

    fn key_num(&self) -> (n: u64) {
        0
    }

    fn key_text(&self) -> (t: &str) {
        self.address.as_str()
    }
}

/// The bounds of a listing of stakers.
pub open spec fn staker_walk(start_after: Option<Seq<char>>, limit: Option<u32>) -> Walk {
    Walk {
        prefix: None,
        after: match start_after {
            Some(a) => Some(staker_key(a)),
            None => None,
        },
        descending: false,
        limit: page_size(limit, DEFAULT_STAKER_LIMIT, MAX_STAKER_LIMIT),
    }
}

/// The staker stored at `address`, or the one with nothing at stake.
pub open spec fn staker_at(stakers: Seq<StakerModel>, address: Seq<char>) -> StakerModel {
    match lookup::<StakerState>(stakers, staker_key(address)) {
        Some(m) => m,
        None => StakerModel::default(address),
    }
}

impl StakerState {
    /// The staker at `address` with nothing at stake.
    pub fn default(address: &String) -> (r: StakerState)
        ensures
            r@ == StakerModel::default(address@),
    {
        let r = StakerState {
            address: address.clone(),
            votes: Vec::new(),
            unstake_locked_list: Vec::new(),
        };
        assert(r@.votes =~= Seq::empty());
        r
    }

    /// Stores this staker under its address, in place of the one that was
    /// there.
    pub fn save(&self, storage: &mut Storage) -> (r: StdResult<()>)
        requires
            old(storage).wf(),
            StakerState::valid(self@),
        ensures
            r is Ok,
            final(storage).wf(),
            final(storage)@ == (StorageModel {
                staker_states: put::<StakerState>(old(storage)@.staker_states, self@),
                ..old(storage)@
            }),
    {
        storage.staker_states.put(self.duplicate());
        Ok(())
    }

    /// The staker stored at `address`, if there is one.
    pub fn may_load(storage: &Storage, address: &String) -> (r: StdResult<Option<StakerState>>)
        requires
            storage.wf(),
        ensures
            r matches Ok(o) && match lookup::<StakerState>(
                storage@.staker_states,
                staker_key(address@),
            ) {
                Some(m) => o matches Some(s) && s@ == m,
                None => o is None,
            },
    {
        match storage.staker_states.get(0, address.as_str()) {
            Some(s) => Ok(Some(s.duplicate())),
            None => Ok(None),
        }
    }

    /// The staker stored at `address`, or the one with nothing at stake.
    pub fn load_safe(storage: &Storage, address: &String) -> (r: StdResult<StakerState>)
        requires
            storage.wf(),
        ensures
            r matches Ok(s) && s@ == staker_at(storage@.staker_states, address@)
                && StakerState::valid(s@),
    {
        proof {
            crate::store::lemma_lookup::<StakerState>(
                storage@.staker_states,
                staker_key(address@),
            );
        }
        match storage.staker_states.get(0, address.as_str()) {
            Some(s) => Ok(s.duplicate()),
            None => Ok(StakerState::default(address)),
        }
    }

    /// A page of stakers in ascending order of their addresses, starting
    /// strictly after the address `start_after`.
    pub fn load_all(storage: &Storage, start_after: Option<String>, limit: Option<u32>) -> (r:
        StdResult<Vec<StakerState>>)
        ensures
            r matches Ok(v) && models(v@) == walk::<StakerState>(
                storage@.staker_states,
                staker_walk(text_of(start_after), limit),
            ),
    {
        let limit = page_limit(limit, DEFAULT_STAKER_LIMIT, MAX_STAKER_LIMIT);
        let after = match start_after {
            Some(a) => Some(Cursor { num: 0, text: a }),
            None => None,
        };
        Ok(storage.staker_states.walk(None, after, false, limit))
    }

    /// Drops the votes on polls that are no longer in progress.
    pub fn clean_votes(&mut self, storage: &Storage)
        requires
            storage.wf(),
        ensures
            final(self)@ == (StakerModel {
                votes: active_votes(old(self)@.votes, storage@.polls),
                ..old(self)@
            }),
    {
        let ghost polls = storage@.polls;
        let ghost before = vote_list(self.votes@);
        let ghost pred = |v: (u64, VoteModel)| poll_active(polls, v.0);
        let mut kept: Vec<(u64, VoteInfo)> = Vec::new();
        let mut i: usize = 0;
        proof {
            reveal(Seq::filter);
            assert(before.take(0).filter(pred) =~= Seq::empty());
            assert(vote_list(kept@) =~= Seq::empty());
        }
        while i < self.votes.len()
            invariant
                storage.wf(),
                polls == storage@.polls,
                before == vote_list(self.votes@),
                pred == (|v: (u64, VoteModel)| poll_active(polls, v.0)),
                i <= self.votes.len(),
                vote_list(kept@) == before.take(i as int).filter(pred),
            decreases self.votes.len() - i,
        {
            let poll_id = self.votes[i].0;
            let active = match storage.polls.get(poll_id, no_text()) {
                Some(p) => p.status == PollStatus::InProgress,
                None => false,
            };
            proof {
                lemma_filter_step(before, pred, i as int);
                assert(before[i as int] == (self.votes[i as int].0, self.votes[i as int].1@));
            }
            if active {
                let ghost k = vote_list(kept@);
                kept.push((poll_id, self.votes[i].1.duplicate()));
                assert(vote_list(kept@) =~= k.push(before[i as int]));
            }
            i += 1;
        }
        assert(before.take(i as int) =~= before);
        self.votes = kept;
    }

    /// The voting shares that the staker's votes lock: the largest of the
    /// amounts voted with, not their sum.
    pub fn get_vote_locked_balance(&self) -> (r: u128)
        ensures
            r == max_vote(self@.votes),
    {
        let ghost votes = vote_list(self.votes@);
        let mut largest: u128 = 0;
        let mut i: usize = 0;
        while i < self.votes.len()
            invariant
                votes == vote_list(self.votes@),
                i <= self.votes.len(),
                largest == max_vote(votes.take(i as int)),
            decreases self.votes.len() - i,
        {
            proof {
                assert(votes.take(i + 1).drop_last() =~= votes.take(i as int));
                assert(votes.take(i + 1).last() == (self.votes[i as int].0, self.votes[i as int].1@));
            }
            if self.votes[i].1.amount > largest {
                largest = self.votes[i].1.amount;
            }
            i += 1;
        }
        assert(votes.take(i as int) =~= votes);
        largest
    }

    /// Whether the staker, with a balance of `balance` voting shares, can
    /// vote with `amount` of them: the votes already cast and this one
    /// together must not exceed the balance.
    pub fn can_vote(&self, balance: u128, amount: u128) -> (b: bool)
        ensures
            b == (vote_sum(self@.votes) + amount <= balance),
    {
        let ghost votes = vote_list(self.votes@);
        let mut available: u128 = balance;
        let mut i: usize = 0;
        while i < self.votes.len()
            invariant
                votes == vote_list(self.votes@),
                i <= self.votes.len(),
                available == balance - vote_sum(votes.take(i as int)),
            decreases self.votes.len() - i,
        {
            proof {
                assert(votes.take(i + 1).drop_last() =~= votes.take(i as int));
                assert(votes.take(i + 1).last() == (self.votes[i as int].0, self.votes[i as int].1@));
                lemma_vote_sum_prefix(votes, i + 1);
            }
            if self.votes[i].1.amount > available {
                return false;
            }
            available = available - self.votes[i].1.amount;
            i += 1;
        }
        assert(votes.take(i as int) =~= votes);
        amount <= available
    }

    /// Drops the withdrawals whose unlock height lies below `height`.
    pub fn clean_unstake_locked_list(&mut self, height: u64)
        ensures
            final(self)@ == (StakerModel {
                unstake_locked_list: pending(old(self)@.unstake_locked_list, height),
                ..old(self)@
            }),
    {
        let ghost before = self.unstake_locked_list@;
        let ghost pred = |e: (u64, u128)| e.0 >= height;
        let mut kept: Vec<(u64, u128)> = Vec::new();
        let mut i: usize = 0;
        proof {
            reveal(Seq::filter);
            assert(before.take(0).filter(pred) =~= Seq::empty());
        }
        while i < self.unstake_locked_list.len()
            invariant
                before == self.unstake_locked_list@,
                pred == (|e: (u64, u128)| e.0 >= height),
                i <= self.unstake_locked_list.len(),
                kept@ == before.take(i as int).filter(pred),
            decreases self.unstake_locked_list.len() - i,
        {
            proof {
                lemma_filter_step(before, pred, i as int);
            }
            let entry = self.unstake_locked_list[i];
            if entry.0 >= height {
                kept.push(entry);
            }
            i += 1;
        }
        assert(before.take(i as int) =~= before);
        self.unstake_locked_list = kept;
    }

    /// The sum of the withdrawals whose unlock height lies below `height`.
    pub fn get_unstake_claimable_amount(&self, height: u64) -> (r: u128)
        requires
            StakerState::valid(self@),
        ensures
            r == claimable(self@.unstake_locked_list, height),
    {
        let ghost list = self.unstake_locked_list@;
        let mut amount: u128 = 0;
        let mut i: usize = 0;
        while i < self.unstake_locked_list.len()
            invariant
                list == self.unstake_locked_list@,
                locked_total(list) <= u128::MAX,
                i <= self.unstake_locked_list.len(),
                amount == claimable(list.take(i as int), height),
            decreases self.unstake_locked_list.len() - i,
        {
            proof {
                assert(list.take(i + 1).drop_last() =~= list.take(i as int));
                lemma_claim_splits(list.take(i + 1), height);
                lemma_locked_prefix(list, i + 1);
            }
            let entry = self.unstake_locked_list[i];
            if entry.0 < height {
                amount = amount + entry.1;
            }
            i += 1;
        }
        assert(list.take(i as int) =~= list);
        amount
    }

    /// The sum of all withdrawals that wait.
    pub fn get_unstake_locked_amount(&self) -> (r: u128)
        requires
            StakerState::valid(self@),
        ensures
            r == locked_total(self@.unstake_locked_list),
    {
        let ghost list = self.unstake_locked_list@;
        let mut amount: u128 = 0;
        let mut i: usize = 0;
        while i < self.unstake_locked_list.len()
            invariant
                list == self.unstake_locked_list@,
                locked_total(list) <= u128::MAX,
                i <= self.unstake_locked_list.len(),
                amount == locked_total(list.take(i as int)),
            decreases self.unstake_locked_list.len() - i,
        {
            proof {
                assert(list.take(i + 1).drop_last() =~= list.take(i as int));
                lemma_locked_prefix(list, i + 1);
            }
            amount = amount + self.unstake_locked_list[i].1;
            i += 1;
        }
        assert(list.take(i as int) =~= list);
        amount
    }

    /// Adds a vote on the poll `poll_id` to the staker's list of votes.
    pub fn vote(&mut self, poll_id: u64, vote: VoteInfo)
        ensures
            final(self)@ == (StakerModel {
                votes: old(self)@.votes.push((poll_id, vote@)),
                ..old(self)@
            }),
    {
        let ghost before = vote_list(self.votes@);
        self.votes.push((poll_id, vote));
        assert(vote_list(self.votes@) =~= before.push((poll_id, vote@)));
    }
}

} // verus!
