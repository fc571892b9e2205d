use vstd::prelude::*;
use vstd::string::*;
use crate::common::{Execution, ExecutionModel, OrderBy};
use crate::decimal::{ratio_atomics, CheckedFromRatioError, Decimal};
use crate::errors::{checked_add, missing, ErrorModel, Kind, StdError, StdResult};
use crate::errors::{OverflowError, OverflowOperation};
use crate::governance::enumerations::{PollStatus, VoteOption};
use crate::governance::models::VoteModel;
use crate::governance::query_msgs::{PollResponse, PollResponseModel};
use crate::staking::states::{StakerModel, StakerState};
use crate::storage::{no_text, poll_key, voter_key, IndexEntry, Storage, StorageModel};
use crate::store::{
    cursor_key,
    duplicate_all,
    duplicate_text,
    has_key,
    lookup,
    models,
    put,
    text_of,
    walk,
    Cursor,
    Duplicate,
    Record,
    StoreKey,
    Walk,
};

verus! {

/// The largest page a listing hands out.
pub const MAX_LIMIT: u32 = 30;

/// The page a listing hands out when none is asked for.
pub const DEFAULT_LIMIT: u32 = 10;

/// The size of the page for the requested `limit`: the request, or
/// `default` where there is none, and never more than `max`.
pub open spec fn page_size(limit: Option<u32>, default: u32, max: u32) -> nat {
    let asked = match limit {
        Some(l) => l,
        None => default,
    };
    if asked <= max {
        asked as nat
    } else {
        max as nat
    }
}

/// The size of the page for the requested `limit`.
pub fn page_limit(limit: Option<u32>, default: u32, max: u32) -> (n: usize)
    ensures
        n == page_size(limit, default, max),
{
    let asked = match limit {
        Some(l) => l,
        None => default,
    };
    if asked <= max {
        asked as usize
    } else {
        max as usize
    }
}

/// Whether a listing in the requested order runs from the largest key
/// down: it does unless ascending order is asked for.
pub open spec fn runs_down(order_by: Option<OrderBy>) -> bool {
    order_by != Some(OrderBy::Asc)
}

/// Whether a listing in the requested order runs from the largest key down.
pub fn is_descending(order_by: Option<OrderBy>) -> (b: bool)
    ensures
        b == runs_down(order_by),
{
    match order_by {
        Some(OrderBy::Asc) => false,
        _ => true,
    }
}

/// The rules of polls.
#[derive(Clone, Copy, Debug, PartialEq, Eq, Structural)]
pub struct PollConfig {
    /// The share of the voting shares that must take part.
    pub quorum: Decimal,
    /// The share of yes among yes and no that a proposal must exceed.
    pub threshold: Decimal,
    /// The number of blocks a poll is open for.
    pub voting_period: u64,
    /// The number of blocks between the end of a poll and its execution.
    pub execution_delay_period: u64,
    /// The deposit a proposal is submitted with.
    pub proposal_deposit: u128,
}

impl PollConfig {
    /// Stores these rules in place of those that were there.
    pub fn save(&self, storage: &mut Storage) -> (r: StdResult<()>)
        requires
            old(storage).wf(),
        ensures
            r is Ok,
            final(storage).wf(),
            final(storage)@ == (StorageModel { poll_config: Some(*self), ..old(storage)@ }),
    {
        storage.poll_config = Some(*self);
        Ok(())
    }

    /// The stored rules.
    pub fn load(storage: &Storage) -> (r: StdResult<PollConfig>)
        ensures
            r == (match storage@.poll_config {
                Some(c) => Ok::<PollConfig, StdError>(c),
                None => Err::<PollConfig, StdError>(StdError::NotFound { kind: Kind::PollConfig }),
            }),
    {
        match storage.poll_config {
            Some(c) => Ok(c),
            None => Err(StdError::not_found(Kind::PollConfig)),
        }
    }
}

/// How many polls there have been, and what they have brought in.
#[derive(Clone, Copy, Debug, PartialEq, Eq, Structural)]
pub struct PollState {
    pub poll_count: u64,
    pub total_deposit: u128,
}

impl PollState {
    /// Stores this state in place of the one that was there.
    pub fn save(&self, storage: &mut Storage) -> (r: StdResult<()>)
        requires
            old(storage).wf(),
        ensures
            r is Ok,
            final(storage).wf(),
            final(storage)@ == (StorageModel { poll_state: Some(*self), ..old(storage)@ }),
    {
        storage.poll_state = Some(*self);
        Ok(())
    }

    /// The stored state.
    pub fn load(storage: &Storage) -> (r: StdResult<PollState>)
        ensures
            r == (match storage@.poll_state {
                Some(c) => Ok::<PollState, StdError>(c),
                None => Err::<PollState, StdError>(StdError::NotFound { kind: Kind::PollState }),
            }),
    {
        match storage.poll_state {
            Some(c) => Ok(c),
            None => Err(StdError::not_found(Kind::PollState)),
        }
    }
}

/// The state after one more poll with the given deposit, or why there
/// cannot be one.
pub open spec fn counted(state: PollState, deposit_amount: u128) -> Result<PollState, StdError> {
    if state.poll_count == u64::MAX {
        Err(
            StdError::Overflow {
                source: OverflowError {
                    operation: OverflowOperation::Add,
                    operand1: state.poll_count as u128,
                    operand2: 1,
                },
            },
        )
    } else if state.total_deposit + deposit_amount > u128::MAX {
        Err(
            StdError::Overflow {
                source: OverflowError {
                    operation: OverflowOperation::Add,
                    operand1: state.total_deposit,
                    operand2: deposit_amount,
                },
            },
        )
    } else {
        Ok(
            PollState {
                poll_count: (state.poll_count + 1) as u64,
                total_deposit: (state.total_deposit + deposit_amount) as u128,
            },
        )
    }
}

/// Assigns the id of the next poll: one more than the number of polls so
/// far. The deposit is added to the total.
pub fn get_poll_id(storage: &mut Storage, deposit_amount: &u128) -> (r: StdResult<u64>)
    requires
        old(storage).wf(),
    ensures
        final(storage).wf(),
        match old(storage)@.poll_state {
            None => r == Err::<u64, StdError>(StdError::NotFound { kind: Kind::PollState })
                && final(storage)@ == old(storage)@,
            Some(state) => match counted(state, *deposit_amount) {
                Ok(next) => r == Ok::<u64, StdError>(next.poll_count) && final(storage)@ == (
                StorageModel { poll_state: Some(next), ..old(storage)@ }),
                Err(e) => r == Err::<u64, StdError>(e) && final(storage)@ == old(storage)@,
            },
        },
{
    let state = match PollState::load(storage) {
        Ok(s) => s,
        Err(e) => {
            return Err(e);
        },
    };
    if state.poll_count == u64::MAX {
        return Err(
            StdError::Overflow {
                source: OverflowError::new(OverflowOperation::Add, state.poll_count as u128, 1),
            },
        );
    }
    let total_deposit = match checked_add(state.total_deposit, *deposit_amount) {
        Ok(v) => v,
        Err(source) => {
            return Err(StdError::Overflow { source });
        },
    };
    let next = PollState { poll_count: state.poll_count + 1, total_deposit };
    let _saved = next.save(storage);
    Ok(next.poll_count)
}

/// One vote: who cast it, for what, and with how many voting shares.
#[derive(Debug, PartialEq, Eq)]
pub struct VoteInfo {
    pub voter: String,
    pub option: VoteOption,
    pub amount: u128,
}

impl View for VoteInfo {
    type V = VoteModel;

    open spec fn view(&self) -> VoteModel {
        VoteModel { voter: self.voter@, option: self.option, amount: self.amount }
    }
}

impl Duplicate for VoteInfo {
    fn duplicate(&self) -> (r: Self) {
        VoteInfo { voter: self.voter.clone(), option: self.option, amount: self.amount }
    }
}

impl Clone for VoteInfo {
    fn clone(&self) -> (r: Self)
        ensures
            r@ == self@,
    {
        self.duplicate()
    }
}

/// A vote as it is filed: under its poll and its voter.
#[derive(Debug, PartialEq, Eq)]
pub struct PollVoter {
    pub poll_id: u64,
    pub vote: VoteInfo,
}

/// The model of a filed vote.
pub ghost struct PollVoterModel {
    pub poll_id: u64,
    pub vote: VoteModel,
}

impl View for PollVoter {
    type V = PollVoterModel;

    open spec fn view(&self) -> PollVoterModel {
        PollVoterModel { poll_id: self.poll_id, vote: self.vote@ }
    }
}

impl Duplicate for PollVoter {
    fn duplicate(&self) -> (r: Self) {
        PollVoter { poll_id: self.poll_id, vote: self.vote.duplicate() }
    }
}

impl Record for PollVoter {
    open spec fn key_of(m: PollVoterModel) -> StoreKey {
        voter_key(m.poll_id, m.vote.voter)
    }

    open spec fn valid(m: PollVoterModel) -> bool {
        true
    }

    fn key_num(&self) -> (n: u64) {
        self.poll_id
    }

    fn key_text(&self) -> (t: &str) {
        self.vote.voter.as_str()
    }
}

/// The outcome of a tally.
#[derive(Clone, Copy, Debug, PartialEq, Eq, Structural)]
pub enum PollResult {
    Passed,
    QuorumNotReached,
    ThresholdNotReached,
}

impl PollResult {
    /// The words the outcome is reported in.
    pub open spec fn name(self) -> Seq<char> {
        match self {
            PollResult::Passed => "passed"@,
            PollResult::QuorumNotReached => "Quorum not reached"@,
            PollResult::ThresholdNotReached => "Threshold not reached"@,
        }
    }

    /// The words the outcome is reported in, as a string.
    pub fn to_string(&self) -> (s: String)
        ensures
            s@ == self.name(),
    {
        match self {
            PollResult::Passed => String::from_str("passed"),
            PollResult::QuorumNotReached => String::from_str("Quorum not reached"),
            PollResult::ThresholdNotReached => String::from_str("Threshold not reached"),
        }
    }
}

/// The cursor of an execution that is under way: the poll, and how many of
/// its steps are done.
#[derive(Clone, Copy, Debug, PartialEq, Eq, Structural)]
pub struct PollExecutionContext {
    pub poll_id: u64,
    pub execution_count: u64,
}

impl PollExecutionContext {
    /// Stores this cursor in place of the one that was there.
    pub fn save(&self, storage: &mut Storage) -> (r: StdResult<()>)
        requires
            old(storage).wf(),
        ensures
            r is Ok,
            final(storage).wf(),
            final(storage)@ == (StorageModel {
                poll_execution_context: Some(*self),
                ..old(storage)@
            }),
    {
        storage.poll_execution_context = Some(*self);
        Ok(())
    }

    /// The stored cursor.
    pub fn load(storage: &Storage) -> (r: StdResult<PollExecutionContext>)
        ensures
            r == (match storage@.poll_execution_context {
                Some(c) => Ok::<PollExecutionContext, StdError>(c),
                None => Err::<PollExecutionContext, StdError>(
                    StdError::NotFound { kind: Kind::PollExecutionContext },
                ),
            }),
    {
        match storage.poll_execution_context {
            Some(c) => Ok(c),
            None => Err(StdError::not_found(Kind::PollExecutionContext)),
        }
    }

    /// The stored cursor, if there is one.
    pub fn may_load(storage: &Storage) -> (r: StdResult<Option<PollExecutionContext>>)
        ensures
            r == Ok::<Option<PollExecutionContext>, StdError>(storage@.poll_execution_context),
    {
        Ok(storage.poll_execution_context)
    }

    /// Removes the stored cursor.
    pub fn clear(storage: &mut Storage)
        requires
            old(storage).wf(),
        ensures
            final(storage).wf(),
            final(storage)@ == (StorageModel { poll_execution_context: None, ..old(storage)@ }),
    {
        storage.poll_execution_context = None;
    }
}

/// A proposal and the vote on it.
#[derive(Debug, PartialEq, Eq)]
pub struct Poll {
    pub id: u64,
    pub title: String,
    pub description: String,
    pub link: Option<String>,
    pub executions: Vec<Execution>,
    pub creator: String,
    pub deposit_amount: u128,
    pub yes_votes: u128,
    pub no_votes: u128,
    pub abstain_votes: u128,
    pub start_height: u64,
    pub end_height: u64,
    pub status: PollStatus,
    /// The number of voting shares when the poll was created.
    pub total_balance_at_start_poll: u128,
    /// The status under which the poll stands in the status index, if it
    /// stands there.
    pub _status: Option<PollStatus>,
}

/// The model of a [`Poll`].
pub ghost struct PollModel {
    pub id: u64,
    pub title: Seq<char>,
    pub description: Seq<char>,
    pub link: Option<Seq<char>>,
    pub executions: Seq<ExecutionModel>,
    pub creator: Seq<char>,
    pub deposit_amount: u128,
    pub yes_votes: u128,
    pub no_votes: u128,
    pub abstain_votes: u128,
    pub start_height: u64,
    pub end_height: u64,
    pub status: PollStatus,
    pub total_balance_at_start_poll: u128,
    pub _status: Option<PollStatus>,
}

impl PollModel {
    /// The number of voting shares cast, whatever for.
    pub open spec fn vote_amount(self) -> int {
        self.yes_votes + self.no_votes + self.abstain_votes
    }

    /// Whether votes are taken at `block_height`.
    pub open spec fn in_progress(self, block_height: u64) -> bool {
        self.status == PollStatus::InProgress && block_height <= self.end_height
    }

    /// The poll after a vote of `amount` for `option`.
    pub open spec fn voted(self, option: VoteOption, amount: u128) -> PollModel {
        match option {
            VoteOption::Yes => PollModel { yes_votes: (self.yes_votes + amount) as u128, ..self },
            VoteOption::No => PollModel { no_votes: (self.no_votes + amount) as u128, ..self },
            VoteOption::Abstain => PollModel {
                abstain_votes: (self.abstain_votes + amount) as u128,
                ..self
            },
        }
    }

    /// The share of the voting shares that took part, in atomic units: 0
    /// where there were no voting shares when the poll was created.
    pub open spec fn quorum(self) -> int {
        if self.total_balance_at_start_poll == 0 {
            0
        } else {
            ratio_atomics(self.vote_amount(), self.total_balance_at_start_poll as int)
        }
    }

    /// The outcome of the tally under the rules `config`. Abstentions
    /// count towards the quorum and not towards the threshold; a poll
    /// without a yes or a no does not reach the threshold.
    pub open spec fn tally(self, config: PollConfig) -> PollResult {
        if self.vote_amount() == 0 || self.quorum() < config.quorum.atomics {
            PollResult::QuorumNotReached
        } else if self.yes_votes + self.no_votes == 0 || ratio_atomics(
            self.yes_votes as int,
            self.yes_votes + self.no_votes,
        ) <= config.threshold.atomics {
            PollResult::ThresholdNotReached
        } else {
            PollResult::Passed
        }
    }

    /// The poll as it is reported.
    pub open spec fn response(self) -> PollResponseModel {
        PollResponseModel {
            id: self.id,
            title: self.title,
            description: self.description,
            link: self.link,
            executions: self.executions,
            creator: self.creator,
            deposit_amount: self.deposit_amount,
            yes_votes: self.yes_votes,
            no_votes: self.no_votes,
            abstain_votes: self.abstain_votes,
            start_height: self.start_height,
            end_height: self.end_height,
            status: self.status,
            total_balance_at_start_poll: self.total_balance_at_start_poll,
        }
    }
}

impl View for Poll {
    type V = PollModel;

    open spec fn view(&self) -> PollModel {
        PollModel {
            id: self.id,
            title: self.title@,
            description: self.description@,
            link: text_of(self.link),
            executions: models(self.executions@),
            creator: self.creator@,
            deposit_amount: self.deposit_amount,
            yes_votes: self.yes_votes,
            no_votes: self.no_votes,
            abstain_votes: self.abstain_votes,
            start_height: self.start_height,
            end_height: self.end_height,
            status: self.status,
            total_balance_at_start_poll: self.total_balance_at_start_poll,
            _status: self._status,
        }
    }
}

impl Duplicate for Poll {
    fn duplicate(&self) -> (r: Self) {
        Poll {
            id: self.id,
            title: self.title.clone(),
            description: self.description.clone(),
            link: duplicate_text(&self.link),
            executions: duplicate_all(&self.executions),
            creator: self.creator.clone(),
            deposit_amount: self.deposit_amount,
            yes_votes: self.yes_votes,
            no_votes: self.no_votes,
            abstain_votes: self.abstain_votes,
            start_height: self.start_height,
            end_height: self.end_height,
            status: self.status,
            total_balance_at_start_poll: self.total_balance_at_start_poll,
            _status: self._status,
        }
    }
}

impl Clone for Poll {
    fn clone(&self) -> (r: Self)
        ensures
            r@ == self@,
    {
        self.duplicate()
    }
}

impl Record for Poll {
    open spec fn key_of(m: PollModel) -> StoreKey {
        poll_key(m.id)
    }

    /// The votes cast on a poll can be added up.
    open spec fn valid(m: PollModel) -> bool {
        m.vote_amount() <= u128::MAX
    }

    fn key_num(&self) -> (n: u64) {
        self.id
    }

    fn key_text(&self) -> (t: &str) {
        no_text()
    }
}

/// The records that a listing reports as voters: each vote with the
/// address it is filed under.
pub open spec fn voter_pairs(found: Seq<PollVoterModel>) -> Seq<(Seq<char>, VoteModel)> {
    found.map_values(|m: PollVoterModel| (m.vote.voter, m.vote))
}

/// The models of a list of voters.
pub open spec fn voter_models(v: Seq<(String, VoteInfo)>) -> Seq<(Seq<char>, VoteModel)> {
    v.map_values(|p: (String, VoteInfo)| (p.0@, p.1@))
}

/// The bounds of a listing of polls.
pub open spec fn poll_walk(
    start_after: Option<u64>,
    limit: Option<u32>,
    order_by: Option<OrderBy>,
) -> Walk {
    Walk {
        prefix: None,
        after: match start_after {
            Some(id) => Some(poll_key(id)),
            None => None,
        },
        descending: runs_down(order_by),
        limit: page_size(limit, DEFAULT_LIMIT, MAX_LIMIT),
    }
}

/// The bounds of a listing of the voters of the poll `poll_id`.
pub open spec fn voter_walk(
    poll_id: u64,
    start_after: Option<Seq<char>>,
    limit: Option<u32>,
    order_by: Option<OrderBy>,
) -> Walk {
    Walk {
        prefix: Some(poll_id),
        after: match start_after {
            Some(a) => Some(voter_key(poll_id, a)),
            None => None,
        },
        descending: runs_down(order_by),
        limit: page_size(limit, DEFAULT_LIMIT, MAX_LIMIT),
    }
}

/// The polls with the given ids, in that order; none if one of them is
/// missing.
pub open spec fn polls_with_ids(polls: Seq<PollModel>, ids: Seq<u64>) -> Option<Seq<PollModel>> {
    if forall|i: int| 0 <= i < ids.len() ==> has_key::<Poll>(polls, poll_key(#[trigger] ids[i])) {
        Some(ids.map_values(|id: u64| lookup::<Poll>(polls, poll_key(id))->0))
    } else {
        None
    }
}

/// The page of polls that a listing reports: without a filter, from the
/// table of polls; with one, the polls whose ids the status index holds
/// under that status.
pub open spec fn listed_polls(
    s: StorageModel,
    filter: Option<PollStatus>,
    start_after: Option<u64>,
    limit: Option<u32>,
    order_by: Option<OrderBy>,
) -> Result<Seq<PollModel>, ErrorModel> {
    let w = poll_walk(start_after, limit, order_by);
    match filter {
        None => Ok(walk::<Poll>(s.polls, w)),
        Some(status) => match polls_with_ids(
            s.polls,
            walk::<IndexEntry>(s.poll_status_index.ids(status), w),
        ) {
            Some(found) => Ok(found),
            None => Err(missing(Kind::Poll)),
        },
    }
}

impl Poll {
    /// Stores this poll under its id, in place of the one that was there.
    /// The status index is left as it is.
    pub fn save(&self, storage: &mut Storage) -> (r: StdResult<()>)
        requires
            old(storage).wf(),
            Poll::valid(self@),
        ensures
            r is Ok,
            final(storage).wf(),
            final(storage)@ == (StorageModel {
                polls: put::<Poll>(old(storage)@.polls, self@),
                ..old(storage)@
            }),
    {
        storage.polls.put(self.duplicate());
        Ok(())
    }

    /// Stores this poll and moves its id in the status index, in one step:
    /// the id leaves the status it stood under and stands under the
    /// poll's status from now on, which the poll remembers.
    pub fn save_with_index(&mut self, storage: &mut Storage) -> (r: StdResult<()>)
        requires
            old(storage).wf(),
            Poll::valid(old(self)@),
        ensures
            r is Ok,
            final(storage).wf(),
            final(self)@ == (PollModel { _status: Some(old(self)@.status), ..old(self)@ }),
            final(storage)@ == (StorageModel {
                polls: put::<Poll>(old(storage)@.polls, final(self)@),
                poll_status_index: (match old(self)@._status {
                    Some(prev) => old(storage)@.poll_status_index.remove(prev, old(self)@.id),
                    None => old(storage)@.poll_status_index,
                }).save(old(self)@.status, old(self)@.id),
                ..old(storage)@
            }),
    {
        if let Some(prev) = self._status {
            storage.poll_status_index.remove(prev, self.id);
        }
        storage.poll_status_index.save(self.status, self.id);
        self._status = Some(self.status);
        self.save(storage)
    }

    /// The poll with the id `poll_id`.
    pub fn load(storage: &Storage, poll_id: &u64) -> (r: StdResult<Poll>)
        requires
            storage.wf(),
        ensures
            match lookup::<Poll>(storage@.polls, poll_key(*poll_id)) {
                Some(m) => r matches Ok(p) && p@ == m,
                None => r matches Err(e) && e == (StdError::NotFound { kind: Kind::Poll }),
            },
    {
        match storage.polls.get(*poll_id, no_text()) {
            Some(p) => Ok(p.duplicate()),
            None => Err(StdError::not_found(Kind::Poll)),
        }
    }

    /// The poll with the id `poll_id`, if there is one.
    pub fn may_load(storage: &Storage, poll_id: &u64) -> (r: StdResult<Option<Poll>>)
        requires
            storage.wf(),
        ensures
            r matches Ok(o) && match lookup::<Poll>(storage@.polls, poll_key(*poll_id)) {
                Some(m) => o matches Some(p) && p@ == m,
                None => o is None,
            },
    {
        match storage.polls.get(*poll_id, no_text()) {
            Some(p) => Ok(Some(p.duplicate())),
            None => Ok(None),
        }
    }

    /// A page of polls in the order of their ids, ascending or (unless
    /// asked otherwise) descending, starting strictly after the id
    /// `start_after`. With a `filter`, only polls that the status index
    /// holds under that status.
    pub fn query(
        storage: &Storage,
        filter: Option<PollStatus>,
        start_after: Option<u64>,
        limit: Option<u32>,
        order_by: Option<OrderBy>,
    ) -> (r: StdResult<Vec<Poll>>)
        requires
            storage.wf(),
        ensures
            match listed_polls(storage@, filter, start_after, limit, order_by) {
                Ok(found) => r matches Ok(v) && models(v@) == found,
                Err(e) => r matches Err(x) && x@ == e,
            },
    {
        let size = page_limit(limit, DEFAULT_LIMIT, MAX_LIMIT);
        let after = match start_after {
            Some(id) => Some(Cursor { num: id, text: String::from_str(no_text()) }),
            None => None,
        };
        let descending = is_descending(order_by);
        let ghost w = poll_walk(start_after, limit, order_by);
        assert(w == (Walk {
            prefix: None,
            after: cursor_key(after),
            descending,
            limit: size as nat,
        }));
        match filter {
            None => Ok(storage.polls.walk(None, after, descending, size)),
            Some(status) => {
                let ids = storage.poll_status_index.range(status, after, descending, size);
                let ghost idm = models(ids@);
                assert(idm == walk::<IndexEntry>(storage@.poll_status_index.ids(status), w));
                let mut out: Vec<Poll> = Vec::new();
                let mut i: usize = 0;
                while i < ids.len()
                    invariant
                        storage.wf(),
                        idm == models(ids@),
                        idm == walk::<IndexEntry>(
                            storage@.poll_status_index.ids(status),
                            poll_walk(start_after, limit, order_by),
                        ),
                        filter == Some(status),
                        i <= ids.len(),
                        out.len() == i,
                        forall|j: int|
                            0 <= j < i ==> has_key::<Poll>(
                                storage@.polls,
                                poll_key(#[trigger] idm[j]),
                            ),
                        forall|j: int|
                            0 <= j < i ==> (#[trigger] out[j])@ == lookup::<Poll>(
                                storage@.polls,
                                poll_key(idm[j]),
                            )->0,
                    decreases ids.len() - i,
                {
                    let id = ids[i].id;
                    assert(id == idm[i as int]);
                    match storage.polls.get(id, no_text()) {
                        Some(p) => {
                            out.push(p.duplicate());
                        },
                        None => {
                            assert(!has_key::<Poll>(storage@.polls, poll_key(idm[i as int])));
                            assert(polls_with_ids(storage@.polls, idm) is None);
                            return Err(StdError::not_found(Kind::Poll));
                        },
                    }
                    i += 1;
                }
                assert(models(out@) =~= idm.map_values(
                    |id: u64| lookup::<Poll>(storage@.polls, poll_key(id))->0,
                ));
                Ok(out)
            },
        }
    }

    /// A page of the votes on the poll `poll_id`, each with the address
    /// of its voter, in the order of the addresses, ascending or (unless
    /// asked otherwise) descending, starting strictly after the address
    /// `start_after`.
    pub fn read_voters(
        storage: &Storage,
        poll_id: &u64,
        start_after: Option<String>,
        limit: Option<u32>,
        order_by: Option<OrderBy>,
    ) -> (r: StdResult<Vec<(String, VoteInfo)>>)
        ensures
            r matches Ok(v) && voter_models(v@) == voter_pairs(
                walk::<PollVoter>(
                    storage@.poll_voters,
                    voter_walk(*poll_id, text_of(start_after), limit, order_by),
                ),
            ),
    {
        let limit = page_limit(limit, DEFAULT_LIMIT, MAX_LIMIT);
        let after = match start_after {
            Some(a) => Some(Cursor { num: *poll_id, text: a }),
            None => None,
        };
        let found = storage.poll_voters.walk(Some(*poll_id), after, is_descending(order_by), limit);
        let ghost fm = models(found@);
        let mut out: Vec<(String, VoteInfo)> = Vec::new();
        let mut i: usize = 0;
        while i < found.len()
            invariant
                fm == models(found@),
                i <= found.len(),
                out.len() == i,
                forall|j: int|
                    0 <= j < i ==> (#[trigger] out[j]).0@ == fm[j].vote.voter && out[j].1@
                        == fm[j].vote,
            decreases found.len() - i,
        {
            let vote = found[i].vote.duplicate();
            assert(vote@ == fm[i as int].vote);
            out.push((vote.voter.clone(), vote));
            i += 1;
        }
        assert(voter_models(out@) =~= voter_pairs(fm));
        Ok(out)
    }

    /// Whether votes on this poll are taken at `block_height`.
    pub fn in_progress(&self, block_height: u64) -> (b: bool)
        ensures
            b == self@.in_progress(block_height),
    {
        self.status == PollStatus::InProgress && block_height <= self.end_height
    }

    /// The vote of `address` on this poll.
    pub fn load_voter(&self, storage: &Storage, address: &String) -> (r: StdResult<VoteInfo>)
        requires
            storage.wf(),
        ensures
            match lookup::<PollVoter>(storage@.poll_voters, voter_key(self.id, address@)) {
                Some(m) => r matches Ok(v) && v@ == m.vote,
                None => r matches Err(e) && e == (StdError::NotFound { kind: Kind::VoteInfo }),
            },
    {
        match storage.poll_voters.get(self.id, address.as_str()) {
            Some(v) => Ok(v.vote.duplicate()),
            None => Err(StdError::not_found(Kind::VoteInfo)),
        }
    }

    /// Whether `address` has voted on this poll.
    pub fn is_voted(&self, storage: &Storage, address: &String) -> (b: bool)
        requires
            storage.wf(),
        ensures
            b == has_key::<PollVoter>(storage@.poll_voters, voter_key(self.id, address@)),
    {
        storage.poll_voters.contains_key(self.id, address.as_str())
    }

    /// Records a vote of the staker on this poll: the amount is added to
    /// the tally for `vote_option`, the vote is filed under the poll and
    /// the voter, and the staker's own list of votes gets it too. Fails,
    /// and changes nothing, where the votes on the poll could no longer be
    /// added up. The poll itself is not stored.
    pub fn vote(
        &mut self,
        storage: &mut Storage,
        staker_state: &mut StakerState,
        vote_option: VoteOption,
        amount: u128,
    ) -> (r: StdResult<()>)
        requires
            old(storage).wf(),
            Poll::valid(old(self)@),
        ensures
            final(storage).wf(),
            Poll::valid(final(self)@),
            old(self)@.vote_amount() + amount <= u128::MAX ==> {
                let vote = VoteModel {
                    voter: old(staker_state)@.address,
                    option: vote_option,
                    amount,
                };
                &&& r is Ok
                &&& final(self)@ == old(self)@.voted(vote_option, amount)
                &&& final(storage)@ == (StorageModel {
                    poll_voters: put::<PollVoter>(
                        old(storage)@.poll_voters,
                        PollVoterModel { poll_id: old(self)@.id, vote },
                    ),
                    ..old(storage)@
                })
                &&& final(staker_state)@ == (StakerModel {
                    votes: old(staker_state)@.votes.push((old(self)@.id, vote)),
                    ..old(staker_state)@
                })
            },
            old(self)@.vote_amount() + amount > u128::MAX ==> {
                &&& r == Err::<(), StdError>(
                    StdError::Overflow {
                        source: OverflowError {
                            operation: OverflowOperation::Add,
                            operand1: old(self)@.vote_amount() as u128,
                            operand2: amount,
                        },
                    },
                )
                &&& final(self)@ == old(self)@
                &&& final(storage)@ == old(storage)@
                &&& final(staker_state)@ == old(staker_state)@
            },
    {
        let total = self.get_vote_amount();
        if let Err(source) = checked_add(total, amount) {
            return Err(StdError::Overflow { source });
        }
        let vote = VoteInfo { voter: staker_state.address.clone(), option: vote_option, amount };
        match vote_option {
            VoteOption::Yes => {
                self.yes_votes = self.yes_votes + amount;
            },
            VoteOption::No => {
                self.no_votes = self.no_votes + amount;
            },
            VoteOption::Abstain => {
                self.abstain_votes = self.abstain_votes + amount;
            },
        }
        storage.poll_voters.put(PollVoter { poll_id: self.id, vote: vote.duplicate() });
        staker_state.vote(self.id, vote);
        Ok(())
    }

    /// The number of voting shares cast on this poll, whatever for.
    pub fn get_vote_amount(&self) -> (r: u128)
        requires
            Poll::valid(self@),
        ensures
            r == self@.vote_amount(),
    {
        self.yes_votes + self.no_votes + self.abstain_votes
    }

    /// The share of the voting shares that took part, and the number of
    /// voting shares there were when the poll was created.
    fn calculate_quorum(&self) -> (r: (Result<Decimal, CheckedFromRatioError>, u128))
        requires
            Poll::valid(self@),
        ensures
            r.0 == Decimal::ratio(self@.vote_amount(), self.total_balance_at_start_poll as int),
            r.1 == self.total_balance_at_start_poll,
    {
        (
            Decimal::checked_from_ratio(self.get_vote_amount(), self.total_balance_at_start_poll),
            self.total_balance_at_start_poll,
        )
    }

    /// Tallies the votes under the stored rules, and says how many voting
    /// shares there were when the poll was created.
    pub fn get_result(&self, storage: &Storage) -> (r: StdResult<(PollResult, u128)>)
        requires
            Poll::valid(self@),
        ensures
            r == (match storage@.poll_config {
                Some(config) => Ok::<(PollResult, u128), StdError>(
                    (self@.tally(config), self.total_balance_at_start_poll),
                ),
                None => Err::<(PollResult, u128), StdError>(
                    StdError::NotFound { kind: Kind::PollConfig },
                ),
            }),
    {
        let poll_config = match PollConfig::load(storage) {
            Ok(c) => c,
            Err(e) => {
                return Err(e);
            },
        };
        let votes = self.get_vote_amount();
        let supply = self.total_balance_at_start_poll;
        let quorum_reached = if supply == 0 {
            0 >= poll_config.quorum.atomics
        } else {
            match self.calculate_quorum().0 {
                Ok(quorum) => quorum.atomics >= poll_config.quorum.atomics,
                Err(_) => true,
            }
        };
        if votes == 0 || !quorum_reached {
            return Ok((PollResult::QuorumNotReached, supply));
        }
        let decided = self.yes_votes + self.no_votes;
        let above = match Decimal::checked_from_ratio(self.yes_votes, decided) {
            Ok(yes_ratio) => yes_ratio.atomics > poll_config.threshold.atomics,
            Err(CheckedFromRatioError::DivideByZero) => false,
            Err(CheckedFromRatioError::Overflow) => true,
        };
        if !above {
            return Ok((PollResult::ThresholdNotReached, supply));
        }
        Ok((PollResult::Passed, supply))
    }

    /// The poll as it is reported to a query.
    pub fn to_response(&self) -> (r: PollResponse)
        ensures
            r@ == self@.response(),
    {
        let mut executions: Vec<crate::common::ExecutionMsg> = Vec::new();
        let mut i: usize = 0;
        while i < self.executions.len()
            invariant
                i <= self.executions.len(),
                executions.len() == i,
                forall|j: int| 0 <= j < i ==> (#[trigger] executions[j])@ == self.executions[j]@,
            decreases self.executions.len() - i,
        {
            executions.push(self.executions[i].to_msg());
            i += 1;
        }
        assert(models(executions@) =~= models(self.executions@));
        PollResponse {
            id: self.id,
            title: self.title.clone(),
            description: self.description.clone(),
            link: duplicate_text(&self.link),
            executions,
            creator: self.creator.clone(),
            deposit_amount: self.deposit_amount,
            yes_votes: self.yes_votes,
            no_votes: self.no_votes,
            abstain_votes: self.abstain_votes,
            start_height: self.start_height,
            end_height: self.end_height,
            status: self.status,
            total_balance_at_start_poll: self.total_balance_at_start_poll,
        }
    }
}

} // verus!
