//! The state of the contract: every record it keeps, as one value that is
//! handed to each operation.
use vstd::prelude::*;
use vstd::string::*;
use crate::common::states::{ContractConfig, ContractConfigModel};
use crate::governance::enumerations::PollStatus;
use crate::poll::states::{
    Poll,
    PollConfig,
    PollExecutionContext,
    PollModel,
    PollState,
    PollVoter,
    PollVoterModel,
};
use crate::staking::states::{
    StakerModel,
    StakerState,
    StakingConfig,
    StakingConfigModel,
    StakingState,
};
use crate::store::{
    all_valid,
    cursor_key,
    delete,
    has_key,
    lookup,
    models,
    put,
    sorted,
    walk,
    Bucket,
    Cursor,
    Duplicate,
    Record,
    StoreKey,
    Walk,
};

verus! {

/// The key of the poll with the given id.
pub open spec fn poll_key(id: u64) -> StoreKey {
    StoreKey { num: id, text: Seq::empty() }
}

/// The key of the vote of `voter` on the poll `poll_id`.
pub open spec fn voter_key(poll_id: u64, voter: Seq<char>) -> StoreKey {
    StoreKey { num: poll_id, text: voter }
}

/// The key of the staker with the given address.
pub open spec fn staker_key(address: Seq<char>) -> StoreKey {
    StoreKey { num: 0, text: address }
}

/// The empty text, under which records with a number alone are filed.
pub fn no_text() -> (t: &'static str)
    ensures
        t@ == Seq::<char>::empty(),
{
    proof {
        reveal_strlit("");
    }
    let t = "";
    assert(t@ =~= Seq::<char>::empty());
    t
}

/// An entry of the status index: the id of a poll.
#[derive(Clone, Copy, Debug, PartialEq, Eq, Structural)]
pub struct IndexEntry {
    pub id: u64,
}

impl View for IndexEntry {
    type V = u64;

    open spec fn view(&self) -> u64 {
        self.id
    }
}

impl Duplicate for IndexEntry {
    fn duplicate(&self) -> (r: Self) {
        IndexEntry { id: self.id }
    }
}

impl Record for IndexEntry {
    open spec fn key_of(m: u64) -> StoreKey {
        poll_key(m)
    }

    open spec fn valid(m: u64) -> bool {
        true
    }

    fn key_num(&self) -> (n: u64) {
        self.id
    }

    fn key_text(&self) -> (t: &str) {
        no_text()
    }
}

/// The secondary index of polls: for each status, the ids of the polls
/// that were last saved with it.
#[derive(Debug)]
pub struct PollStatusIndex {
    pub in_progress: Bucket<IndexEntry>,
    pub passed: Bucket<IndexEntry>,
    pub rejected: Bucket<IndexEntry>,
    pub executed: Bucket<IndexEntry>,
}

/// The model of the status index: for each status, the ids in ascending
/// order.
pub ghost struct IndexModel {
    pub in_progress: Seq<u64>,
    pub passed: Seq<u64>,
    pub rejected: Seq<u64>,
    pub executed: Seq<u64>,
}

impl IndexModel {
    /// The ids filed under `status`.
    pub open spec fn ids(self, status: PollStatus) -> Seq<u64> {
        match status {
            PollStatus::InProgress => self.in_progress,
            PollStatus::Passed => self.passed,
            PollStatus::Rejected => self.rejected,
            PollStatus::Executed => self.executed,
        }
    }

    /// The index with `ids` filed under `status`.
    pub open spec fn with_ids(self, status: PollStatus, ids: Seq<u64>) -> IndexModel {
        match status {
            PollStatus::InProgress => IndexModel { in_progress: ids, ..self },
            PollStatus::Passed => IndexModel { passed: ids, ..self },
            PollStatus::Rejected => IndexModel { rejected: ids, ..self },
            PollStatus::Executed => IndexModel { executed: ids, ..self },
        }
    }

    /// The index after `id` is filed under `status`.
    pub open spec fn save(self, status: PollStatus, id: u64) -> IndexModel {
        self.with_ids(status, put::<IndexEntry>(self.ids(status), id))
    }

    /// The index after `id` is taken out from under `status`.
    pub open spec fn remove(self, status: PollStatus, id: u64) -> IndexModel {
        self.with_ids(status, delete::<IndexEntry>(self.ids(status), poll_key(id)))
    }

    /// The empty index.
    pub open spec fn empty() -> IndexModel {
        IndexModel {
            in_progress: Seq::empty(),
            passed: Seq::empty(),
            rejected: Seq::empty(),
            executed: Seq::empty(),
        }
    }
}

impl IndexModel {
    /// Under each status the ids ascend.
    pub open spec fn wf(self) -> bool {
        &&& sorted::<IndexEntry>(self.in_progress)
        &&& sorted::<IndexEntry>(self.passed)
        &&& sorted::<IndexEntry>(self.rejected)
        &&& sorted::<IndexEntry>(self.executed)
    }
}

impl View for PollStatusIndex {
    type V = IndexModel;

    open spec fn view(&self) -> IndexModel {
        IndexModel {
            in_progress: self.in_progress@,
            passed: self.passed@,
            rejected: self.rejected@,
            executed: self.executed@,
        }
    }
}

impl PollStatusIndex {
    /// Under each status the ids ascend.
    pub open spec fn wf(&self) -> bool {
        self@.wf()
    }

    /// The empty index.
    pub fn new() -> (r: Self)
        ensures
            r.wf(),
            r@ == IndexModel::empty(),
    {
        PollStatusIndex {
            in_progress: Bucket::new(),
            passed: Bucket::new(),
            rejected: Bucket::new(),
            executed: Bucket::new(),
        }
    }

    /// Files `id` under `status`.
    pub fn save(&mut self, status: PollStatus, id: u64)
        requires
            old(self).wf(),
        ensures
            final(self).wf(),
            final(self)@ == old(self)@.save(status, id),
    {
        match status {
            PollStatus::InProgress => self.in_progress.put(IndexEntry { id }),
            PollStatus::Passed => self.passed.put(IndexEntry { id }),
            PollStatus::Rejected => self.rejected.put(IndexEntry { id }),
            PollStatus::Executed => self.executed.put(IndexEntry { id }),
        }
    }

    /// Takes `id` out from under `status`.
    pub fn remove(&mut self, status: PollStatus, id: u64)
        requires
            old(self).wf(),
        ensures
            final(self).wf(),
            final(self)@ == old(self)@.remove(status, id),
    {
        match status {
            PollStatus::InProgress => self.in_progress.delete(id, no_text()),
            PollStatus::Passed => self.passed.delete(id, no_text()),
            PollStatus::Rejected => self.rejected.delete(id, no_text()),
            PollStatus::Executed => self.executed.delete(id, no_text()),
        }
    }

    /// The first `limit` ids filed under `status` that lie strictly beyond
    /// `after`, in ascending or descending order.
    pub fn range(
        &self,
        status: PollStatus,
        after: Option<Cursor>,
        descending: bool,
        limit: usize,
    ) -> (r: Vec<IndexEntry>)
        ensures
            models(r@) == walk::<IndexEntry>(
                self@.ids(status),
                Walk { prefix: None, after: cursor_key(after), descending, limit: limit as nat },
            ),
    {
        match status {
            PollStatus::InProgress => self.in_progress.walk(None, after, descending, limit),
            PollStatus::Passed => self.passed.walk(None, after, descending, limit),
            PollStatus::Rejected => self.rejected.walk(None, after, descending, limit),
            PollStatus::Executed => self.executed.walk(None, after, descending, limit),
        }
    }
}

/// Everything the contract keeps between calls.
#[derive(Debug)]
pub struct Storage {
    pub contract_config: Option<ContractConfig>,
    pub poll_config: Option<PollConfig>,
    pub poll_state: Option<PollState>,
    /// The polls, by id.
    pub polls: Bucket<Poll>,
    /// The ids of the polls, by status.
    pub poll_status_index: PollStatusIndex,
    /// The votes, by poll and voter.
    pub poll_voters: Bucket<PollVoter>,
    /// The cursor of the execution that is under way, if one is.
    pub poll_execution_context: Option<PollExecutionContext>,
    pub staking_config: Option<StakingConfig>,
    pub staking_state: Option<StakingState>,
    /// The stakers, by address.
    pub staker_states: Bucket<StakerState>,
}

/// The model of the [`Storage`].
pub ghost struct StorageModel {
    pub contract_config: Option<ContractConfigModel>,
    pub poll_config: Option<PollConfig>,
    pub poll_state: Option<PollState>,
    pub polls: Seq<PollModel>,
    pub poll_status_index: IndexModel,
    pub poll_voters: Seq<PollVoterModel>,
    pub poll_execution_context: Option<PollExecutionContext>,
    pub staking_config: Option<StakingConfigModel>,
    pub staking_state: Option<StakingState>,
    pub staker_states: Seq<StakerModel>,
}

impl StorageModel {
    /// The storage of a contract that has not been set up.
    pub open spec fn empty() -> StorageModel {
        StorageModel {
            contract_config: None,
            poll_config: None,
            poll_state: None,
            polls: Seq::empty(),
            poll_status_index: IndexModel::empty(),
            poll_voters: Seq::empty(),
            poll_execution_context: None,
            staking_config: None,
            staking_state: None,
            staker_states: Seq::empty(),
        }
    }
}

impl StorageModel {
    /// Every table is in key order and holds valid records only: the
    /// votes on each poll and the withdrawals of each staker can be
    /// added up.
    pub open spec fn wf(self) -> bool {
        &&& sorted::<Poll>(self.polls)
        &&& all_valid::<Poll>(self.polls)
        &&& self.poll_status_index.wf()
        &&& sorted::<PollVoter>(self.poll_voters)
        &&& sorted::<StakerState>(self.staker_states)
        &&& all_valid::<StakerState>(self.staker_states)
    }
}

impl StorageModel {
    /// The poll stored under `id`, if there is one.
    pub open spec fn poll(self, id: u64) -> Option<PollModel> {
        lookup::<Poll>(self.polls, poll_key(id))
    }

    /// Whether the status index holds `id` under `status`.
    pub open spec fn stands_under(self, status: PollStatus, id: u64) -> bool {
        has_key::<IndexEntry>(self.poll_status_index.ids(status), poll_key(id))
    }

    /// The polls, their count and the status index agree: every poll has
    /// an id that was assigned, which starts at 1 and goes up to the count
    /// of polls; it remembers the status it has; and the status index
    /// holds an id under a status exactly if the poll of that id has that
    /// status.
    pub open spec fn consistent(self) -> bool {
        &&& forall|id: u64| #[trigger]
            self.poll(id) is Some ==> {
                &&& self.poll(id)->0._status == Some(self.poll(id)->0.status)
                &&& self.poll_state is Some
                &&& 1 <= id <= self.poll_state->0.poll_count
            }
        &&& forall|status: PollStatus, id: u64| #[trigger]
            self.stands_under(status, id) <==> (self.poll(id) is Some && self.poll(id)->0.status
                == status)
    }
}

impl View for Storage {
    type V = StorageModel;

    open spec fn view(&self) -> StorageModel {
        StorageModel {
            contract_config: match self.contract_config {
                Some(c) => Some(c@),
                None => None,
            },
            poll_config: self.poll_config,
            poll_state: self.poll_state,
            polls: self.polls@,
            poll_status_index: self.poll_status_index@,
            poll_voters: self.poll_voters@,
            poll_execution_context: self.poll_execution_context,
            staking_config: match self.staking_config {
                Some(c) => Some(c@),
                None => None,
            },
            staking_state: self.staking_state,
            staker_states: self.staker_states@,
        }
    }
}

impl Storage {
    /// Every table is in key order and holds valid records only.
    pub open spec fn wf(&self) -> bool {
        self@.wf()
    }

    /// The storage of a contract that has not been set up.
    pub fn new() -> (s: Storage)
        ensures
            s.wf(),
            s@ == StorageModel::empty(),
    {
        Storage {
            contract_config: None,
            poll_config: None,
            poll_state: None,
            polls: Bucket::new(),
            poll_status_index: PollStatusIndex::new(),
            poll_voters: Bucket::new(),
            poll_execution_context: None,
            staking_config: None,
            staking_state: None,
            staker_states: Bucket::new(),
        }
    }
}

} // verus!
