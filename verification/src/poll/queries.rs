use vstd::prelude::*;
use crate::common::{answered, ContractResult, Env, OrderBy};
use crate::errors::{missing, reason, ContractError, ErrorModel, Kind, StdError};
use crate::governance::enumerations::PollStatus;
use crate::governance::models::{VoteInfoMsg, VoteModel};
use crate::governance::query_msgs::{
    PollConfigResponse,
    PollResponse,
    PollResponseModel,
    PollStateResponse,
    PollsResponse,
    VotersResponse,
};
use crate::poll::states::{
    listed_polls,
    voter_walk,
    Poll,
    PollConfig,
    PollModel,
    PollState,
    PollVoter,
    PollVoterModel,
};
use crate::storage::{poll_key, Storage, StorageModel};
use crate::store::{lookup, models, text_of, walk};

verus! {

/// The stored rules of polls.
pub open spec fn poll_config_spec(s: StorageModel) -> Result<PollConfigResponse, ErrorModel> {
    match s.poll_config {
        Some(c) => Ok(
            PollConfigResponse {
                quorum: c.quorum,
                threshold: c.threshold,
                voting_period: c.voting_period,
                execution_delay_period: c.execution_delay_period,
                proposal_deposit: c.proposal_deposit,
            },
        ),
        None => Err(missing(Kind::PollConfig)),
    }
}

/// The stored rules of polls.
pub fn get_poll_config(storage: &Storage, _env: Env) -> (r: ContractResult<PollConfigResponse>)
    ensures
        answered(r, poll_config_spec(storage@)),
{
    match PollConfig::load(storage) {
        Ok(c) => Ok(
            PollConfigResponse {
                quorum: c.quorum,
                threshold: c.threshold,
                voting_period: c.voting_period,
                execution_delay_period: c.execution_delay_period,
                proposal_deposit: c.proposal_deposit,
            },
        ),
        Err(e) => Err(ContractError::Std(e)),
    }
}

/// How many polls there have been, and what they have brought in.
pub open spec fn poll_state_spec(s: StorageModel) -> Result<PollStateResponse, ErrorModel> {
    match s.poll_state {
        Some(c) => Ok(PollStateResponse { poll_count: c.poll_count, total_deposit: c.total_deposit }),
        None => Err(missing(Kind::PollState)),
    }
}

/// How many polls there have been, and what they have brought in.
pub fn get_poll_state(storage: &Storage, _env: Env) -> (r: ContractResult<PollStateResponse>)
    ensures
        answered(r, poll_state_spec(storage@)),
{
    match PollState::load(storage) {
        Ok(c) => Ok(PollStateResponse { poll_count: c.poll_count, total_deposit: c.total_deposit }),
        Err(e) => Err(ContractError::Std(e)),
    }
}

/// The poll `poll_id`, as it is reported.
pub open spec fn poll_spec(s: StorageModel, poll_id: u64) -> Result<PollResponseModel, ErrorModel> {
    match lookup::<Poll>(s.polls, poll_key(poll_id)) {
        Some(poll) => Ok(poll.response()),
        None => Err(reason(StdError::PollNotFound)),
    }
}

/// The poll `poll_id`.
pub fn get_poll(storage: &Storage, _env: Env, poll_id: u64) -> (r: ContractResult<PollResponse>)
    requires
        storage.wf(),
    ensures
        answered(r, poll_spec(storage@, poll_id)),
{
    let loaded = match Poll::may_load(storage, &poll_id) {
        Ok(o) => o,
        Err(e) => {
            return Err(ContractError::Std(e));
        },
    };
    match loaded {
        Some(poll) => Ok(poll.to_response()),
        None => Err(ContractError::Std(StdError::PollNotFound)),
    }
}

/// A page of polls, as they are reported.
pub open spec fn polls_spec(
    s: StorageModel,
    filter: Option<PollStatus>,
    start_after: Option<u64>,
    limit: Option<u32>,
    order_by: Option<OrderBy>,
) -> Result<Seq<PollResponseModel>, ErrorModel> {
    match listed_polls(s, filter, start_after, limit, order_by) {
        Ok(found) => Ok(found.map_values(|p: PollModel| p.response())),
        Err(e) => Err(e),
    }
}

/// A page of polls in the order of their ids.
pub fn query_polls(
    storage: &Storage,
    _env: Env,
    filter: Option<PollStatus>,
    start_after: Option<u64>,
    limit: Option<u32>,
    order_by: Option<OrderBy>,
) -> (r: ContractResult<PollsResponse>)
    requires
        storage.wf(),
    ensures
        answered(r, polls_spec(storage@, filter, start_after, limit, order_by)),
{
    let found = match Poll::query(storage, filter, start_after, limit, order_by) {
        Ok(v) => v,
        Err(e) => {
            return Err(ContractError::Std(e));
        },
    };
    let ghost fm = models(found@);
    let mut polls: Vec<PollResponse> = Vec::new();
    let mut i: usize = 0;
    while i < found.len()
        invariant
            fm == models(found@),
            i <= found.len(),
            polls.len() == i,
            forall|j: int| 0 <= j < i ==> (#[trigger] polls[j])@ == fm[j].response(),
        decreases found.len() - i,
    {
        assert(found[i as int]@ == fm[i as int]);
        polls.push(found[i].to_response());
        i += 1;
    }
    assert(models(polls@) =~= fm.map_values(|p: PollModel| p.response()));
    Ok(PollsResponse { polls })
}

/// A page of the votes on the poll `poll_id`: none once the poll is
/// decided.
pub open spec fn voters_spec(
    s: StorageModel,
    poll_id: u64,
    start_after: Option<Seq<char>>,
    limit: Option<u32>,
    order_by: Option<OrderBy>,
) -> Result<Seq<VoteModel>, ErrorModel> {
    match lookup::<Poll>(s.polls, poll_key(poll_id)) {
        None => Err(reason(StdError::PollNotFound)),
        Some(poll) => if poll.status != PollStatus::InProgress {
            Ok(Seq::empty())
        } else {
            Ok(
                walk::<PollVoter>(
                    s.poll_voters,
                    voter_walk(poll_id, start_after, limit, order_by),
                ).map_values(|m: PollVoterModel| m.vote),
            )
        },
    }
}

/// A page of the votes on the poll `poll_id`, in the order of the
/// addresses of the voters.
pub fn query_voters(
    storage: &Storage,
    _env: Env,
    poll_id: u64,
    start_after: Option<String>,
    limit: Option<u32>,
    order_by: Option<OrderBy>,
) -> (r: ContractResult<VotersResponse>)
    requires
        storage.wf(),
    ensures
        answered(r, voters_spec(storage@, poll_id, text_of(start_after), limit, order_by)),
{
    let loaded = match Poll::may_load(storage, &poll_id) {
        Ok(o) => o,
        Err(e) => {
            return Err(ContractError::Std(e));
        },
    };
    let poll = match loaded {
        Some(p) => p,
        None => {
            return Err(ContractError::Std(StdError::PollNotFound));
        },
    };
    let mut response_items: Vec<VoteInfoMsg> = Vec::new();
    if poll.status != PollStatus::InProgress {
        assert(models(response_items@) =~= Seq::<VoteModel>::empty());
        return Ok(VotersResponse { voters: response_items });
    }
    let ghost found = walk::<PollVoter>(
        storage@.poll_voters,
        voter_walk(poll_id, text_of(start_after), limit, order_by),
    );
    let voters = match Poll::read_voters(storage, &poll_id, start_after, limit, order_by) {
        Ok(v) => v,
        Err(e) => {
            return Err(ContractError::Std(e));
        },
    };
    assert(crate::poll::states::voter_models(voters@).len() == voters.len());
    assert(crate::poll::states::voter_pairs(found).len() == found.len());
    let mut i: usize = 0;
    while i < voters.len()
        invariant
            voters.len() == found.len(),
            crate::poll::states::voter_models(voters@) == crate::poll::states::voter_pairs(found),
            i <= voters.len(),
            response_items.len() == i,
            forall|j: int| 0 <= j < i ==> (#[trigger] response_items[j])@ == found[j].vote,
        decreases voters.len() - i,
    {
        let info = &voters[i].1;
        assert(crate::poll::states::voter_models(voters@)[i as int] == (
            voters[i as int].0@,
            voters[i as int].1@,
        ));
        assert(crate::poll::states::voter_pairs(found)[i as int] == (
            found[i as int].vote.voter,
            found[i as int].vote,
        ));
        response_items.push(
            VoteInfoMsg { voter: voters[i].0.clone(), option: info.option, amount: info.amount },
        );
        i += 1;
    }
    assert(models(response_items@) =~= found.map_values(|m: PollVoterModel| m.vote));
    Ok(VotersResponse { voters: response_items })
}

} // verus!
