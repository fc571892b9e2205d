//! What every command keeps: the tables stay in order, and the polls,
//! their count and the status index stay in agreement.
use vstd::prelude::*;
use crate::entrypoints::{execute_spec, instantiate_spec, reply_spec};
use crate::governance::enumerations::PollStatus;
use crate::common::{Ledger, Reply};
use crate::governance::execute_msgs::{Cw20HookMsg, ExecuteMsg, InstantiateMsg};
use crate::governance::models::VoteModel;
use crate::poll::executions::{
    advanced,
    cast_vote_spec,
    create_poll_spec,
    with_status,
};
use crate::poll::states::{counted, Poll, PollModel, PollVoter, PollVoterModel};
use crate::staking::executions::{claim_unstaked_token_spec, unstake_token_hook_spec};
use crate::staking::states::{
    active_votes,
    lemma_claim_splits,
    locked_total,
    pending,
    staker_at,
    StakerModel,
    StakerState,
};
use crate::storage::{poll_key, staker_key, IndexEntry, StorageModel};
use crate::store::{
    delete,
    has_key,
    lemma_delete,
    lemma_lookup,
    lemma_put,
    lookup,
    put,
    Record,
};

verus! {

/// A poll, as the storage holds it, only moves forward: it keeps what it
/// was created with; its status stays or goes on to one that follows it;
/// and its tallies change only while it is in progress, and then only
/// upwards.
pub open spec fn moved_forward(before: PollModel, after: PollModel) -> bool {
    &&& after.id == before.id
    &&& after.title == before.title
    &&& after.description == before.description
    &&& after.link == before.link
    &&& after.executions == before.executions
    &&& after.creator == before.creator
    &&& after.deposit_amount == before.deposit_amount
    &&& after.start_height == before.start_height
    &&& after.end_height == before.end_height
    &&& after.total_balance_at_start_poll == before.total_balance_at_start_poll
    &&& after.status == before.status || before.status.leads_to(after.status)
    &&& after.yes_votes >= before.yes_votes
    &&& after.no_votes >= before.no_votes
    &&& after.abstain_votes >= before.abstain_votes
    &&& before.status != PollStatus::InProgress ==> {
        &&& after.yes_votes == before.yes_votes
        &&& after.no_votes == before.no_votes
        &&& after.abstain_votes == before.abstain_votes
    }
}

/// What a command keeps of a storage: its tables stay in order, the
/// polls, their count and the status index stay in agreement, no poll is
/// lost, and every poll has only moved forward.
pub open spec fn kept(before: StorageModel, after: StorageModel) -> bool {
    &&& after.wf()
    &&& after.consistent()
    &&& forall|id: u64| #[trigger]
        before.poll(id) is Some ==> after.poll(id) is Some && moved_forward(
            before.poll(id)->0,
            after.poll(id)->0,
        )
}

/// The staker at an address is filed under that address and valid.
proof fn lemma_staker_at(s: StorageModel, address: Seq<char>)
    requires
        s.wf(),
    ensures
        staker_at(s.staker_states, address).address == address,
        StakerState::valid(staker_at(s.staker_states, address)),
{
    lemma_lookup::<StakerState>(s.staker_states, staker_key(address));
    assert(locked_total(Seq::<(u64, u128)>::empty()) == 0);
}

/// Storing a poll in place of itself, with the status it had, keeps the
/// storage.
proof fn lemma_poll_saved(s: StorageModel, stored: PollModel, saved: PollModel)
    requires
        s.wf(),
        s.consistent(),
        s.poll(stored.id) == Some(stored),
        moved_forward(stored, saved),
        saved.status == stored.status,
        saved._status == stored._status,
        Poll::valid(saved),
    ensures
        kept(s, StorageModel { polls: put::<Poll>(s.polls, saved), ..s }),
{
    let after = StorageModel { polls: put::<Poll>(s.polls, saved), ..s };
    lemma_put::<Poll>(s.polls, saved);
    assert forall|id: u64| #[trigger] after.poll(id) is Some implies {
        &&& after.poll(id)->0._status == Some(after.poll(id)->0.status)
        &&& after.poll_state is Some
        &&& 1 <= id <= after.poll_state->0.poll_count
    } by {
        if id != saved.id {
            assert(after.poll(id) == s.poll(id));
        } else {
            assert(s.poll(id) is Some);
        }
    }
    assert forall|status: PollStatus, id: u64| #[trigger]
        after.stands_under(status, id) <==> (after.poll(id) is Some && after.poll(id)->0.status
            == status) by {
        assert(after.stands_under(status, id) == s.stands_under(status, id));
        if id != saved.id {
            assert(after.poll(id) == s.poll(id));
        } else {
            assert(s.poll(id) is Some);
        }
    }
    assert forall|id: u64| #[trigger] s.poll(id) is Some implies after.poll(id) is Some
        && moved_forward(s.poll(id)->0, after.poll(id)->0) by {
        if id != saved.id {
            assert(after.poll(id) == s.poll(id));
        }
    }
}

/// Storing a poll with a status that follows the one it had, and moving
/// its id in the status index, keeps the storage.
proof fn lemma_status_moved(s: StorageModel, poll: PollModel, status: PollStatus)
    requires
        s.wf(),
        s.consistent(),
        s.poll(poll.id) == Some(poll),
        poll.status.leads_to(status),
    ensures
        kept(s, with_status(s, poll, status)),
        with_status(s, poll, status).poll(poll.id) == Some(
            PollModel { status, _status: Some(status), ..poll },
        ),
{
    let after = with_status(s, poll, status);
    let moved = PollModel { status, _status: Some(status), ..poll };
    let prev = poll.status;
    assert(s.poll(poll.id) is Some);
    assert(poll._status == Some(prev));
    lemma_put::<Poll>(s.polls, moved);
    let removed = s.poll_status_index.remove(prev, poll.id);
    lemma_delete::<IndexEntry>(s.poll_status_index.ids(prev), poll_key(poll.id));
    lemma_put::<IndexEntry>(removed.ids(status), poll.id);
    assert(after.poll_status_index == removed.save(status, poll.id));
    lemma_lookup::<Poll>(s.polls, poll_key(poll.id));
    assert(Poll::valid(poll));
    assert(Poll::valid(moved));
    assert(prev != status);
    assert(removed.wf()) by {
        assert(removed.ids(prev) == delete::<IndexEntry>(
            s.poll_status_index.ids(prev),
            poll_key(poll.id),
        ));
    }
    assert(after.poll_status_index.wf()) by {
        assert(after.poll_status_index.ids(status) == put::<IndexEntry>(
            removed.ids(status),
            poll.id,
        ));
    }
    assert(after.wf());
    assert forall|id: u64| #[trigger] after.poll(id) is Some implies {
        &&& after.poll(id)->0._status == Some(after.poll(id)->0.status)
        &&& after.poll_state is Some
        &&& 1 <= id <= after.poll_state->0.poll_count
    } by {
        if id != poll.id {
            assert(after.poll(id) == s.poll(id));
        }
    }
    assert forall|st: PollStatus, id: u64| #[trigger]
        after.stands_under(st, id) <==> (after.poll(id) is Some && after.poll(id)->0.status
            == st) by {
        if id != poll.id {
            assert(after.poll(id) == s.poll(id));
            assert(poll_key(id) != poll_key(poll.id));
            assert(after.stands_under(st, id) == s.stands_under(st, id)) by {
                if st == status {
                    assert(lookup::<IndexEntry>(after.poll_status_index.ids(st), poll_key(id))
                        == lookup::<IndexEntry>(removed.ids(st), poll_key(id)));
                }
                if st == prev {
                    assert(lookup::<IndexEntry>(removed.ids(st), poll_key(id)) == lookup::<
                        IndexEntry,
                    >(s.poll_status_index.ids(st), poll_key(id)));
                }
            }
            assert(s.stands_under(st, id) <==> (s.poll(id) is Some && s.poll(id)->0.status == st));
        } else {
            if st == status {
                assert(after.stands_under(st, id));
            } else if st == prev {
                assert(!after.stands_under(st, id));
            } else {
                assert(after.stands_under(st, id) == s.stands_under(st, id));
                assert(s.stands_under(st, id) <==> (s.poll(id) is Some && s.poll(id)->0.status
                    == st));
            }
        }
    }
    assert forall|id: u64| #[trigger] s.poll(id) is Some implies after.poll(id) is Some
        && moved_forward(s.poll(id)->0, after.poll(id)->0) by {
        if id != poll.id {
            assert(after.poll(id) == s.poll(id));
        }
    }
}

/// Going on with an execution keeps the storage.
proof fn lemma_advanced(
    s: StorageModel,
    contract_address: Seq<char>,
    poll: PollModel,
    count: u64,
    action: Seq<char>,
)
    requires
        s.wf(),
        s.consistent(),
        s.poll(poll.id) == Some(poll),
        poll.status == PollStatus::Passed,
    ensures
        kept(s, advanced(s, contract_address, poll, count, action).0),
{
    if count >= poll.executions.len() {
        lemma_status_moved(s, poll, PollStatus::Executed);
        let moved = with_status(s, poll, PollStatus::Executed);
        let after = StorageModel { poll_execution_context: None, ..moved };
        assert forall|id: u64| after.poll(id) == moved.poll(id) by {}
        assert forall|st: PollStatus, id: u64|
            after.stands_under(st, id) == moved.stands_under(st, id) by {}
    } else {
        let after = advanced(s, contract_address, poll, count, action).0;
        assert forall|id: u64| after.poll(id) == s.poll(id) by {}
        assert forall|st: PollStatus, id: u64|
            after.stands_under(st, id) == s.stands_under(st, id) by {}
    }
}

/// A storage that differs only in what the polls do not look at is kept.
proof fn lemma_polls_untouched(s: StorageModel, after: StorageModel)
    requires
        s.wf(),
        s.consistent(),
        after.wf(),
        after.polls == s.polls,
        after.poll_status_index == s.poll_status_index,
        after.poll_state == s.poll_state,
    ensures
        kept(s, after),
{
    assert forall|id: u64| after.poll(id) == s.poll(id) by {}
    assert forall|st: PollStatus, id: u64|
        after.stands_under(st, id) == s.stands_under(st, id) by {}
}

/// The storage of a contract that has not been set up is in order, and
/// setting it up leaves it so.
pub proof fn law_setting_up_yields_a_consistent_storage(
    contract_address: Seq<char>,
    msg: InstantiateMsg,
)
    requires
        instantiate_spec(StorageModel::empty(), contract_address, msg) is Ok,
    ensures
        StorageModel::empty().wf(),
        StorageModel::empty().consistent(),
        instantiate_spec(StorageModel::empty(), contract_address, msg)->Ok_0.0.wf(),
        instantiate_spec(StorageModel::empty(), contract_address, msg)->Ok_0.0.consistent(),
{
    let s = StorageModel::empty();
    let after = instantiate_spec(s, contract_address, msg)->Ok_0.0;
    assert forall|id: u64| s.poll(id) is None && after.poll(id) is None by {}
    assert forall|st: PollStatus, id: u64|
        !s.stands_under(st, id) && !after.stands_under(st, id) by {}
}

/// A proposal that is submitted keeps the storage.
proof fn lemma_create_poll_kept(
    s: StorageModel,
    height: u64,
    sender: Seq<char>,
    proposer: Seq<char>,
    deposit_amount: u128,
    title: Seq<char>,
    description: Seq<char>,
    link: Option<Seq<char>>,
    executions: Seq<crate::common::ExecutionModel>,
    gov_token_total_supply: u128,
)
    requires
        s.wf(),
        s.consistent(),
        create_poll_spec(
            s,
            height,
            sender,
            proposer,
            deposit_amount,
            title,
            description,
            link,
            executions,
            gov_token_total_supply,
        ) is Ok,
    ensures
        kept(
            s,
            create_poll_spec(
                s,
                height,
                sender,
                proposer,
                deposit_amount,
                title,
                description,
                link,
                executions,
                gov_token_total_supply,
            )->Ok_0.0,
        ),
{
    let after = create_poll_spec(
        s,
        height,
        sender,
        proposer,
        deposit_amount,
        title,
        description,
        link,
        executions,
        gov_token_total_supply,
    )->Ok_0.0;
    let next = counted(s.poll_state->0, deposit_amount)->Ok_0;
    let id = next.poll_count;
    let poll = crate::poll::executions::new_poll(
        id,
        height,
        (height + s.poll_config->0.voting_period) as u64,
        proposer,
        deposit_amount,
        title,
        description,
        link,
        executions,
        gov_token_total_supply,
    );
    assert(s.poll(id) is None);
    assert(after.polls == put::<Poll>(s.polls, poll));
    lemma_put::<Poll>(s.polls, poll);
    lemma_put::<IndexEntry>(s.poll_status_index.ids(PollStatus::InProgress), id);
    assert(after.poll_status_index.ids(PollStatus::InProgress) == put::<IndexEntry>(
        s.poll_status_index.ids(PollStatus::InProgress),
        id,
    ));
    assert(after.wf());
    assert forall|other: u64| #[trigger] after.poll(other) is Some implies {
        &&& after.poll(other)->0._status == Some(after.poll(other)->0.status)
        &&& after.poll_state is Some
        &&& 1 <= other <= after.poll_state->0.poll_count
    } by {
        if other != id {
            assert(after.poll(other) == s.poll(other));
            assert(s.poll(other) is Some);
        }
    }
    assert forall|st: PollStatus, other: u64| #[trigger]
        after.stands_under(st, other) <==> (after.poll(other) is Some && after.poll(
            other,
        )->0.status == st) by {
        assert(s.stands_under(st, other) <==> (s.poll(other) is Some && s.poll(other)->0.status
            == st));
        if other != id {
            assert(after.poll(other) == s.poll(other));
            assert(poll_key(other) != poll_key(id));
            if st == PollStatus::InProgress {
                assert(lookup::<IndexEntry>(after.poll_status_index.ids(st), poll_key(other))
                    == lookup::<IndexEntry>(s.poll_status_index.ids(st), poll_key(other)));
            }
            assert(after.stands_under(st, other) == s.stands_under(st, other));
        } else if st != PollStatus::InProgress {
            assert(after.stands_under(st, other) == s.stands_under(st, other));
        } else {
            assert(after.stands_under(st, other));
        }
    }
    assert forall|other: u64| #[trigger] s.poll(other) is Some implies after.poll(other) is Some
        && moved_forward(s.poll(other)->0, after.poll(other)->0) by {
        assert(after.poll(other) == s.poll(other));
    }
}

/// A vote that is cast keeps the storage.
proof fn lemma_cast_vote_kept(
    s: StorageModel,
    height: u64,
    sender: Seq<char>,
    poll_id: u64,
    option: crate::governance::enumerations::VoteOption,
    amount: u128,
    gov_token_balance: u128,
)
    requires
        s.wf(),
        s.consistent(),
        cast_vote_spec(s, height, sender, poll_id, option, amount, gov_token_balance) is Ok,
    ensures
        kept(
            s,
            cast_vote_spec(s, height, sender, poll_id, option, amount, gov_token_balance)->Ok_0.0,
        ),
{
    let after = cast_vote_spec(
        s,
        height,
        sender,
        poll_id,
        option,
        amount,
        gov_token_balance,
    )->Ok_0.0;
    lemma_lookup::<Poll>(s.polls, poll_key(poll_id));
    lemma_staker_at(s, sender);
    let poll = s.poll(poll_id)->0;
    let staker = staker_at(s.staker_states, sender);
    let cast = VoteModel { voter: sender, option, amount };
    lemma_put::<PollVoter>(s.poll_voters, PollVoterModel { poll_id, vote: cast });
    lemma_put::<StakerState>(
        s.staker_states,
        StakerModel {
            address: sender,
            votes: active_votes(staker.votes, s.polls).push((poll_id, cast)),
            unstake_locked_list: staker.unstake_locked_list,
        },
    );
    let voted = StorageModel { polls: put::<Poll>(s.polls, poll.voted(option, amount)), ..s };
    lemma_poll_saved(s, poll, poll.voted(option, amount));
    assert(after.wf());
    assert forall|id: u64| after.poll(id) == voted.poll(id) by {}
    assert forall|st: PollStatus, id: u64|
        after.stands_under(st, id) == voted.stands_under(st, id) by {}
}

/// A withdrawal that is locked keeps the storage.
proof fn lemma_unstake_kept(
    s: StorageModel,
    contract_address: Seq<char>,
    height: u64,
    sender: Seq<char>,
    staker: Seq<char>,
    amount: u128,
    share_balance: u128,
    gov_token_total_supply: u128,
    contract_balance: u128,
)
    requires
        s.wf(),
        s.consistent(),
        unstake_token_hook_spec(
            s,
            contract_address,
            height,
            sender,
            staker,
            amount,
            share_balance,
            gov_token_total_supply,
            contract_balance,
        ) is Ok,
    ensures
        kept(
            s,
            unstake_token_hook_spec(
                s,
                contract_address,
                height,
                sender,
                staker,
                amount,
                share_balance,
                gov_token_total_supply,
                contract_balance,
            )->Ok_0.0,
        ),
{
    let after = unstake_token_hook_spec(
        s,
        contract_address,
        height,
        sender,
        staker,
        amount,
        share_balance,
        gov_token_total_supply,
        contract_balance,
    )->Ok_0.0;
    lemma_staker_at(s, staker);
    let before = staker_at(s.staker_states, staker);
    let withdraw_amount = crate::staking::queries::unstake_amount(
        s,
        amount,
        gov_token_total_supply,
        contract_balance,
    )->Ok_0;
    let list = before.unstake_locked_list.push(
        ((height + s.staking_config->0.unstake_lock_period) as u64, withdraw_amount),
    );
    assert(list.drop_last() =~= before.unstake_locked_list);
    let filed = StakerModel {
        address: before.address,
        votes: active_votes(before.votes, s.polls),
        unstake_locked_list: list,
    };
    assert(after.staker_states == put::<StakerState>(s.staker_states, filed));
    lemma_put::<StakerState>(s.staker_states, filed);
    lemma_polls_untouched(s, after);
}

/// A claim keeps the storage.
proof fn lemma_claim_kept(s: StorageModel, height: u64, sender: Seq<char>)
    requires
        s.wf(),
        s.consistent(),
        claim_unstaked_token_spec(s, height, sender) is Ok,
    ensures
        kept(s, claim_unstaked_token_spec(s, height, sender)->Ok_0.0),
{
    let after = claim_unstaked_token_spec(s, height, sender)->Ok_0.0;
    lemma_staker_at(s, sender);
    let before = staker_at(s.staker_states, sender);
    lemma_claim_splits(before.unstake_locked_list, height);
    lemma_put::<StakerState>(
        s.staker_states,
        StakerModel { unstake_locked_list: pending(before.unstake_locked_list, height), ..before },
    );
    lemma_polls_untouched(s, after);
}

/// Whatever command succeeds on a storage that is in order, the storage
/// is in order afterwards: the tables are sorted, the status index holds
/// each poll under the status it has and under no other, no poll is lost,
/// and every poll has only moved forward. No command takes a poll back
/// to an earlier status or changes the tallies of a poll that is decided.
pub proof fn law_commands_keep_the_storage(
    s: StorageModel,
    contract_address: Seq<char>,
    height: u64,
    sender: Seq<char>,
    msg: ExecuteMsg,
    ledger: Ledger,
)
    requires
        s.wf(),
        s.consistent(),
        execute_spec(s, contract_address, height, sender, msg, ledger) is Ok,
    ensures
        kept(s, execute_spec(s, contract_address, height, sender, msg, ledger)->Ok_0.0),
{
    let after = execute_spec(s, contract_address, height, sender, msg, ledger)->Ok_0.0;
    match msg {
        ExecuteMsg::Receive(cw20_msg) => {
            match cw20_msg.msg {
                Cw20HookMsg::CreatePoll { title, description, link, executions } => {
                    lemma_create_poll_kept(
                        s,
                        height,
                        sender,
                        cw20_msg.sender@,
                        cw20_msg.amount,
                        title@,
                        description@,
                        crate::store::text_of(link),
                        crate::store::models(executions@),
                        ledger.gov_token_total_supply,
                    );
                },
                _ => {
                    lemma_polls_untouched(s, after);
                },
            }
        },
        ExecuteMsg::UpdateStakingConfig { .. } => {
            lemma_polls_untouched(s, after);
        },
        ExecuteMsg::UpdatePollConfig { .. } => {
            lemma_polls_untouched(s, after);
        },
        ExecuteMsg::StakeGovernanceTokenHook { .. } => {
            lemma_polls_untouched(s, after);
        },
        ExecuteMsg::UnstakeGovernanceTokenHook { staker, amount } => {
            lemma_unstake_kept(
                s,
                contract_address,
                height,
                sender,
                staker@,
                amount,
                ledger.gov_token_balance,
                ledger.gov_token_total_supply,
                ledger.staking_token_balance,
            );
        },
        ExecuteMsg::ClaimUnstakedToken {  } => {
            lemma_claim_kept(s, height, sender);
        },
        ExecuteMsg::CastVote { poll_id, vote, amount } => {
            lemma_cast_vote_kept(
                s,
                height,
                sender,
                poll_id,
                vote,
                amount,
                ledger.gov_token_balance,
            );
        },
        ExecuteMsg::EndPoll { poll_id } => {
            lemma_lookup::<Poll>(s.polls, poll_key(poll_id));
            let poll = s.poll(poll_id)->0;
            let status = crate::poll::executions::decided(poll.tally(s.poll_config->0));
            lemma_status_moved(s, poll, status);
        },
        ExecuteMsg::ExecutePoll { poll_id } => {
            lemma_lookup::<Poll>(s.polls, poll_key(poll_id));
            let poll = s.poll(poll_id)->0;
            let count = match s.poll_execution_context {
                None => 0,
                Some(context) => context.execution_count,
            };
            lemma_advanced(s, contract_address, poll, count, "execute_poll"@);
        },
        ExecuteMsg::RunExecution { .. } => {
            lemma_polls_untouched(s, after);
        },
    }
}

/// Whatever outcome of an execution step is taken on a storage that is
/// in order, the storage is in order afterwards, and every poll has only
/// moved forward.
pub proof fn law_replies_keep_the_storage(s: StorageModel, contract_address: Seq<char>, msg: Reply)
    requires
        s.wf(),
        s.consistent(),
        reply_spec(s, contract_address, msg) is Ok,
    ensures
        kept(s, reply_spec(s, contract_address, msg)->Ok_0.0),
{
    let context = s.poll_execution_context->0;
    lemma_lookup::<Poll>(s.polls, poll_key(context.poll_id));
    let poll = s.poll(context.poll_id)->0;
    lemma_advanced(
        s,
        contract_address,
        poll,
        (context.execution_count + 1) as u64,
        "reply_execution"@,
    );
}


/// On a storage that is in order, the status index holds no id that has
/// no poll: a listing by status always answers, with at most a page of
/// polls, and each poll on the page is stored and has the status asked
/// for.
pub proof fn law_listing_by_status_answers(
    s: StorageModel,
    status: PollStatus,
    start_after: Option<u64>,
    limit: Option<u32>,
    order_by: Option<crate::common::OrderBy>,
)
    requires
        s.wf(),
        s.consistent(),
    ensures
        crate::poll::states::listed_polls(s, Some(status), start_after, limit, order_by) is Ok,
        ({
            let found = crate::poll::states::listed_polls(
                s,
                Some(status),
                start_after,
                limit,
                order_by,
            )->Ok_0;
            &&& found.len() <= crate::poll::states::page_size(
                limit,
                crate::poll::states::DEFAULT_LIMIT,
                crate::poll::states::MAX_LIMIT,
            )
            &&& forall|i: int|
                0 <= i < found.len() ==> (#[trigger] found[i]).status == status && s.poll(
                    found[i].id,
                ) == Some(found[i])
        }),
{
    let w = crate::poll::states::poll_walk(start_after, limit, order_by);
    let ids = crate::store::walk::<IndexEntry>(s.poll_status_index.ids(status), w);
    crate::store::lemma_walk_reports_records::<IndexEntry>(s.poll_status_index.ids(status), w);
    assert forall|i: int| 0 <= i < ids.len() implies has_key::<Poll>(
        s.polls,
        poll_key(#[trigger] ids[i]),
    ) && s.poll(ids[i])->0.status == status && s.poll(ids[i])->0.id == ids[i] by {
        let id = ids[i];
        assert(s.poll_status_index.ids(status).contains(id));
        let j = choose|j: int|
            0 <= j < s.poll_status_index.ids(status).len() && s.poll_status_index.ids(status)[j]
                == id;
        crate::store::lemma_lookup_at::<IndexEntry>(s.poll_status_index.ids(status), j);
        assert(s.stands_under(status, id));
        assert(s.poll(id) is Some);
        lemma_lookup::<Poll>(s.polls, poll_key(id));
    }
    let found = crate::poll::states::listed_polls(s, Some(status), start_after, limit, order_by)->Ok_0;
    assert forall|i: int| 0 <= i < found.len() implies (#[trigger] found[i]).status == status
        && s.poll(found[i].id) == Some(found[i]) by {
        assert(found[i] == s.poll(ids[i])->0);
    }
}

} // verus!
