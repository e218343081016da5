use vstd::prelude::*;

use crate::escrow::{
    after_accept, after_complete, after_create, agent_action_error, complete_task_error,
    create_task_error, rate_agent_error,
};
use crate::ledger::{Ledger, LedgerView};
use crate::registry::with_status;
use crate::reputation::reputation_of;
use crate::types::{AgentStatus, EscrowKey, Pubkey, RegistryError, TaskStatus};
use crate::validation::{byte_len, MAX_TASK_ID_LEN};

verus! {

/// In every well-formed ledger, whatever ratings it has seen, each profile's
/// score is the truncated average of its ratings times 100, and 0 while it
/// has none. Every operation keeps the ledger well formed.
pub proof fn reputation_tracks_ratings(l: &Ledger, owner: Pubkey)
    requires
        l.wf(),
        l@.profiles.contains_key(owner),
    ensures
        l@.profiles[owner].total_ratings == 0 ==> l@.profiles[owner].reputation_score == 0,
        l@.profiles[owner].total_ratings > 0 ==> l@.profiles[owner].reputation_score as nat == (
        l@.profiles[owner].rating_sum as nat * 100) / (l@.profiles[owner].total_ratings as nat),
{
    assert(l@.profiles[owner].reputation_score as nat == reputation_of(
        l@.profiles[owner].rating_sum,
        l@.profiles[owner].total_ratings,
    ));
}

/// A task cannot be created against a profile that is missing or not
/// active, whatever the amount and task identifier.
pub proof fn create_task_needs_active_agent(
    l: LedgerView,
    agent_profile: Pubkey,
    client: Pubkey,
    task_id: Seq<char>,
    amount: u64,
)
    requires
        !l.profiles.contains_key(agent_profile) || l.profiles[agent_profile].status
            != AgentStatus::Active,
    ensures
        create_task_error(l, agent_profile, client, task_id, amount).is_some(),
{
}

/// Acceptance succeeds only on a funded escrow, and a second acceptance
/// right after a successful one fails with `InvalidTaskStatus`.
pub proof fn accept_only_once(
    l: LedgerView,
    key: EscrowKey,
    agent_profile: Pubkey,
    agent_owner: Pubkey,
)
    requires
        agent_action_error(l, key, agent_profile, agent_owner, TaskStatus::Funded).is_none(),
    ensures
        l.escrows[key].status == TaskStatus::Funded,
        agent_action_error(
            after_accept(l, key),
            key,
            agent_profile,
            agent_owner,
            TaskStatus::Funded,
        ) == Some(RegistryError::InvalidTaskStatus),
{
}

/// Completion succeeds only on an escrow in progress. After it the escrow
/// custodies nothing, the agent owner holds exactly the escrowed amount
/// more, what the escrow held before is exactly that amount, and the
/// profile counts exactly one more completed task.
pub proof fn completion_pays_once(
    l: LedgerView,
    key: EscrowKey,
    agent_profile: Pubkey,
    agent_owner: Pubkey,
)
    requires
        l.consistent(),
        complete_task_error(l, key, agent_profile, agent_owner).is_none(),
    ensures
        l.escrows[key].status == TaskStatus::InProgress,
        l.custody[key] == l.escrows[key].amount,
        after_complete(l, key, agent_owner).custody[key] == 0,
        after_complete(l, key, agent_owner).escrows[key].status == TaskStatus::Completed,
        after_complete(l, key, agent_owner).balance(agent_owner) == l.balance(agent_owner)
            + l.escrows[key].amount,
        after_complete(l, key, agent_owner).profiles[agent_owner].tasks_completed
            == l.profiles[agent_owner].tasks_completed + 1,
        agent_action_error(
            after_complete(l, key, agent_owner),
            key,
            agent_profile,
            agent_owner,
            TaskStatus::InProgress,
        ) == Some(RegistryError::InvalidTaskStatus),
{
    assert(l.escrows.contains_key(key));
}

/// A rating fails on an escrow that is not completed, on a rating outside
/// 1 to 5, and for a signer other than the escrow's client.
pub proof fn rating_needs_completed_task_and_its_client(
    l: LedgerView,
    key: EscrowKey,
    agent_profile: Pubkey,
    client: Pubkey,
    rating: u8,
)
    requires
        !l.escrows.contains_key(key) || l.escrows[key].status != TaskStatus::Completed || rating < 1
            || rating > 5 || l.escrows[key].client != client,
    ensures
        rate_agent_error(l, key, agent_profile, client, rating).is_some(),
{
}

/// A successful creation moves exactly the amount from the client's
/// balance into the custody of a new funded escrow bound to the agent.
pub proof fn creation_locks_funds(
    l: LedgerView,
    agent_profile: Pubkey,
    client: Pubkey,
    task_id: Seq<char>,
    amount: u64,
    now: i64,
)
    requires
        create_task_error(l, agent_profile, client, task_id, amount).is_none(),
    ensures
        after_create(l, agent_profile, client, task_id, amount, now).balance(client) + amount
            == l.balance(client),
        after_create(l, agent_profile, client, task_id, amount, now).custody[(client, task_id)]
            == amount,
        after_create(l, agent_profile, client, task_id, amount, now).escrows[(
            client,
            task_id,
        )].status == TaskStatus::Funded,
        after_create(l, agent_profile, client, task_id, amount, now).escrows[(
            client,
            task_id,
        )].agent == agent_profile,
        after_create(l, agent_profile, client, task_id, amount, now).profiles == l.profiles,
{
}

/// After a client creates a task, a second creation by the same client
/// with the same task identifier fails with `AddressInUse`, whatever its
/// agent and amount; a failed operation leaves the first escrow as it was.
pub proof fn task_address_taken_once(
    l: LedgerView,
    agent_profile: Pubkey,
    client: Pubkey,
    task_id: Seq<char>,
    amount: u64,
    now: i64,
    other_agent: Pubkey,
    other_amount: u64,
)
    requires
        create_task_error(l, agent_profile, client, task_id, amount).is_none(),
    ensures
        create_task_error(
            after_create(l, agent_profile, client, task_id, amount, now),
            other_agent,
            client,
            task_id,
            other_amount,
        ) == Some(RegistryError::AddressInUse),
{
}

/// Once its owner deactivates a profile, the profile is still there, and a
/// task against it that would otherwise be accepted fails with
/// `AgentNotActive`.
pub proof fn deactivated_agent_cannot_be_hired(
    l: LedgerView,
    owner: Pubkey,
    client: Pubkey,
    task_id: Seq<char>,
    amount: u64,
)
    requires
        l.profiles.contains_key(owner),
        !l.escrows.contains_key((client, task_id)),
        byte_len(task_id) <= MAX_TASK_ID_LEN,
        amount > 0,
    ensures
        with_status(l, owner, AgentStatus::Inactive).profiles.contains_key(owner),
        create_task_error(with_status(l, owner, AgentStatus::Inactive), owner, client, task_id, amount)
            == Some(RegistryError::AgentNotActive),
{
}

} // verus!
