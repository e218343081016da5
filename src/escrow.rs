use vstd::prelude::*;

use crate::accounts::{AgentAction, CompleteTask, CreateTask, RateAgent};
use crate::events::{AgentRated, TaskAccepted, TaskCompleted, TaskCreated};
use crate::ledger::{Ledger, LedgerView};
use crate::reputation::{add_rating, rating_fits, reputation_of};
use crate::types::{
    AgentStatus, EscrowKey, EscrowRef, EscrowView, ProfileView, Pubkey, RegistryError, TaskEscrow,
    TaskStatus,
};
use crate::validation::{byte_len, str_byte_len, MAX_TASK_ID_LEN};

verus! {

/// Why a task creation fails, if it does, in the order the checks run.
pub open spec fn create_task_error(
    l: LedgerView,
    agent_profile: Pubkey,
    client: Pubkey,
    task_id: Seq<char>,
    amount: u64,
) -> Option<RegistryError> {
    if l.escrows.contains_key((client, task_id)) {
        Some(RegistryError::AddressInUse)
    } else if !l.profiles.contains_key(agent_profile) {
        Some(RegistryError::AccountNotFound)
    } else if byte_len(task_id) > MAX_TASK_ID_LEN {
        Some(RegistryError::TaskIdTooLong)
    } else if amount == 0 {
        Some(RegistryError::InvalidAmount)
    } else if l.profiles[agent_profile].status != AgentStatus::Active {
        Some(RegistryError::AgentNotActive)
    } else if l.balance(client) < amount {
        Some(RegistryError::InsufficientFunds)
    } else {
        None
    }
}

/// The ledger after a successful task creation: the amount has moved from
/// the client's balance into the custody of a new funded escrow.
pub open spec fn after_create(
    l: LedgerView,
    agent_profile: Pubkey,
    client: Pubkey,
    task_id: Seq<char>,
    amount: u64,
    now: i64,
) -> LedgerView {
    let key: EscrowKey = (client, task_id);
    LedgerView {
        escrows: l.escrows.insert(
            key,
            EscrowView {
                client,
                agent: agent_profile,
                amount,
                status: TaskStatus::Funded,
                task_id,
                created_at: now,
            },
        ),
        custody: l.custody.insert(key, amount),
        balances: l.balances.insert(client, (l.balance(client) - amount) as u64),
        ..l
    }
}

/// Why the signer `agent_owner` may not move the escrow at `key` on from
/// status `from` through profile `agent_profile`, if that is so.
pub open spec fn agent_action_error(
    l: LedgerView,
    key: EscrowKey,
    agent_profile: Pubkey,
    agent_owner: Pubkey,
    from: TaskStatus,
) -> Option<RegistryError> {
    if !l.escrows.contains_key(key) || !l.profiles.contains_key(agent_profile) {
        Some(RegistryError::AccountNotFound)
    } else if l.escrows[key].agent != agent_profile {
        Some(RegistryError::AgentMismatch)
    } else if agent_profile != agent_owner {
        Some(RegistryError::Unauthorized)
    } else if l.escrows[key].status != from {
        Some(RegistryError::InvalidTaskStatus)
    } else {
        None
    }
}

/// The ledger after a successful acceptance: the escrow is in progress.
pub open spec fn after_accept(l: LedgerView, key: EscrowKey) -> LedgerView {
    LedgerView {
        escrows: l.escrows.insert(key, EscrowView { status: TaskStatus::InProgress, ..l.escrows[key] }),
        ..l
    }
}

/// Why a completion fails, if it does: an action error, or a balance or
/// counter that would exceed 64 bits.
pub open spec fn complete_task_error(
    l: LedgerView,
    key: EscrowKey,
    agent_profile: Pubkey,
    agent_owner: Pubkey,
) -> Option<RegistryError> {
    if agent_action_error(l, key, agent_profile, agent_owner, TaskStatus::InProgress).is_some() {
        agent_action_error(l, key, agent_profile, agent_owner, TaskStatus::InProgress)
    } else if l.balance(agent_owner) as nat + l.escrows[key].amount as nat > u64::MAX as nat
        || l.profiles[agent_profile].tasks_completed == u64::MAX {
        Some(RegistryError::ArithmeticOverflow)
    } else {
        None
    }
}

/// The ledger after a successful completion: the escrowed amount has moved
/// to the agent owner's balance, the escrow is completed and holds nothing,
/// and the profile counts one more completed task.
pub open spec fn after_complete(l: LedgerView, key: EscrowKey, agent_owner: Pubkey) -> LedgerView {
    let e = l.escrows[key];
    let p = l.profiles[agent_owner];
    LedgerView {
        profiles: l.profiles.insert(
            agent_owner,
            ProfileView { tasks_completed: (p.tasks_completed + 1) as u64, ..p },
        ),
        escrows: l.escrows.insert(key, EscrowView { status: TaskStatus::Completed, ..e }),
        custody: l.custody.insert(key, 0),
        balances: l.balances.insert(agent_owner, (l.balance(agent_owner) + e.amount) as u64),
    }
}

/// Why a rating fails, if it does, in the order the checks run.
pub open spec fn rate_agent_error(
    l: LedgerView,
    key: EscrowKey,
    agent_profile: Pubkey,
    client: Pubkey,
    rating: u8,
) -> Option<RegistryError> {
    if !l.escrows.contains_key(key) {
        Some(RegistryError::AccountNotFound)
    } else if l.escrows[key].client != client {
        Some(RegistryError::Unauthorized)
    } else if !l.profiles.contains_key(agent_profile) {
        Some(RegistryError::AccountNotFound)
    } else if l.escrows[key].agent != agent_profile {
        Some(RegistryError::AgentMismatch)
    } else if rating < 1 || rating > 5 {
        Some(RegistryError::InvalidRating)
    } else if l.escrows[key].status != TaskStatus::Completed {
        Some(RegistryError::InvalidTaskStatus)
    } else if !rating_fits(
        l.profiles[agent_profile].rating_sum,
        l.profiles[agent_profile].total_ratings,
        rating,
    ) {
        Some(RegistryError::ArithmeticOverflow)
    } else {
        None
    }
}

/// `p` with one more rating folded into its accumulators and score.
pub open spec fn rated(p: ProfileView, rating: u8) -> ProfileView {
    let total = (p.total_ratings + 1) as u64;
    let sum = (p.rating_sum + rating) as u64;
    ProfileView {
        total_ratings: total,
        rating_sum: sum,
        reputation_score: reputation_of(sum, total) as u64,
        ..p
    }
}

/// Creates a funded escrow at the address derived from the signing client
/// and `task_id`, moving `amount_lamports` from the client's balance into
/// its custody. `now` is the ledger clock's Unix timestamp.
pub fn create_task(
    ledger: &mut Ledger,
    ctx: &CreateTask,
    task_id: String,
    amount_lamports: u64,
    now: i64,
) -> (r: Result<TaskCreated, RegistryError>)
    requires
        old(ledger).wf(),
    ensures
        final(ledger).wf(),
        match r {
            Ok(ev) => {
                &&& create_task_error(
                    old(ledger)@,
                    ctx.agent_profile,
                    ctx.client,
                    task_id@,
                    amount_lamports,
                ).is_none()
                &&& final(ledger)@ == after_create(
                    old(ledger)@,
                    ctx.agent_profile,
                    ctx.client,
                    task_id@,
                    amount_lamports,
                    now,
                )
                &&& ev.escrow@ == (ctx.client, task_id@)
                &&& ev.client == ctx.client && ev.agent == ctx.agent_profile
                &&& ev.task_id@ == task_id@ && ev.amount == amount_lamports
            },
            Err(e) => {
                &&& create_task_error(
                    old(ledger)@,
                    ctx.agent_profile,
                    ctx.client,
                    task_id@,
                    amount_lamports,
                ) == Some(e)
                &&& final(ledger)@ == old(ledger)@
            },
        },
{
    let key = EscrowRef { client: ctx.client, task_id: task_id.clone() };
    if ledger.escrow(&key).is_some() {
        return Err(RegistryError::AddressInUse);
    }
    let status = match ledger.profile(ctx.agent_profile) {
        Some(p) => p.status,
        None => {
            return Err(RegistryError::AccountNotFound);
        },
    };
    if str_byte_len(&task_id) > MAX_TASK_ID_LEN {
        return Err(RegistryError::TaskIdTooLong);
    }
    if amount_lamports == 0 {
        return Err(RegistryError::InvalidAmount);
    }
    if status != AgentStatus::Active {
        return Err(RegistryError::AgentNotActive);
    }
    let funds = ledger.balance(ctx.client);
    if funds < amount_lamports {
        return Err(RegistryError::InsufficientFunds);
    }
    ledger.set_balance(ctx.client, funds - amount_lamports);
    let escrow = TaskEscrow {
        client: ctx.client,
        agent: ctx.agent_profile,
        amount: amount_lamports,
        status: TaskStatus::Funded,
        task_id: task_id.clone(),
        created_at: now,
    };
    ledger.insert_escrow(escrow, amount_lamports);
    proof {
        assert(final(ledger)@ =~= after_create(
            old(ledger)@,
            ctx.agent_profile,
            ctx.client,
            task_id@,
            amount_lamports,
            now,
        ));
    }
    Ok(
        TaskCreated {
            escrow: key,
            client: ctx.client,
            agent: ctx.agent_profile,
            task_id,
            amount: amount_lamports,
        },
    )
}

/// Reads the escrow at `key` and the profile `agent_profile` and returns
/// the escrow's amount, after the account checks that an agent's action on
/// an escrow in status `from` needs.
fn check_agent_action(
    ledger: &Ledger,
    key: &EscrowRef,
    agent_profile: Pubkey,
    agent_owner: Pubkey,
    from: TaskStatus,
) -> (r: Result<u64, RegistryError>)
    requires
        ledger.wf(),
    ensures
        match r {
            Ok(amount) => agent_action_error(ledger@, key@, agent_profile, agent_owner, from).is_none()
                && amount == ledger@.escrows[key@].amount,
            Err(e) => agent_action_error(ledger@, key@, agent_profile, agent_owner, from) == Some(e),
        },
{
    let (agent, status, amount) = match ledger.escrow(key) {
        Some(e) => (e.agent, e.status, e.amount),
        None => {
            return Err(RegistryError::AccountNotFound);
        },
    };
    if ledger.profile(agent_profile).is_none() {
        return Err(RegistryError::AccountNotFound);
    }
    if agent != agent_profile {
        return Err(RegistryError::AgentMismatch);
    }
    if agent_profile != agent_owner {
        return Err(RegistryError::Unauthorized);
    }
    if status != from {
        return Err(RegistryError::InvalidTaskStatus);
    }
    Ok(amount)
}

/// The bound agent takes on a funded task: the escrow moves to `InProgress`.
pub fn accept_task(ledger: &mut Ledger, ctx: &AgentAction) -> (r: Result<TaskAccepted, RegistryError>)
    requires
        old(ledger).wf(),
    ensures
        final(ledger).wf(),
        match r {
            Ok(ev) => {
                &&& agent_action_error(
                    old(ledger)@,
                    ctx.task_escrow@,
                    ctx.agent_profile,
                    ctx.agent_owner,
                    TaskStatus::Funded,
                ).is_none()
                &&& final(ledger)@ == after_accept(old(ledger)@, ctx.task_escrow@)
                &&& ev.escrow@ == ctx.task_escrow@ && ev.agent == ctx.agent_profile
            },
            Err(e) => {
                &&& agent_action_error(
                    old(ledger)@,
                    ctx.task_escrow@,
                    ctx.agent_profile,
                    ctx.agent_owner,
                    TaskStatus::Funded,
                ) == Some(e)
                &&& final(ledger)@ == old(ledger)@
            },
        },
{
    let amount = match check_agent_action(
        ledger,
        &ctx.task_escrow,
        ctx.agent_profile,
        ctx.agent_owner,
        TaskStatus::Funded,
    ) {
        Ok(a) => a,
        Err(e) => {
            return Err(e);
        },
    };
    ledger.set_escrow_state(&ctx.task_escrow, TaskStatus::InProgress, amount);
    proof {
        assert(final(ledger)@.custody =~= old(ledger)@.custody);
    }
    Ok(TaskAccepted { escrow: ctx.task_escrow.copy(), agent: ctx.agent_profile })
}

/// The bound agent finishes a task in progress: the escrowed amount goes
/// to the signer's balance, the escrow is completed, and the profile counts
/// one more completed task, all together.
pub fn complete_task(ledger: &mut Ledger, ctx: &CompleteTask) -> (r: Result<
    TaskCompleted,
    RegistryError,
>)
    requires
        old(ledger).wf(),
    ensures
        final(ledger).wf(),
        match r {
            Ok(ev) => {
                &&& complete_task_error(
                    old(ledger)@,
                    ctx.task_escrow@,
                    ctx.agent_profile,
                    ctx.agent_owner,
                ).is_none()
                &&& final(ledger)@ == after_complete(old(ledger)@, ctx.task_escrow@, ctx.agent_owner)
                &&& ev.escrow@ == ctx.task_escrow@ && ev.agent == ctx.agent_profile
                &&& ev.amount == old(ledger)@.escrows[ctx.task_escrow@].amount
            },
            Err(e) => {
                &&& complete_task_error(
                    old(ledger)@,
                    ctx.task_escrow@,
                    ctx.agent_profile,
                    ctx.agent_owner,
                ) == Some(e)
                &&& final(ledger)@ == old(ledger)@
            },
        },
{
    let amount = match check_agent_action(
        ledger,
        &ctx.task_escrow,
        ctx.agent_profile,
        ctx.agent_owner,
        TaskStatus::InProgress,
    ) {
        Ok(a) => a,
        Err(e) => {
            return Err(e);
        },
    };
    let funds = ledger.balance(ctx.agent_owner);
    let done = match ledger.profile(ctx.agent_owner) {
        Some(p) => p.tasks_completed,
        None => {
            return Err(RegistryError::AccountNotFound);
        },
    };
    if funds > u64::MAX - amount || done == u64::MAX {
        return Err(RegistryError::ArithmeticOverflow);
    }
    ledger.set_escrow_state(&ctx.task_escrow, TaskStatus::Completed, 0);
    ledger.set_balance(ctx.agent_owner, funds + amount);
    ledger.set_tasks_completed(ctx.agent_owner, done + 1);
    proof {
        assert(final(ledger)@ =~= after_complete(old(ledger)@, ctx.task_escrow@, ctx.agent_owner));
    }
    Ok(TaskCompleted { escrow: ctx.task_escrow.copy(), agent: ctx.agent_profile, amount })
}

/// The escrow's client rates the bound agent of a completed task from 1 to
/// 5: the rating is folded into the profile's running average. Nothing
/// stops a client from rating the same escrow again.
pub fn rate_agent(ledger: &mut Ledger, ctx: &RateAgent, rating: u8) -> (r: Result<
    AgentRated,
    RegistryError,
>)
    requires
        old(ledger).wf(),
    ensures
        final(ledger).wf(),
        match r {
            Ok(ev) => {
                &&& rate_agent_error(
                    old(ledger)@,
                    ctx.task_escrow@,
                    ctx.agent_profile,
                    ctx.client,
                    rating,
                ).is_none()
                &&& final(ledger)@ == (LedgerView {
                    profiles: old(ledger)@.profiles.insert(
                        ctx.agent_profile,
                        rated(old(ledger)@.profiles[ctx.agent_profile], rating),
                    ),
                    ..old(ledger)@
                })
                &&& ev.agent == ctx.agent_profile && ev.rating == rating
                &&& ev.new_reputation == final(ledger)@.profiles[ctx.agent_profile].reputation_score
            },
            Err(e) => {
                &&& rate_agent_error(
                    old(ledger)@,
                    ctx.task_escrow@,
                    ctx.agent_profile,
                    ctx.client,
                    rating,
                ) == Some(e)
                &&& final(ledger)@ == old(ledger)@
            },
        },
{
    let (client, agent, status) = match ledger.escrow(&ctx.task_escrow) {
        Some(e) => (e.client, e.agent, e.status),
        None => {
            return Err(RegistryError::AccountNotFound);
        },
    };
    if client != ctx.client {
        return Err(RegistryError::Unauthorized);
    }
    let (rating_sum, total_ratings) = match ledger.profile(ctx.agent_profile) {
        Some(p) => (p.rating_sum, p.total_ratings),
        None => {
            return Err(RegistryError::AccountNotFound);
        },
    };
    if agent != ctx.agent_profile {
        return Err(RegistryError::AgentMismatch);
    }
    if rating < 1 || rating > 5 {
        return Err(RegistryError::InvalidRating);
    }
    if status != TaskStatus::Completed {
        return Err(RegistryError::InvalidTaskStatus);
    }
    let (total, sum, score) = match add_rating(rating_sum, total_ratings, rating) {
        Some(t) => t,
        None => {
            return Err(RegistryError::ArithmeticOverflow);
        },
    };
    ledger.set_ratings(ctx.agent_profile, total, sum, score);
    Ok(AgentRated { agent: ctx.agent_profile, rating, new_reputation: score })
}

} // verus!
