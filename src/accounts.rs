use vstd::prelude::*;

use crate::types::{EscrowRef, Pubkey};

verus! {

/// The accounts of a registration: the signing owner, whose key derives
/// the new profile's address.
pub struct RegisterAgent {
    pub owner: Pubkey,
}

/// The accounts of a profile change: the profile (by the owner key its
/// address derives from) and the signer, who must own it.
pub struct UpdateAgent {
    pub agent_profile: Pubkey,
    pub owner: Pubkey,
}

/// The accounts of a task creation: the hired agent's profile and the
/// signing client. The escrow's address derives from the client and the
/// task identifier.
pub struct CreateTask {
    pub agent_profile: Pubkey,
    pub client: Pubkey,
}

/// The accounts with which an agent accepts a task: the escrow, the
/// agent's profile, and the signer, who must own the profile.
pub struct AgentAction {
    pub task_escrow: EscrowRef,
    pub agent_profile: Pubkey,
    pub agent_owner: Pubkey,
}

/// The accounts with which an agent completes a task; the signer receives
/// the escrowed lamports.
pub struct CompleteTask {
    pub task_escrow: EscrowRef,
    pub agent_profile: Pubkey,
    pub agent_owner: Pubkey,
}

/// The accounts with which a client rates the agent of a completed task.
pub struct RateAgent {
    pub task_escrow: EscrowRef,
    pub agent_profile: Pubkey,
    pub client: Pubkey,
}

} // verus!
