use vstd::prelude::*;

use crate::types::{EscrowRef, Pubkey};

verus! {

/// Notifications emitted after each successful operation, for outside
/// observers. A profile is named by the owner key its address derives from.
pub struct AgentRegistered {
    pub agent: Pubkey,
    pub owner: Pubkey,
    pub name: String,
    pub capabilities: Vec<String>,
    pub pricing_lamports: u64,
    pub metadata_uri: String,
}

pub struct AgentUpdated {
    pub agent: Pubkey,
    pub owner: Pubkey,
}

pub struct AgentDeactivated {
    pub agent: Pubkey,
    pub owner: Pubkey,
}

pub struct AgentActivated {
    pub agent: Pubkey,
    pub owner: Pubkey,
}

pub struct TaskCreated {
    pub escrow: EscrowRef,
    pub client: Pubkey,
    pub agent: Pubkey,
    pub task_id: String,
    pub amount: u64,
}

pub struct TaskAccepted {
    pub escrow: EscrowRef,
    pub agent: Pubkey,
}

pub struct TaskCompleted {
    pub escrow: EscrowRef,
    pub agent: Pubkey,
    pub amount: u64,
}

pub struct AgentRated {
    pub agent: Pubkey,
    pub rating: u8,
    pub new_reputation: u64,
}

} // verus!
