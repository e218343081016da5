//! An on-ledger marketplace of service agents: a registry of agent profiles
//! and task escrows that custody a client's funds until the agent completes
//! the task, with an incremental reputation score.
use vstd::prelude::*;

pub mod types;
pub mod validation;
pub mod reputation;
pub mod ledger;
pub mod accounts;
pub mod events;
pub mod registry;
pub mod escrow;
pub mod guarantees;

pub use accounts::{AgentAction, CompleteTask, CreateTask, RateAgent, RegisterAgent, UpdateAgent};
pub use escrow::{accept_task, complete_task, create_task, rate_agent};
pub use events::{
    AgentActivated, AgentDeactivated, AgentRated, AgentRegistered, AgentUpdated, TaskAccepted,
    TaskCompleted, TaskCreated,
};
pub use ledger::Ledger;
pub use registry::{activate_agent, deactivate_agent, register_agent, update_agent};
pub use types::{AgentProfile, AgentStatus, EscrowRef, Pubkey, RegistryError, TaskEscrow, TaskStatus};

verus! {

} // verus!
