use vstd::prelude::*;

verus! {

/// A 32-byte public key identifying a principal, held as four 64-bit words.
#[derive(Clone, Copy, PartialEq, Eq, Structural, Debug)]
pub struct Pubkey(pub u64, pub u64, pub u64, pub u64);

/// Whether an agent currently accepts tasks.
#[derive(Clone, Copy, PartialEq, Eq, Structural, Debug)]
pub enum AgentStatus {
    Active,
    Inactive,
}

/// Lifecycle of a task escrow. `Disputed` exists for interface compatibility;
/// no operation produces or consumes it.
#[derive(Clone, Copy, PartialEq, Eq, Structural, Debug)]
pub enum TaskStatus {
    Funded,
    InProgress,
    Completed,
    Disputed,
}

/// Every way an operation can fail. A failed operation changes nothing.
#[derive(Clone, Copy, PartialEq, Eq, Structural, Debug)]
pub enum RegistryError {
    NameTooLong,
    TooManyCapabilities,
    CapabilityTooLong,
    MetadataUriTooLong,
    InvalidPricing,
    InvalidTaskStatus,
    AgentNotActive,
    InvalidAmount,
    InvalidRating,
    Unauthorized,
    AgentMismatch,
    TaskIdTooLong,
    /// The derived address is already occupied by a record.
    AddressInUse,
    /// No record lives at the referenced address.
    AccountNotFound,
    /// The payer's balance cannot cover a transfer.
    InsufficientFunds,
    /// A balance or counter would exceed 64 bits.
    ArithmeticOverflow,
}

impl RegistryError {
    /// Human-readable description of the error.
    pub fn message(&self) -> (r: &'static str) {
        match self {
            RegistryError::NameTooLong => "Name exceeds maximum length of 64 characters",
            RegistryError::TooManyCapabilities => "Too many capabilities (max 8)",
            RegistryError::CapabilityTooLong => "Capability name exceeds 32 characters",
            RegistryError::MetadataUriTooLong => "Metadata URI exceeds 200 characters",
            RegistryError::InvalidPricing => "Pricing must be greater than 0",
            RegistryError::InvalidTaskStatus => "Invalid task status for this operation",
            RegistryError::AgentNotActive => "Agent is not active",
            RegistryError::InvalidAmount => "Amount must be greater than 0",
            RegistryError::InvalidRating => "Rating must be between 1 and 5",
            RegistryError::Unauthorized => "Unauthorized: signer is not the owner",
            RegistryError::AgentMismatch => "Agent profile does not match escrow",
            RegistryError::TaskIdTooLong => "Task ID exceeds 64 characters",
            RegistryError::AddressInUse => "Address is already in use",
            RegistryError::AccountNotFound => "Account does not exist",
            RegistryError::InsufficientFunds => "Insufficient funds for transfer",
            RegistryError::ArithmeticOverflow => "Arithmetic overflow",
        }
    }
}

/// The mathematical content of an `AgentProfile`.
pub struct ProfileView {
    pub owner: Pubkey,
    pub name: Seq<char>,
    pub capabilities: Seq<Seq<char>>,
    pub pricing_lamports: u64,
    pub status: AgentStatus,
    pub reputation_score: u64,
    pub tasks_completed: u64,
    pub total_ratings: u64,
    pub rating_sum: u64,
    pub metadata_uri: Seq<char>,
}

/// An agent's public profile. Its address is derived from the "agent"
/// namespace and `owner`, so a profile is referred to by its owner's key.
pub struct AgentProfile {
    /// Wallet that owns/controls this agent profile.
    pub owner: Pubkey,
    /// Display name of the agent.
    pub name: String,
    /// List of capability tags (e.g., "trading", "email", "coding").
    pub capabilities: Vec<String>,
    /// Price per task in lamports.
    pub pricing_lamports: u64,
    /// Whether the agent is currently accepting tasks.
    pub status: AgentStatus,
    /// Reputation score (average rating * 100).
    pub reputation_score: u64,
    /// Number of tasks completed.
    pub tasks_completed: u64,
    /// Total number of ratings received.
    pub total_ratings: u64,
    /// Sum of all ratings (for computing average).
    pub rating_sum: u64,
    /// URI pointing to extended metadata JSON.
    pub metadata_uri: String,
}

pub open spec fn strings_view(v: Seq<String>) -> Seq<Seq<char>> {
    v.map_values(|s: String| s@)
}

impl View for AgentProfile {
    type V = ProfileView;

    open spec fn view(&self) -> ProfileView {
        ProfileView {
            owner: self.owner,
            name: self.name@,
            capabilities: strings_view(self.capabilities@),
            pricing_lamports: self.pricing_lamports,
            status: self.status,
            reputation_score: self.reputation_score,
            tasks_completed: self.tasks_completed,
            total_ratings: self.total_ratings,
            rating_sum: self.rating_sum,
            metadata_uri: self.metadata_uri@,
        }
    }
}

/// Where a task escrow lives: its address is derived from the "escrow"
/// namespace, the funding client and the task identifier.
pub struct EscrowRef {
    pub client: Pubkey,
    pub task_id: String,
}

/// The mathematical key of an escrow: client and task identifier.
pub type EscrowKey = (Pubkey, Seq<char>);

impl EscrowRef {
    /// A second reference to the same escrow.
    pub fn copy(&self) -> (r: EscrowRef)
        ensures
            r@ == self@,
    {
        EscrowRef { client: self.client, task_id: self.task_id.clone() }
    }
}

impl View for EscrowRef {
    type V = EscrowKey;

    open spec fn view(&self) -> EscrowKey {
        (self.client, self.task_id@)
    }
}

/// The mathematical content of a `TaskEscrow`.
pub struct EscrowView {
    pub client: Pubkey,
    pub agent: Pubkey,
    pub amount: u64,
    pub status: TaskStatus,
    pub task_id: Seq<char>,
    pub created_at: i64,
}

/// A task escrow record. `agent` names the bound agent profile by the
/// owner key from which the profile's address is derived.
pub struct TaskEscrow {
    /// The client who posted and funded the task.
    pub client: Pubkey,
    /// The agent profile hired for the job.
    pub agent: Pubkey,
    /// Amount of lamports escrowed.
    pub amount: u64,
    /// Current status of the task.
    pub status: TaskStatus,
    /// Unique task identifier.
    pub task_id: String,
    /// Unix timestamp when the task was created.
    pub created_at: i64,
}

impl View for TaskEscrow {
    type V = EscrowView;

    open spec fn view(&self) -> EscrowView {
        EscrowView {
            client: self.client,
            agent: self.agent,
            amount: self.amount,
            status: self.status,
            task_id: self.task_id@,
            created_at: self.created_at,
        }
    }
}

} // verus!
