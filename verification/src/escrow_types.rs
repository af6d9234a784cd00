//! Data of the escrow contract: statuses, milestones, jobs, errors, events.
use vstd::prelude::*;
use crate::address::{Address, Bytes32};

verus! {

/// The phase of an escrowed job.
#[derive(Clone, Copy, Debug, PartialEq, Eq, Structural)]
pub enum EscrowStatus {
    Setup,
    Funded,
    WorkInProgress,
    Completed,
    Disputed,
    Resolved,
    Refunded,
}

/// Errors of the escrow contract; `code` gives each one's number.
#[derive(Clone, Copy, Debug, PartialEq, Eq, Structural)]
pub enum EscrowError {
    AlreadyInitialized,
    NotInitialized,
    Unauthorized,
    InvalidInput,
    JobNotFound,
    InvalidState,
    AmountMismatch,
    NoPendingMilestones,
    JobRegistrySyncFailed,
    UpgradeUnauthorized,
    InvalidStateTransition,
    ReentrancyDetected,
    MultisigRequired,
    InsufficientSignatures,
    AlreadySigned,
    ArithmeticError,
    UpgradeAdminAlreadySet,
    UpgradeAdminNotSet,
}

/// The transitions between escrow phases that the protocol permits.
pub open spec fn permitted_transition(from: EscrowStatus, to: EscrowStatus) -> bool {
    match (from, to) {
        (EscrowStatus::Setup, EscrowStatus::Funded) => true,
        (EscrowStatus::Funded, EscrowStatus::WorkInProgress) => true,
        (EscrowStatus::Funded, EscrowStatus::Completed) => true,
        (EscrowStatus::Funded, EscrowStatus::Disputed) => true,
        (EscrowStatus::Funded, EscrowStatus::Refunded) => true,
        (EscrowStatus::WorkInProgress, EscrowStatus::WorkInProgress) => true,
        (EscrowStatus::WorkInProgress, EscrowStatus::Completed) => true,
        (EscrowStatus::WorkInProgress, EscrowStatus::Disputed) => true,
        (EscrowStatus::WorkInProgress, EscrowStatus::Refunded) => true,
        (EscrowStatus::Disputed, EscrowStatus::Resolved) => true,
        _ => false,
    }
}

impl EscrowStatus {
    /// Accepts exactly the permitted transitions; any other is refused
    /// with `InvalidStateTransition`.
    pub fn validate_transition(&self, next: &EscrowStatus) -> (r: Result<(), EscrowError>)
        ensures
            r is Ok <==> permitted_transition(*self, *next),
            r is Err ==> r == Err::<(), EscrowError>(EscrowError::InvalidStateTransition),
    {
        match (self, next) {
            (EscrowStatus::Setup, EscrowStatus::Funded) => Ok(()),
            (EscrowStatus::Funded, EscrowStatus::WorkInProgress) => Ok(()),
            (EscrowStatus::Funded, EscrowStatus::Completed) => Ok(()),
            (EscrowStatus::Funded, EscrowStatus::Disputed) => Ok(()),
            (EscrowStatus::Funded, EscrowStatus::Refunded) => Ok(()),
            (EscrowStatus::WorkInProgress, EscrowStatus::WorkInProgress) => Ok(()),
            (EscrowStatus::WorkInProgress, EscrowStatus::Completed) => Ok(()),
            (EscrowStatus::WorkInProgress, EscrowStatus::Disputed) => Ok(()),
            (EscrowStatus::WorkInProgress, EscrowStatus::Refunded) => Ok(()),
            (EscrowStatus::Disputed, EscrowStatus::Resolved) => Ok(()),
            _ => Err(EscrowError::InvalidStateTransition),
        }
    }
}


impl EscrowError {
    /// The number under which the error leaves the contract.
    pub fn code(&self) -> (c: u32)
        ensures
            c == error_code(*self),
    {
        match self {
            EscrowError::AlreadyInitialized => 1,
            EscrowError::NotInitialized => 2,
            EscrowError::Unauthorized => 3,
            EscrowError::InvalidInput => 4,
            EscrowError::JobNotFound => 5,
            EscrowError::InvalidState => 6,
            EscrowError::AmountMismatch => 7,
            EscrowError::NoPendingMilestones => 8,
            EscrowError::JobRegistrySyncFailed => 9,
            EscrowError::UpgradeUnauthorized => 10,
            EscrowError::InvalidStateTransition => 11,
            EscrowError::ReentrancyDetected => 12,
            EscrowError::MultisigRequired => 13,
            EscrowError::InsufficientSignatures => 14,
            EscrowError::AlreadySigned => 15,
            EscrowError::ArithmeticError => 16,
            EscrowError::UpgradeAdminAlreadySet => 17,
            EscrowError::UpgradeAdminNotSet => 18,
        }
    }
}

/// The number of each escrow error.
pub open spec fn error_code(e: EscrowError) -> u32 {
    match e {
        EscrowError::AlreadyInitialized => 1,
        EscrowError::NotInitialized => 2,
        EscrowError::Unauthorized => 3,
        EscrowError::InvalidInput => 4,
        EscrowError::JobNotFound => 5,
        EscrowError::InvalidState => 6,
        EscrowError::AmountMismatch => 7,
        EscrowError::NoPendingMilestones => 8,
        EscrowError::JobRegistrySyncFailed => 9,
        EscrowError::UpgradeUnauthorized => 10,
        EscrowError::InvalidStateTransition => 11,
        EscrowError::ReentrancyDetected => 12,
        EscrowError::MultisigRequired => 13,
        EscrowError::InsufficientSignatures => 14,
        EscrowError::AlreadySigned => 15,
        EscrowError::ArithmeticError => 16,
        EscrowError::UpgradeAdminAlreadySet => 17,
        EscrowError::UpgradeAdminNotSet => 18,
    }
}

/// Why a call aborts outright, with `message`, instead of returning a
/// numbered error.
#[derive(Clone, Copy, Debug, PartialEq, Eq, Structural)]
pub enum EscrowAbort {
    JobAlreadyExists,
    JobNotFound,
    InvalidMilestoneIndex,
    MilestoneAlreadyReleased,
    OnlyClientCanRelease,
    NotAParty,
    DisputeOnInactiveJob,
    JobNotDisputed,
}

/// The text each abort carries.
pub open spec fn abort_message(a: EscrowAbort) -> Seq<char> {
    match a {
        EscrowAbort::JobAlreadyExists => "job already exists"@,
        EscrowAbort::JobNotFound => "job not found"@,
        EscrowAbort::InvalidMilestoneIndex => "invalid milestone index"@,
        EscrowAbort::MilestoneAlreadyReleased => "milestone already released"@,
        EscrowAbort::OnlyClientCanRelease => "only client can release"@,
        EscrowAbort::NotAParty => "unauthorized: only client or freelancer can raise a dispute"@,
        EscrowAbort::DisputeOnInactiveJob => "dispute cannot be raised: job is not in active state"@,
        EscrowAbort::JobNotDisputed => "job not disputed"@,
    }
}

impl EscrowAbort {
    /// The text the call aborts with.
    pub fn message(&self) -> (m: &'static str)
        ensures
            m@ == abort_message(*self),
    {
        match self {
            EscrowAbort::JobAlreadyExists => "job already exists",
            EscrowAbort::JobNotFound => "job not found",
            EscrowAbort::InvalidMilestoneIndex => "invalid milestone index",
            EscrowAbort::MilestoneAlreadyReleased => "milestone already released",
            EscrowAbort::OnlyClientCanRelease => "only client can release",
            EscrowAbort::NotAParty => "unauthorized: only client or freelancer can raise a dispute",
            EscrowAbort::DisputeOnInactiveJob => "dispute cannot be raised: job is not in active state",
            EscrowAbort::JobNotDisputed => "job not disputed",
        }
    }
}

/// How a call fails: with a numbered error, or by aborting.
#[derive(Clone, Copy, Debug, PartialEq, Eq, Structural)]
pub enum EscrowFailure {
    Error(EscrowError),
    Abort(EscrowAbort),
}

/// Whether a milestone's funds are still held or have been paid out.
#[derive(Clone, Copy, Debug, PartialEq, Eq, Structural)]
pub enum MilestoneStatus {
    Pending,
    Released,
}

/// One payment stage of a job.
#[derive(Clone, Copy, Debug, PartialEq, Eq, Structural)]
pub struct Milestone {
    pub amount: i128,
    pub status: MilestoneStatus,
}

/// An escrowed job as the contract stores it.
#[derive(Clone, Debug)]
pub struct EscrowJob {
    pub client: Address,
    pub freelancer: Address,
    pub token: Address,
    pub total_amount: i128,
    pub released_amount: i128,
    pub status: EscrowStatus,
    pub created_at: u64,
    pub expires_at: u64,
    pub milestones: Vec<Milestone>,
    pub requires_multisig: bool,
}

/// The mathematical value of an `EscrowJob`.
pub struct JobView {
    pub client: Address,
    pub freelancer: Address,
    pub token: Address,
    pub total_amount: i128,
    pub released_amount: i128,
    pub status: EscrowStatus,
    pub created_at: u64,
    pub expires_at: u64,
    pub milestones: Seq<Milestone>,
    pub requires_multisig: bool,
}

impl View for EscrowJob {
    type V = JobView;

    open spec fn view(&self) -> JobView {
        JobView {
            client: self.client,
            freelancer: self.freelancer,
            token: self.token,
            total_amount: self.total_amount,
            released_amount: self.released_amount,
            status: self.status,
            created_at: self.created_at,
            expires_at: self.expires_at,
            milestones: self.milestones@,
            requires_multisig: self.requires_multisig,
        }
    }
}

/// Signers of a job that needs several approvals, and who has signed.
#[derive(Clone, Debug)]
pub struct MultisigConfig {
    pub signers: Vec<Address>,
    pub required_signatures: u32,
    pub current_signatures: Vec<Address>,
}

/// The mathematical value of a `MultisigConfig`.
pub struct MultisigView {
    pub signers: Seq<Address>,
    pub required_signatures: u32,
    pub current_signatures: Seq<Address>,
}

impl View for MultisigConfig {
    type V = MultisigView;

    open spec fn view(&self) -> MultisigView {
        MultisigView {
            signers: self.signers@,
            required_signatures: self.required_signatures,
            current_signatures: self.current_signatures@,
        }
    }
}

/// Who holds tokens before or after a transfer: the escrow contract
/// itself or another party.
#[derive(Clone, Copy, Debug, PartialEq, Eq, Hash, Structural)]
pub enum Holder {
    Escrow,
    Party(Address),
}

/// A token transfer that an operation asks the host to carry out.
#[derive(Clone, Copy, Debug, PartialEq, Eq, Structural)]
pub struct Transfer {
    pub token: Address,
    pub from: Holder,
    pub to: Holder,
    pub amount: i128,
}

/// Published when the contract is initialized.
#[derive(Clone, Copy, Debug, PartialEq, Eq, Structural)]
pub struct EscrowInitializedEvent {
    pub admin: Address,
    pub agent_judge: Address,
    pub initialized_at: u64,
}

/// The declared shape of a judge replacement record: the previous judge,
/// the new judge and the time. What the contract publishes on a
/// replacement is `AgentJudgeChange`, which names the admin instead.
#[derive(Clone, Copy, Debug, PartialEq, Eq, Structural)]
pub struct AgentJudgeUpdatedEvent {
    pub old_agent: Address,
    pub new_agent: Address,
    pub updated_at: u64,
}

/// Published when the admin replaces the agent judge: the admin, the new
/// judge and the time.
#[derive(Clone, Copy, Debug, PartialEq, Eq, Structural)]
pub struct AgentJudgeChange {
    pub admin: Address,
    pub new_agent_judge: Address,
    pub updated_at: u64,
}

/// Published when the upgrade admin is set or rotated.
#[derive(Clone, Copy, Debug, PartialEq, Eq, Structural)]
pub struct UpgradeAdminSetEvent {
    pub old_admin: Option<Address>,
    pub new_admin: Address,
    pub updated_at: u64,
}

/// Published when a dispute is raised with `raise_dispute`.
#[derive(Clone, Copy, Debug, PartialEq, Eq, Structural)]
pub struct DisputeRaisedEvent {
    pub job_id: u64,
    pub initiator: Address,
    pub milestones_released: u32,
    pub milestones_total: u32,
    pub raised_at: u64,
}

/// Published when a job is funded.
#[derive(Clone, Copy, Debug, PartialEq, Eq, Structural)]
pub struct DepositEvent {
    pub job_id: u64,
    pub amount: i128,
    pub deposited_at: u64,
}

/// Published when the next pending milestone is released.
#[derive(Clone, Copy, Debug, PartialEq, Eq, Structural)]
pub struct ReleaseMilestoneEvent {
    pub job_id: u64,
    pub milestone_index: u32,
    pub amount: i128,
    pub released_at: u64,
}

/// Published when a dispute is opened with `open_dispute`.
#[derive(Clone, Copy, Debug, PartialEq, Eq, Structural)]
pub struct OpenDisputeEvent {
    pub job_id: u64,
    pub initiator: Address,
    pub opened_at: u64,
}

/// Published when the admin configures the job registry.
#[derive(Clone, Copy, Debug, PartialEq, Eq, Structural)]
pub struct JobRegistryConfiguredEvent {
    pub configured_by: Address,
    pub registry_contract: Address,
    pub configured_at: u64,
}

/// Published once the job registry has accepted a dispute.
#[derive(Clone, Copy, Debug, PartialEq, Eq, Structural)]
pub struct RegistryDisputeSyncedEvent {
    pub job_id: u64,
    pub registry_contract: Address,
    pub synced_at: u64,
}

/// Published when the contract's code is replaced.
#[derive(Clone, Copy, Debug, PartialEq, Eq, Structural)]
pub struct ContractUpgradedEvent {
    pub by_admin: Address,
    pub new_wasm_hash: Bytes32,
    pub upgraded_at: u64,
}

/// Published when a client takes back what remains of a job's funds.
#[derive(Clone, Copy, Debug, PartialEq, Eq, Structural)]
pub struct RefundedEvent {
    pub job_id: u64,
    pub client: Address,
    pub amount: i128,
    pub refunded_at: u64,
}

/// Published when a job is put under multi-signature control.
#[derive(Clone, Copy, Debug, PartialEq, Eq, Structural)]
pub struct MultisigConfiguredEvent {
    pub job_id: u64,
    pub required_signatures: u32,
    pub total_signers: u32,
    pub configured_at: u64,
}

/// Published when a signer signs a job.
#[derive(Clone, Copy, Debug, PartialEq, Eq, Structural)]
pub struct MultisigSignedEvent {
    pub job_id: u64,
    pub signer: Address,
    pub signature_count: u32,
    pub signed_at: u64,
}

/// What a dispute asks of the host: the job registry to notify, if one is
/// configured (with the event to publish once it accepted), and the
/// dispute's own event.
#[derive(Clone, Copy, Debug)]
pub struct DisputeOutcome<E> {
    pub registry_sync: Option<RegistryDisputeSyncedEvent>,
    pub event: E,
}

} // verus!
