//! The escrow contract as a mathematical state machine. Each operation is a
//! spec function from a state and the operation's arguments to either a
//! failure or the next state with what the host must do (transfers, events).
use vstd::prelude::*;
use crate::address::{Address, Bytes32};
use crate::escrow_types::{
    AgentJudgeChange, ContractUpgradedEvent, DepositEvent, DisputeOutcome, DisputeRaisedEvent,
    EscrowAbort, EscrowError, EscrowFailure, EscrowInitializedEvent, EscrowStatus, Holder, JobRegistryConfiguredEvent, JobView,
    Milestone, MilestoneStatus, MultisigConfiguredEvent, MultisigSignedEvent, MultisigView,
    OpenDisputeEvent, RefundedEvent, RegistryDisputeSyncedEvent, ReleaseMilestoneEvent, Transfer,
    UpgradeAdminSetEvent,
};

verus! {

/// Seven days, in seconds: how long after a job's deadline a dispute may
/// still be raised.
pub const DISPUTE_GRACE_SECONDS: u64 = 604_800;

/// Thirty days, in seconds: a job's lifetime from its creation.
pub const JOB_LIFETIME_SECONDS: u64 = 2_592_000;

/// The state of the escrow contract: its configuration, the reentrancy
/// lock, the jobs and their multi-signature configurations.
pub struct EscrowState {
    pub admin: Option<Address>,
    pub agent_judge: Option<Address>,
    pub job_registry: Option<Address>,
    pub upgrade_admin: Option<Address>,
    pub locked: bool,
    pub jobs: Map<u64, JobView>,
    pub multisig: Map<u64, MultisigView>,
}

/// Whether `x` fits in an `i128`.
pub open spec fn fits_i128(x: int) -> bool {
    i128::MIN <= x <= i128::MAX
}

/// The sum of the milestones' amounts, added left to right as `i128`s;
/// `None` when a partial sum leaves the `i128` range.
pub open spec fn checked_milestone_sum(ms: Seq<Milestone>) -> Option<int>
    decreases ms.len(),
{
    if ms.len() == 0 {
        Some(0)
    } else {
        match checked_milestone_sum(ms.drop_last()) {
            Some(p) => if fits_i128(p + ms.last().amount) {
                Some(p + ms.last().amount)
            } else {
                None
            },
            None => None,
        }
    }
}

/// `i` is the index of the first pending milestone.
pub open spec fn is_first_pending(ms: Seq<Milestone>, i: int) -> bool {
    &&& 0 <= i < ms.len()
    &&& ms[i].status == MilestoneStatus::Pending
    &&& forall|j: int| 0 <= j < i ==> ms[j].status != MilestoneStatus::Pending
}

/// Whether some milestone is still pending.
pub open spec fn has_pending(ms: Seq<Milestone>) -> bool {
    exists|i: int| 0 <= i < ms.len() && ms[i].status == MilestoneStatus::Pending
}

/// The index of the first pending milestone (meaningful when one exists).
pub open spec fn first_pending(ms: Seq<Milestone>) -> int {
    choose|i: int| is_first_pending(ms, i)
}

/// How many milestones have been released.
pub open spec fn count_released(ms: Seq<Milestone>) -> nat
    decreases ms.len(),
{
    if ms.len() == 0 {
        0
    } else {
        count_released(ms.drop_last()) + if ms.last().status == MilestoneStatus::Released {
            1nat
        } else {
            0nat
        }
    }
}

/// The statuses of the milestones, in order.
pub open spec fn milestone_statuses(ms: Seq<Milestone>) -> Seq<MilestoneStatus> {
    ms.map_values(|m: Milestone| m.status)
}

/// A job that can still be worked on, released, disputed or refunded.
pub open spec fn is_active(st: EscrowStatus) -> bool {
    st == EscrowStatus::Funded || st == EscrowStatus::WorkInProgress
}

/// The phase that a job reaches when a release brings its released amount
/// to `released`.
pub open spec fn status_after_release(released: int, total: int) -> EscrowStatus {
    if released == total {
        EscrowStatus::Completed
    } else {
        EscrowStatus::WorkInProgress
    }
}

/// A transfer out of the escrow to `to`.
pub open spec fn payout(token: Address, to: Address, amount: i128) -> Transfer {
    Transfer { token, from: Holder::Escrow, to: Holder::Party(to), amount }
}

/// A client may take its funds back while no milestone has been released
/// (the freelancer never responded), or once the job's deadline has passed.
pub open spec fn refund_allowed(job: JobView, now: u64) -> bool {
    job.status == EscrowStatus::Funded || now > job.expires_at
}

impl JobView {
    /// The same job with a new status.
    pub open spec fn with_status(self, status: EscrowStatus) -> JobView {
        JobView { status, ..self }
    }
}

impl EscrowState {
    /// The state with job `id` replaced by `job`.
    pub open spec fn with_job(self, id: u64, job: JobView) -> EscrowState {
        EscrowState { jobs: self.jobs.insert(id, job), ..self }
    }

    /// The state with the reentrancy lock taken.
    pub open spec fn locked_with_job(self, id: u64, job: JobView) -> EscrowState {
        EscrowState { jobs: self.jobs.insert(id, job), locked: true, ..self }
    }

    /// The job registry to notify of a dispute on `job_id`, with the event
    /// to publish once it accepted.
    pub open spec fn registry_sync(self, job_id: u64, now: u64) -> Option<RegistryDisputeSyncedEvent> {
        match self.job_registry {
            Some(r) => Some(RegistryDisputeSyncedEvent { job_id, registry_contract: r, synced_at: now }),
            None => None,
        }
    }

    /// Sets the admin and the agent judge, once; they must differ.
    pub open spec fn initialize(self, admin: Address, agent_judge: Address, now: u64) -> Result<(EscrowState, EscrowInitializedEvent), EscrowError> {
        if self.admin is Some {
            Err(EscrowError::AlreadyInitialized)
        } else if admin == agent_judge {
            Err(EscrowError::InvalidInput)
        } else {
            Ok((
                EscrowState { admin: Some(admin), agent_judge: Some(agent_judge), ..self },
                EscrowInitializedEvent { admin, agent_judge, initialized_at: now },
            ))
        }
    }

    /// The admin replaces the agent judge, who must not be the admin.
    pub open spec fn set_agent_judge(self, new_agent_judge: Address, now: u64) -> Result<(EscrowState, AgentJudgeChange), EscrowError> {
        match self.admin {
            None => Err(EscrowError::NotInitialized),
            Some(admin) => if admin == new_agent_judge {
                Err(EscrowError::InvalidInput)
            } else {
                Ok((
                    EscrowState { agent_judge: Some(new_agent_judge), ..self },
                    AgentJudgeChange { admin, new_agent_judge, updated_at: now },
                ))
            },
        }
    }

    /// The admin configures the job registry.
    pub open spec fn set_job_registry(self, job_registry: Address, now: u64) -> Result<(EscrowState, JobRegistryConfiguredEvent), EscrowError> {
        match self.admin {
            None => Err(EscrowError::NotInitialized),
            Some(admin) => Ok((
                EscrowState { job_registry: Some(job_registry), ..self },
                JobRegistryConfiguredEvent { configured_by: admin, registry_contract: job_registry, configured_at: now },
            )),
        }
    }

    /// Sets the upgrade admin, once.
    pub open spec fn init_upgrade_admin(self, admin: Address, now: u64) -> Result<(EscrowState, UpgradeAdminSetEvent), EscrowError> {
        if self.upgrade_admin is Some {
            Err(EscrowError::UpgradeAdminAlreadySet)
        } else {
            Ok((
                EscrowState { upgrade_admin: Some(admin), ..self },
                UpgradeAdminSetEvent { old_admin: None, new_admin: admin, updated_at: now },
            ))
        }
    }

    /// The upgrade admin hands the role on.
    pub open spec fn set_upgrade_admin(self, caller: Address, new_admin: Address, now: u64) -> Result<(EscrowState, UpgradeAdminSetEvent), EscrowError> {
        match self.upgrade_admin {
            None => Err(EscrowError::UpgradeAdminNotSet),
            Some(current) => if caller != current {
                Err(EscrowError::Unauthorized)
            } else {
                Ok((
                    EscrowState { upgrade_admin: Some(new_admin), ..self },
                    UpgradeAdminSetEvent { old_admin: Some(current), new_admin, updated_at: now },
                ))
            },
        }
    }

    /// Whether `caller` may install new code; the state does not change.
    pub open spec fn upgrade(self, caller: Address, new_wasm_hash: Bytes32, now: u64) -> Result<ContractUpgradedEvent, EscrowError> {
        match self.upgrade_admin {
            None => Err(EscrowError::UpgradeAdminNotSet),
            Some(admin) => if caller != admin {
                Err(EscrowError::UpgradeUnauthorized)
            } else {
                Ok(ContractUpgradedEvent { by_admin: caller, new_wasm_hash, upgraded_at: now })
            },
        }
    }

    /// A new job in setup, under an unused id, expiring thirty days on.
    pub open spec fn create_job(self, job_id: u64, client: Address, freelancer: Address, token: Address, now: u64) -> Result<EscrowState, EscrowFailure> {
        if self.jobs.contains_key(job_id) {
            Err(EscrowFailure::Abort(EscrowAbort::JobAlreadyExists))
        } else if now + JOB_LIFETIME_SECONDS > u64::MAX {
            Err(EscrowFailure::Error(EscrowError::ArithmeticError))
        } else {
            Ok(self.with_job(job_id, JobView {
                client,
                freelancer,
                token,
                total_amount: 0,
                released_amount: 0,
                status: EscrowStatus::Setup,
                created_at: now,
                expires_at: (now + JOB_LIFETIME_SECONDS) as u64,
                milestones: Seq::empty(),
                requires_multisig: false,
            }))
        }
    }

    /// A pending milestone of a positive amount added in setup.
    pub open spec fn add_milestone(self, job_id: u64, amount: i128) -> Result<EscrowState, EscrowError> {
        if !self.jobs.contains_key(job_id) {
            Err(EscrowError::JobNotFound)
        } else {
            let job = self.jobs[job_id];
            if job.status != EscrowStatus::Setup {
                Err(EscrowError::InvalidState)
            } else if amount <= 0 {
                Err(EscrowError::InvalidInput)
            } else {
                Ok(self.with_job(job_id, JobView {
                    milestones: job.milestones.push(Milestone { amount, status: MilestoneStatus::Pending }),
                    ..job
                }))
            }
        }
    }

    /// The client funds a job in setup with exactly the sum of its milestones.
    pub open spec fn deposit(self, job_id: u64, amount: i128, now: u64) -> Result<(EscrowState, (Transfer, DepositEvent)), EscrowError> {
        if !self.jobs.contains_key(job_id) {
            Err(EscrowError::JobNotFound)
        } else {
            let job = self.jobs[job_id];
            if job.status != EscrowStatus::Setup {
                Err(EscrowError::InvalidState)
            } else if amount <= 0 {
                Err(EscrowError::InvalidInput)
            } else if job.milestones.len() == 0 {
                Err(EscrowError::InvalidInput)
            } else {
                match checked_milestone_sum(job.milestones) {
                    None => Err(EscrowError::ArithmeticError),
                    Some(sum) => if sum != amount {
                        Err(EscrowError::AmountMismatch)
                    } else if self.locked {
                        Err(EscrowError::ReentrancyDetected)
                    } else {
                        Ok((
                            self.locked_with_job(job_id, JobView {
                                total_amount: amount,
                                status: EscrowStatus::Funded,
                                ..job
                            }),
                            (
                                Transfer { token: job.token, from: Holder::Party(job.client), to: Holder::Escrow, amount },
                                DepositEvent { job_id, amount, deposited_at: now },
                            ),
                        ))
                    },
                }
            }
        }
    }

    /// The job after milestone `idx` is released: the milestone marked
    /// released, its amount added to the released total, and the phase
    /// moved on.
    pub open spec fn job_after_release(job: JobView, idx: int) -> JobView {
        let m = job.milestones[idx];
        let released = job.released_amount + m.amount;
        JobView {
            milestones: job.milestones.update(idx, Milestone { amount: m.amount, status: MilestoneStatus::Released }),
            released_amount: released as i128,
            status: status_after_release(released, job.total_amount as int),
            ..job
        }
    }

    /// The client releases the first pending milestone to the freelancer.
    pub open spec fn release_milestone(self, job_id: u64, caller: Address, now: u64) -> Result<(EscrowState, (Transfer, ReleaseMilestoneEvent)), EscrowError> {
        if !self.jobs.contains_key(job_id) {
            Err(EscrowError::JobNotFound)
        } else {
            let job = self.jobs[job_id];
            if !is_active(job.status) {
                Err(EscrowError::InvalidState)
            } else if caller != job.client {
                Err(EscrowError::Unauthorized)
            } else if !has_pending(job.milestones) {
                Err(EscrowError::NoPendingMilestones)
            } else {
                let idx = first_pending(job.milestones);
                let m = job.milestones[idx];
                if !fits_i128(job.released_amount + m.amount) {
                    Err(EscrowError::ArithmeticError)
                } else if self.locked {
                    Err(EscrowError::ReentrancyDetected)
                } else {
                    Ok((
                        self.locked_with_job(job_id, Self::job_after_release(job, idx)),
                        (
                            payout(job.token, job.freelancer, m.amount),
                            ReleaseMilestoneEvent { job_id, milestone_index: idx as u32, amount: m.amount, released_at: now },
                        ),
                    ))
                }
            }
        }
    }

    /// The client releases the pending milestone at `milestone_index`; a
    /// caller other than the client, an index out of range or a milestone
    /// already released aborts the call.
    pub open spec fn release_funds(self, job_id: u64, caller: Address, milestone_index: u32) -> Result<(EscrowState, Transfer), EscrowFailure> {
        if !self.jobs.contains_key(job_id) {
            Err(EscrowFailure::Error(EscrowError::JobNotFound))
        } else {
            let job = self.jobs[job_id];
            let idx = milestone_index as int;
            if caller != job.client {
                Err(EscrowFailure::Abort(EscrowAbort::OnlyClientCanRelease))
            } else if idx >= job.milestones.len() {
                Err(EscrowFailure::Abort(EscrowAbort::InvalidMilestoneIndex))
            } else if job.milestones[idx].status != MilestoneStatus::Pending {
                Err(EscrowFailure::Abort(EscrowAbort::MilestoneAlreadyReleased))
            } else if !is_active(job.status) {
                Err(EscrowFailure::Error(EscrowError::InvalidState))
            } else if !fits_i128(job.released_amount + job.milestones[idx].amount) {
                Err(EscrowFailure::Error(EscrowError::ArithmeticError))
            } else if self.locked {
                Err(EscrowFailure::Error(EscrowError::ReentrancyDetected))
            } else {
                Ok((
                    self.locked_with_job(job_id, Self::job_after_release(job, idx)),
                    payout(job.token, job.freelancer, job.milestones[idx].amount),
                ))
            }
        }
    }

    /// A party of an active job disputes it.
    pub open spec fn open_dispute(self, job_id: u64, caller: Address, now: u64) -> Result<(EscrowState, DisputeOutcome<OpenDisputeEvent>), EscrowError> {
        if !self.jobs.contains_key(job_id) {
            Err(EscrowError::JobNotFound)
        } else {
            let job = self.jobs[job_id];
            if !is_active(job.status) {
                Err(EscrowError::InvalidState)
            } else if !(caller == job.client || caller == job.freelancer) {
                Err(EscrowError::Unauthorized)
            } else {
                Ok((
                    self.with_job(job_id, job.with_status(EscrowStatus::Disputed)),
                    DisputeOutcome {
                        registry_sync: self.registry_sync(job_id, now),
                        event: OpenDisputeEvent { job_id, initiator: caller, opened_at: now },
                    },
                ))
            }
        }
    }

    /// A party disputes an active job that still holds funds, at most seven days past its deadline.
    pub open spec fn raise_dispute(self, job_id: u64, caller: Address, now: u64) -> Result<(EscrowState, DisputeOutcome<DisputeRaisedEvent>), EscrowFailure> {
        if !self.jobs.contains_key(job_id) {
            Err(EscrowFailure::Error(EscrowError::JobNotFound))
        } else {
            let job = self.jobs[job_id];
            if !(caller == job.client || caller == job.freelancer) {
                Err(EscrowFailure::Abort(EscrowAbort::NotAParty))
            } else if !is_active(job.status) {
                Err(EscrowFailure::Abort(EscrowAbort::DisputeOnInactiveJob))
            } else if job.released_amount >= job.total_amount {
                Err(EscrowFailure::Error(EscrowError::InvalidState))
            } else if job.expires_at + DISPUTE_GRACE_SECONDS > u64::MAX {
                Err(EscrowFailure::Error(EscrowError::ArithmeticError))
            } else if now > job.expires_at + DISPUTE_GRACE_SECONDS {
                Err(EscrowFailure::Error(EscrowError::InvalidState))
            } else {
                Ok((
                    self.with_job(job_id, job.with_status(EscrowStatus::Disputed)),
                    DisputeOutcome {
                        registry_sync: self.registry_sync(job_id, now),
                        event: DisputeRaisedEvent {
                            job_id,
                            initiator: caller,
                            milestones_released: count_released(job.milestones) as u32,
                            milestones_total: job.milestones.len() as u32,
                            raised_at: now,
                        },
                    },
                ))
            }
        }
    }

    /// The agent judge splits what a disputed job holds between freelancer and client.
    pub open spec fn resolve_dispute(self, job_id: u64, payee_amount: i128, payer_amount: i128) -> Result<(EscrowState, Seq<Transfer>), EscrowFailure> {
        match self.agent_judge {
            None => Err(EscrowFailure::Error(EscrowError::NotInitialized)),
            Some(_) => if payee_amount < 0 || payer_amount < 0 {
                Err(EscrowFailure::Error(EscrowError::InvalidInput))
            } else if !self.jobs.contains_key(job_id) {
                Err(EscrowFailure::Error(EscrowError::JobNotFound))
            } else {
                let job = self.jobs[job_id];
                let remaining = job.total_amount - job.released_amount;
                let payout_total = payee_amount + payer_amount;
                if job.status != EscrowStatus::Disputed {
                    Err(EscrowFailure::Abort(EscrowAbort::JobNotDisputed))
                } else if !fits_i128(remaining) {
                    Err(EscrowFailure::Error(EscrowError::ArithmeticError))
                } else if !fits_i128(payout_total) {
                    Err(EscrowFailure::Error(EscrowError::ArithmeticError))
                } else if payout_total > remaining {
                    Err(EscrowFailure::Error(EscrowError::AmountMismatch))
                } else if !fits_i128(job.released_amount + payout_total) {
                    Err(EscrowFailure::Error(EscrowError::ArithmeticError))
                } else if self.locked {
                    Err(EscrowFailure::Error(EscrowError::ReentrancyDetected))
                } else {
                    let to_freelancer = if payee_amount > 0 {
                        seq![payout(job.token, job.freelancer, payee_amount)]
                    } else {
                        Seq::empty()
                    };
                    let to_client = if payer_amount > 0 {
                        seq![payout(job.token, job.client, payer_amount)]
                    } else {
                        Seq::empty()
                    };
                    Ok((
                        self.locked_with_job(job_id, JobView {
                            released_amount: (job.released_amount + payout_total) as i128,
                            status: EscrowStatus::Resolved,
                            ..job
                        }),
                        to_freelancer + to_client,
                    ))
                }
            },
        }
    }

    /// The client takes back what an active job holds, once the freelancer
    /// has never been paid or the deadline has passed.
    pub open spec fn refund(self, job_id: u64, client: Address, now: u64) -> Result<(EscrowState, (Option<Transfer>, RefundedEvent)), EscrowError> {
        if !self.jobs.contains_key(job_id) {
            Err(EscrowError::JobNotFound)
        } else {
            let job = self.jobs[job_id];
            let remaining = job.total_amount - job.released_amount;
            if !is_active(job.status) {
                Err(EscrowError::InvalidState)
            } else if client != job.client {
                Err(EscrowError::Unauthorized)
            } else if !refund_allowed(job, now) {
                Err(EscrowError::InvalidState)
            } else if !fits_i128(remaining) {
                Err(EscrowError::ArithmeticError)
            } else if self.locked {
                Err(EscrowError::ReentrancyDetected)
            } else {
                Ok((
                    self.locked_with_job(job_id, JobView {
                        released_amount: job.total_amount,
                        status: EscrowStatus::Refunded,
                        ..job
                    }),
                    (
                        if remaining > 0 { Some(payout(job.token, job.client, remaining as i128)) } else { None },
                        RefundedEvent { job_id, client, amount: remaining as i128, refunded_at: now },
                    ),
                ))
            }
        }
    }

    /// The client puts a job in setup under multi-signature control.
    pub open spec fn configure_multisig(self, job_id: u64, signers: Seq<Address>, required_signatures: u32, now: u64) -> Result<(EscrowState, MultisigConfiguredEvent), EscrowError> {
        if !self.jobs.contains_key(job_id) {
            Err(EscrowError::JobNotFound)
        } else {
            let job = self.jobs[job_id];
            if job.status != EscrowStatus::Setup {
                Err(EscrowError::InvalidState)
            } else if signers.len() == 0 || required_signatures == 0 {
                Err(EscrowError::InvalidInput)
            } else if required_signatures > signers.len() {
                Err(EscrowError::InvalidInput)
            } else {
                Ok((
                    EscrowState {
                        jobs: self.jobs.insert(job_id, JobView { requires_multisig: true, ..job }),
                        multisig: self.multisig.insert(job_id, MultisigView {
                            signers,
                            required_signatures,
                            current_signatures: Seq::empty(),
                        }),
                        ..self
                    },
                    MultisigConfiguredEvent {
                        job_id,
                        required_signatures,
                        total_signers: signers.len() as u32,
                        configured_at: now,
                    },
                ))
            }
        }
    }

    /// A configured signer signs a multi-signature job, once.
    pub open spec fn sign_multisig(self, job_id: u64, signer: Address, now: u64) -> Result<(EscrowState, MultisigSignedEvent), EscrowError> {
        if !self.jobs.contains_key(job_id) {
            Err(EscrowError::JobNotFound)
        } else if !self.jobs[job_id].requires_multisig {
            Err(EscrowError::InvalidInput)
        } else if !self.multisig.contains_key(job_id) {
            Err(EscrowError::InvalidInput)
        } else {
            let config = self.multisig[job_id];
            if !config.signers.contains(signer) {
                Err(EscrowError::Unauthorized)
            } else if config.current_signatures.contains(signer) {
                Err(EscrowError::AlreadySigned)
            } else {
                let signed = config.current_signatures.push(signer);
                Ok((
                    EscrowState {
                        multisig: self.multisig.insert(job_id, MultisigView { current_signatures: signed, ..config }),
                        ..self
                    },
                    MultisigSignedEvent { job_id, signer, signature_count: signed.len() as u32, signed_at: now },
                ))
            }
        }
    }

    /// The stored job; asking for a missing one aborts.
    pub open spec fn get_job(self, job_id: u64) -> Result<JobView, EscrowFailure> {
        if self.jobs.contains_key(job_id) {
            Ok(self.jobs[job_id])
        } else {
            Err(EscrowFailure::Abort(EscrowAbort::JobNotFound))
        }
    }

    /// What a job holds: its deposit less what it released.
    pub open spec fn escrow_balance(self, job_id: u64) -> Result<i128, EscrowFailure> {
        if !self.jobs.contains_key(job_id) {
            Err(EscrowFailure::Abort(EscrowAbort::JobNotFound))
        } else {
            let job = self.jobs[job_id];
            if fits_i128(job.total_amount - job.released_amount) {
                Ok((job.total_amount - job.released_amount) as i128)
            } else {
                Err(EscrowFailure::Error(EscrowError::ArithmeticError))
            }
        }
    }

    /// Whether a job has the signatures it needs.
    pub open spec fn multisig_ready(self, job_id: u64) -> Result<bool, EscrowError> {
        if !self.jobs.contains_key(job_id) {
            Err(EscrowError::JobNotFound)
        } else if !self.jobs[job_id].requires_multisig {
            Ok(true)
        } else if !self.multisig.contains_key(job_id) {
            Err(EscrowError::InvalidInput)
        } else {
            let c = self.multisig[job_id];
            Ok(c.current_signatures.len() as u32 >= c.required_signatures)
        }
    }

    /// The statuses of a job's milestones.
    pub open spec fn milestone_status(self, job_id: u64) -> Result<Seq<MilestoneStatus>, EscrowError> {
        if self.jobs.contains_key(job_id) {
            Ok(milestone_statuses(self.jobs[job_id].milestones))
        } else {
            Err(EscrowError::JobNotFound)
        }
    }

    /// A job's multi-signature configuration.
    pub open spec fn multisig_config(self, job_id: u64) -> Result<MultisigView, EscrowError> {
        if self.multisig.contains_key(job_id) {
            Ok(self.multisig[job_id])
        } else {
            Err(EscrowError::InvalidInput)
        }
    }
}

} // verus!
