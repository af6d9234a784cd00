//! The escrow contract's operations, verified against `escrow_spec`.
//!
//! The host (the ledger) checks each caller's authorization, carries out
//! the token transfers and registry calls that an operation returns, and
//! publishes its events; the operations below decide everything else.
use vstd::prelude::*;
use std::collections::HashMap;
use crate::address::{Address, Bytes32};
use crate::escrow_spec::{
    checked_milestone_sum, count_released, first_pending, has_pending, is_first_pending,
    milestone_statuses, payout, EscrowState, DISPUTE_GRACE_SECONDS, JOB_LIFETIME_SECONDS,
};
use crate::escrow_types::{
    AgentJudgeChange, ContractUpgradedEvent, DepositEvent, DisputeOutcome, DisputeRaisedEvent,
    EscrowAbort, EscrowError, EscrowFailure, EscrowInitializedEvent, EscrowJob, EscrowStatus, Holder,
    JobRegistryConfiguredEvent, JobView, Milestone, MilestoneStatus, MultisigConfig,
    MultisigConfiguredEvent, MultisigSignedEvent, MultisigView, OpenDisputeEvent, RefundedEvent,
    RegistryDisputeSyncedEvent, ReleaseMilestoneEvent, Transfer, UpgradeAdminSetEvent,
};

verus! {

broadcast use vstd::std_specs::hash::group_hash_axioms;

/// The escrow contract's stored state. `jobs` and `multisig` hold the
/// entries of the jobs that an operation reads; the host may load only
/// those.
pub struct EscrowContract {
    pub admin: Option<Address>,
    pub agent_judge: Option<Address>,
    pub job_registry: Option<Address>,
    pub upgrade_admin: Option<Address>,
    pub locked: bool,
    pub jobs: HashMap<u64, EscrowJob>,
    pub multisig: HashMap<u64, MultisigConfig>,
}

/// The views of stored jobs.
pub open spec fn job_views(m: Map<u64, EscrowJob>) -> Map<u64, JobView> {
    Map::new(|k: u64| m.contains_key(k), |k: u64| m[k]@)
}

/// The views of stored multi-signature configurations.
pub open spec fn multisig_views(m: Map<u64, MultisigConfig>) -> Map<u64, MultisigView> {
    Map::new(|k: u64| m.contains_key(k), |k: u64| m[k]@)
}

impl View for EscrowContract {
    type V = EscrowState;

    open spec fn view(&self) -> EscrowState {
        EscrowState {
            admin: self.admin,
            agent_judge: self.agent_judge,
            job_registry: self.job_registry,
            upgrade_admin: self.upgrade_admin,
            locked: self.locked,
            jobs: job_views(self.jobs@),
            multisig: multisig_views(self.multisig@),
        }
    }
}

proof fn lemma_job_views_insert(m: Map<u64, EscrowJob>, k: u64, j: EscrowJob)
    ensures
        job_views(m.insert(k, j)) == job_views(m).insert(k, j@),
{
    assert(job_views(m.insert(k, j)) =~= job_views(m).insert(k, j@));
}

proof fn lemma_multisig_views_insert(m: Map<u64, MultisigConfig>, k: u64, c: MultisigConfig)
    ensures
        multisig_views(m.insert(k, c)) == multisig_views(m).insert(k, c@),
{
    assert(multisig_views(m.insert(k, c)) =~= multisig_views(m).insert(k, c@));
}

/// Adds the milestones' amounts left to right, failing when a partial sum
/// leaves the `i128` range.
fn milestone_total(ms: &Vec<Milestone>) -> (r: Option<i128>)
    ensures
        match r {
            Some(s) => checked_milestone_sum(ms@) == Some(s as int),
            None => checked_milestone_sum(ms@) is None,
        },
{
    let mut total: i128 = 0;
    let mut i: usize = 0;
    while i < ms.len()
        invariant
            i <= ms.len(),
            checked_milestone_sum(ms@.take(i as int)) == Some(total as int),
        decreases ms.len() - i,
    {
        proof {
            assert(ms@.take(i as int + 1).drop_last() =~= ms@.take(i as int));
        }
        match total.checked_add(ms[i].amount) {
            Some(t) => {
                total = t;
            },
            None => {
                proof {
                    lemma_sum_none_extends(ms@, i as int + 1);
                }
                return None;
            },
        }
        i = i + 1;
    }
    proof {
        assert(ms@.take(ms.len() as int) =~= ms@);
    }
    Some(total)
}

/// Once a prefix's sum overflows, the whole sum does.
proof fn lemma_sum_none_extends(ms: Seq<Milestone>, n: int)
    requires
        0 <= n <= ms.len(),
        checked_milestone_sum(ms.take(n)) is None,
    ensures
        checked_milestone_sum(ms) is None,
    decreases ms.len() - n,
{
    if n == ms.len() {
        assert(ms.take(n) =~= ms);
    } else {
        assert(ms.take(n + 1).drop_last() =~= ms.take(n));
        lemma_sum_none_extends(ms, n + 1);
    }
}

/// The index of the first pending milestone, if any.
fn find_first_pending(ms: &Vec<Milestone>) -> (r: Option<usize>)
    ensures
        match r {
            Some(i) => is_first_pending(ms@, i as int),
            None => !has_pending(ms@),
        },
{
    let mut i: usize = 0;
    while i < ms.len()
        invariant
            i <= ms.len(),
            forall|j: int| 0 <= j < i ==> ms@[j].status != MilestoneStatus::Pending,
        decreases ms.len() - i,
    {
        if ms[i].status == MilestoneStatus::Pending {
            return Some(i);
        }
        i = i + 1;
    }
    None
}

/// There is only one first pending milestone.
proof fn lemma_first_pending_unique(ms: Seq<Milestone>, i: int)
    requires
        is_first_pending(ms, i),
    ensures
        has_pending(ms),
        first_pending(ms) == i,
{
    let k = first_pending(ms);
    assert(is_first_pending(ms, k));
    if k < i {
        assert(ms[k].status != MilestoneStatus::Pending);
    } else if i < k {
        assert(ms[i].status != MilestoneStatus::Pending);
    }
}

/// Counts the released milestones.
fn released_count(ms: &Vec<Milestone>) -> (r: u64)
    requires
        ms.len() <= u64::MAX,
    ensures
        r == count_released(ms@),
{
    let mut n: u64 = 0;
    let mut i: usize = 0;
    while i < ms.len()
        invariant
            i <= ms.len(),
            ms.len() <= u64::MAX,
            n == count_released(ms@.take(i as int)),
            n <= i,
        decreases ms.len() - i,
    {
        proof {
            assert(ms@.take(i as int + 1).drop_last() =~= ms@.take(i as int));
        }
        if ms[i].status == MilestoneStatus::Released {
            n = n + 1;
        }
        i = i + 1;
    }
    proof {
        assert(ms@.take(ms.len() as int) =~= ms@);
    }
    n
}

/// A copy of a job.
fn copy_job(job: &EscrowJob) -> (r: EscrowJob)
    ensures
        r@ == job@,
{
    let mut milestones: Vec<Milestone> = Vec::new();
    let mut i: usize = 0;
    while i < job.milestones.len()
        invariant
            i <= job.milestones.len(),
            milestones@ == job.milestones@.take(i as int),
        decreases job.milestones.len() - i,
    {
        milestones.push(job.milestones[i]);
        proof {
            assert(milestones@ =~= job.milestones@.take(i as int + 1));
        }
        i = i + 1;
    }
    proof {
        assert(milestones@ =~= job.milestones@);
    }
    EscrowJob {
        client: job.client,
        freelancer: job.freelancer,
        token: job.token,
        total_amount: job.total_amount,
        released_amount: job.released_amount,
        status: job.status,
        created_at: job.created_at,
        expires_at: job.expires_at,
        milestones,
        requires_multisig: job.requires_multisig,
    }
}

/// A copy of a list of addresses.
fn copy_addresses(v: &Vec<Address>) -> (r: Vec<Address>)
    ensures
        r@ == v@,
{
    let mut out: Vec<Address> = Vec::new();
    let mut i: usize = 0;
    while i < v.len()
        invariant
            i <= v.len(),
            out@ == v@.take(i as int),
        decreases v.len() - i,
    {
        out.push(v[i]);
        proof {
            assert(out@ =~= v@.take(i as int + 1));
        }
        i = i + 1;
    }
    proof {
        assert(out@ =~= v@);
    }
    out
}

/// Whether `a` occurs in `v`.
fn contains_address(v: &Vec<Address>, a: Address) -> (r: bool)
    ensures
        r == v@.contains(a),
{
    let mut i: usize = 0;
    while i < v.len()
        invariant
            i <= v.len(),
            forall|j: int| 0 <= j < i ==> v@[j] != a,
        decreases v.len() - i,
    {
        if v[i] == a {
            proof {
                assert(v@[i as int] == a);
            }
            return true;
        }
        i = i + 1;
    }
    false
}

impl EscrowContract {
    /// An escrow contract with nothing stored.
    pub fn new() -> (c: EscrowContract)
        ensures
            c@.admin is None,
            c@.agent_judge is None,
            c@.job_registry is None,
            c@.upgrade_admin is None,
            !c@.locked,
            c@.jobs == Map::<u64, JobView>::empty(),
            c@.multisig == Map::<u64, MultisigView>::empty(),
    {
        let c = EscrowContract {
            admin: None,
            agent_judge: None,
            job_registry: None,
            upgrade_admin: None,
            locked: false,
            jobs: HashMap::new(),
            multisig: HashMap::new(),
        };
        proof {
            assert(c@.jobs =~= Map::<u64, JobView>::empty());
            assert(c@.multisig =~= Map::<u64, MultisigView>::empty());
        }
        c
    }

    /// The version of the contract's code.
    pub fn version() -> (v: u32)
        ensures
            v == 1,
    {
        1
    }

    /// Stores `job` under `job_id`.
    fn put_job(&mut self, job_id: u64, job: EscrowJob)
        ensures
            final(self)@ == old(self)@.with_job(job_id, job@),
    {
        let ghost before = self.jobs@;
        self.jobs.insert(job_id, job);
        proof {
            lemma_job_views_insert(before, job_id, job);
        }
    }

    /// Client deposits the job's total and the job becomes funded. The
    /// amount must be positive and equal to the sum of the milestones. The
    /// reentrancy lock is held until `release_guard`, while the host moves
    /// the tokens from the client to the escrow.
    pub fn deposit(&mut self, job_id: u64, amount: i128, now: u64) -> (r: Result<(Transfer, DepositEvent), EscrowError>)
        ensures
            match r {
                Ok(out) => old(self)@.deposit(job_id, amount, now) == Ok::<(EscrowState, (Transfer, DepositEvent)), EscrowError>((final(self)@, out)),
                Err(e) => old(self)@.deposit(job_id, amount, now) == Err::<(EscrowState, (Transfer, DepositEvent)), EscrowError>(e)
                    && final(self)@ == old(self)@,
            },
    {
        let mut job = match self.jobs.get(&job_id) {
            None => {
                return Err(EscrowError::JobNotFound);
            },
            Some(job) => {
                if job.status != EscrowStatus::Setup {
                    return Err(EscrowError::InvalidState);
                }
                if amount <= 0 {
                    return Err(EscrowError::InvalidInput);
                }
                if job.milestones.len() == 0 {
                    return Err(EscrowError::InvalidInput);
                }
                match milestone_total(&job.milestones) {
                    None => {
                        return Err(EscrowError::ArithmeticError);
                    },
                    Some(sum) => {
                        if sum != amount {
                            return Err(EscrowError::AmountMismatch);
                        }
                    },
                }
                copy_job(job)
            },
        };
        if self.locked {
            return Err(EscrowError::ReentrancyDetected);
        }
        let token = job.token;
        let client = job.client;
        job.total_amount = amount;
        job.status = EscrowStatus::Funded;
        self.put_job(job_id, job);
        self.locked = true;
        Ok((
            Transfer { token, from: Holder::Party(client), to: Holder::Escrow, amount },
            DepositEvent { job_id, amount, deposited_at: now },
        ))
    }

    /// Gives the reentrancy lock back once the host has carried out an
    /// operation's transfers.
    pub fn release_guard(&mut self)
        ensures
            final(self)@ == (EscrowState { locked: false, ..old(self)@ }),
    {
        self.locked = false;
    }

    /// Client approves the next pending milestone: it is released to the
    /// freelancer, and the job is completed when everything deposited has
    /// been released. Holds the reentrancy lock until `release_guard`.
    pub fn release_milestone(&mut self, job_id: u64, caller: Address, now: u64) -> (r: Result<(Transfer, ReleaseMilestoneEvent), EscrowError>)
        ensures
            match r {
                Ok(out) => old(self)@.release_milestone(job_id, caller, now) == Ok::<(EscrowState, (Transfer, ReleaseMilestoneEvent)), EscrowError>((final(self)@, out)),
                Err(e) => old(self)@.release_milestone(job_id, caller, now) == Err::<(EscrowState, (Transfer, ReleaseMilestoneEvent)), EscrowError>(e)
                    && final(self)@ == old(self)@,
            },
    {
        let (mut job, idx) = match self.jobs.get(&job_id) {
            None => {
                return Err(EscrowError::JobNotFound);
            },
            Some(job) => {
                if !(job.status == EscrowStatus::Funded || job.status == EscrowStatus::WorkInProgress) {
                    return Err(EscrowError::InvalidState);
                }
                if caller != job.client {
                    return Err(EscrowError::Unauthorized);
                }
                let idx = match find_first_pending(&job.milestones) {
                    None => {
                        return Err(EscrowError::NoPendingMilestones);
                    },
                    Some(i) => i,
                };
                proof {
                    lemma_first_pending_unique(job.milestones@, idx as int);
                }
                if job.released_amount.checked_add(job.milestones[idx].amount).is_none() {
                    return Err(EscrowError::ArithmeticError);
                }
                (copy_job(job), idx)
            },
        };
        if self.locked {
            return Err(EscrowError::ReentrancyDetected);
        }
        let ghost before = job@;
        let m = job.milestones[idx];
        let released = job.released_amount + m.amount;
        job.milestones.set(idx, Milestone { amount: m.amount, status: MilestoneStatus::Released });
        job.released_amount = released;
        job.status = if released == job.total_amount {
            EscrowStatus::Completed
        } else {
            EscrowStatus::WorkInProgress
        };
        proof {
            assert(job@ == EscrowState::job_after_release(before, idx as int));
        }
        let token = job.token;
        let freelancer = job.freelancer;
        self.put_job(job_id, job);
        self.locked = true;
        Ok((
            Transfer { token, from: Holder::Escrow, to: Holder::Party(freelancer), amount: m.amount },
            ReleaseMilestoneEvent { job_id, milestone_index: idx as u32, amount: m.amount, released_at: now },
        ))
    }

    /// Client releases the milestone at `milestone_index` (counted from
    /// zero), which must still be pending; a caller other than the client,
    /// an index out of range or a milestone already released aborts. Holds the reentrancy lock until
    /// `release_guard`.
    pub fn release_funds(&mut self, job_id: u64, caller: Address, milestone_index: u32) -> (r: Result<Transfer, EscrowFailure>)
        ensures
            match r {
                Ok(out) => old(self)@.release_funds(job_id, caller, milestone_index) == Ok::<(EscrowState, Transfer), EscrowFailure>((final(self)@, out)),
                Err(e) => old(self)@.release_funds(job_id, caller, milestone_index) == Err::<(EscrowState, Transfer), EscrowFailure>(e)
                    && final(self)@ == old(self)@,
            },
    {
        let mut job = match self.jobs.get(&job_id) {
            None => {
                return Err(EscrowFailure::Error(EscrowError::JobNotFound));
            },
            Some(job) => {
                if caller != job.client {
                    return Err(EscrowFailure::Abort(EscrowAbort::OnlyClientCanRelease));
                }
                if milestone_index as usize >= job.milestones.len() {
                    return Err(EscrowFailure::Abort(EscrowAbort::InvalidMilestoneIndex));
                }
                if job.milestones[milestone_index as usize].status != MilestoneStatus::Pending {
                    return Err(EscrowFailure::Abort(EscrowAbort::MilestoneAlreadyReleased));
                }
                if !(job.status == EscrowStatus::Funded || job.status == EscrowStatus::WorkInProgress) {
                    return Err(EscrowFailure::Error(EscrowError::InvalidState));
                }
                if job.released_amount.checked_add(job.milestones[milestone_index as usize].amount).is_none() {
                    return Err(EscrowFailure::Error(EscrowError::ArithmeticError));
                }
                copy_job(job)
            },
        };
        if self.locked {
            return Err(EscrowFailure::Error(EscrowError::ReentrancyDetected));
        }
        let idx = milestone_index as usize;
        let ghost before = job@;
        let m = job.milestones[idx];
        let released = job.released_amount + m.amount;
        job.milestones.set(idx, Milestone { amount: m.amount, status: MilestoneStatus::Released });
        job.released_amount = released;
        job.status = if released == job.total_amount {
            EscrowStatus::Completed
        } else {
            EscrowStatus::WorkInProgress
        };
        proof {
            assert(job@ == EscrowState::job_after_release(before, idx as int));
        }
        let token = job.token;
        let freelancer = job.freelancer;
        self.put_job(job_id, job);
        self.locked = true;
        Ok(Transfer { token, from: Holder::Escrow, to: Holder::Party(freelancer), amount: m.amount })
    }

    /// The job registry to notify of a dispute, with the event to publish
    /// once it accepted.
    fn registry_sync(&self, job_id: u64, now: u64) -> (r: Option<RegistryDisputeSyncedEvent>)
        ensures
            r == self@.registry_sync(job_id, now),
    {
        match self.job_registry {
            Some(registry_contract) => Some(RegistryDisputeSyncedEvent { job_id, registry_contract, synced_at: now }),
            None => None,
        }
    }

    /// The client or the freelancer opens a dispute on an active job,
    /// locking its remaining funds. When a job registry is configured the
    /// host must have it mark the job disputed; if that call fails, the
    /// operation fails with `JobRegistrySyncFailed` and nothing is kept.
    pub fn open_dispute(&mut self, job_id: u64, caller: Address, now: u64) -> (r: Result<DisputeOutcome<OpenDisputeEvent>, EscrowError>)
        ensures
            match r {
                Ok(out) => old(self)@.open_dispute(job_id, caller, now) == Ok::<(EscrowState, DisputeOutcome<OpenDisputeEvent>), EscrowError>((final(self)@, out)),
                Err(e) => old(self)@.open_dispute(job_id, caller, now) == Err::<(EscrowState, DisputeOutcome<OpenDisputeEvent>), EscrowError>(e)
                    && final(self)@ == old(self)@,
            },
    {
        let mut job = match self.jobs.get(&job_id) {
            None => {
                return Err(EscrowError::JobNotFound);
            },
            Some(job) => {
                if !(job.status == EscrowStatus::Funded || job.status == EscrowStatus::WorkInProgress) {
                    return Err(EscrowError::InvalidState);
                }
                if !(caller == job.client || caller == job.freelancer) {
                    return Err(EscrowError::Unauthorized);
                }
                copy_job(job)
            },
        };
        job.status = EscrowStatus::Disputed;
        let registry_sync = self.registry_sync(job_id, now);
        self.put_job(job_id, job);
        Ok(DisputeOutcome {
            registry_sync,
            event: OpenDisputeEvent { job_id, initiator: caller, opened_at: now },
        })
    }

    /// The client or the freelancer raises a dispute: the job must be
    /// active, not fully paid out, and at most seven days past its
    /// deadline. The registry is notified as for `open_dispute`.
    pub fn raise_dispute(&mut self, job_id: u64, caller: Address, now: u64) -> (r: Result<DisputeOutcome<DisputeRaisedEvent>, EscrowFailure>)
        ensures
            match r {
                Ok(out) => old(self)@.raise_dispute(job_id, caller, now) == Ok::<(EscrowState, DisputeOutcome<DisputeRaisedEvent>), EscrowFailure>((final(self)@, out)),
                Err(e) => old(self)@.raise_dispute(job_id, caller, now) == Err::<(EscrowState, DisputeOutcome<DisputeRaisedEvent>), EscrowFailure>(e)
                    && final(self)@ == old(self)@,
            },
    {
        let mut job = match self.jobs.get(&job_id) {
            None => {
                return Err(EscrowFailure::Error(EscrowError::JobNotFound));
            },
            Some(job) => {
                if !(caller == job.client || caller == job.freelancer) {
                    return Err(EscrowFailure::Abort(EscrowAbort::NotAParty));
                }
                if !(job.status == EscrowStatus::Funded || job.status == EscrowStatus::WorkInProgress) {
                    return Err(EscrowFailure::Abort(EscrowAbort::DisputeOnInactiveJob));
                }
                if job.released_amount >= job.total_amount {
                    return Err(EscrowFailure::Error(EscrowError::InvalidState));
                }
                let threshold = match job.expires_at.checked_add(DISPUTE_GRACE_SECONDS) {
                    None => {
                        return Err(EscrowFailure::Error(EscrowError::ArithmeticError));
                    },
                    Some(t) => t,
                };
                if now > threshold {
                    return Err(EscrowFailure::Error(EscrowError::InvalidState));
                }
                copy_job(job)
            },
        };
        let released = released_count(&job.milestones);
        let total = job.milestones.len();
        job.status = EscrowStatus::Disputed;
        let registry_sync = self.registry_sync(job_id, now);
        self.put_job(job_id, job);
        Ok(DisputeOutcome {
            registry_sync,
            event: DisputeRaisedEvent {
                job_id,
                initiator: caller,
                milestones_released: released as u32,
                milestones_total: total as u32,
                raised_at: now,
            },
        })
    }

    /// The agent judge settles a dispute: `payee_amount` goes to the
    /// freelancer and `payer_amount` back to the client, together at most
    /// what the job still holds. Holds the reentrancy lock until
    /// `release_guard`.
    pub fn resolve_dispute(&mut self, job_id: u64, payee_amount: i128, payer_amount: i128) -> (r: Result<Vec<Transfer>, EscrowFailure>)
        ensures
            match r {
                Ok(out) => old(self)@.resolve_dispute(job_id, payee_amount, payer_amount) == Ok::<(EscrowState, Seq<Transfer>), EscrowFailure>((final(self)@, out@)),
                Err(e) => old(self)@.resolve_dispute(job_id, payee_amount, payer_amount) == Err::<(EscrowState, Seq<Transfer>), EscrowFailure>(e)
                    && final(self)@ == old(self)@,
            },
    {
        if self.agent_judge.is_none() {
            return Err(EscrowFailure::Error(EscrowError::NotInitialized));
        }
        if payee_amount < 0 || payer_amount < 0 {
            return Err(EscrowFailure::Error(EscrowError::InvalidInput));
        }
        let (mut job, payout_total) = match self.jobs.get(&job_id) {
            None => {
                return Err(EscrowFailure::Error(EscrowError::JobNotFound));
            },
            Some(job) => {
                if job.status != EscrowStatus::Disputed {
                    return Err(EscrowFailure::Abort(EscrowAbort::JobNotDisputed));
                }
                let remaining = match job.total_amount.checked_sub(job.released_amount) {
                    None => {
                        return Err(EscrowFailure::Error(EscrowError::ArithmeticError));
                    },
                    Some(x) => x,
                };
                let payout_total = match payee_amount.checked_add(payer_amount) {
                    None => {
                        return Err(EscrowFailure::Error(EscrowError::ArithmeticError));
                    },
                    Some(x) => x,
                };
                if payout_total > remaining {
                    return Err(EscrowFailure::Error(EscrowError::AmountMismatch));
                }
                if job.released_amount.checked_add(payout_total).is_none() {
                    return Err(EscrowFailure::Error(EscrowError::ArithmeticError));
                }
                (copy_job(job), payout_total)
            },
        };
        if self.locked {
            return Err(EscrowFailure::Error(EscrowError::ReentrancyDetected));
        }
        job.released_amount = job.released_amount + payout_total;
        job.status = EscrowStatus::Resolved;
        let token = job.token;
        let freelancer = job.freelancer;
        let client = job.client;
        self.put_job(job_id, job);
        self.locked = true;
        let mut transfers: Vec<Transfer> = Vec::new();
        if payee_amount > 0 {
            transfers.push(Transfer { token, from: Holder::Escrow, to: Holder::Party(freelancer), amount: payee_amount });
        }
        if payer_amount > 0 {
            transfers.push(Transfer { token, from: Holder::Escrow, to: Holder::Party(client), amount: payer_amount });
        }
        proof {
            let to_freelancer = if payee_amount > 0 {
                seq![payout(token, freelancer, payee_amount)]
            } else {
                Seq::<Transfer>::empty()
            };
            let to_client = if payer_amount > 0 {
                seq![payout(token, client, payer_amount)]
            } else {
                Seq::<Transfer>::empty()
            };
            assert(transfers@ =~= to_freelancer + to_client);
        }
        Ok(transfers)
    }

    /// The client takes back what remains of an active job's funds, if the
    /// freelancer never responded (no milestone released yet) or the
    /// deadline has passed; the job becomes refunded. Holds the reentrancy
    /// lock until `release_guard`.
    pub fn refund(&mut self, job_id: u64, client: Address, now: u64) -> (r: Result<(Option<Transfer>, RefundedEvent), EscrowError>)
        ensures
            match r {
                Ok(out) => old(self)@.refund(job_id, client, now) == Ok::<(EscrowState, (Option<Transfer>, RefundedEvent)), EscrowError>((final(self)@, out)),
                Err(e) => old(self)@.refund(job_id, client, now) == Err::<(EscrowState, (Option<Transfer>, RefundedEvent)), EscrowError>(e)
                    && final(self)@ == old(self)@,
            },
    {
        let (mut job, remaining) = match self.jobs.get(&job_id) {
            None => {
                return Err(EscrowError::JobNotFound);
            },
            Some(job) => {
                if !(job.status == EscrowStatus::Funded || job.status == EscrowStatus::WorkInProgress) {
                    return Err(EscrowError::InvalidState);
                }
                if client != job.client {
                    return Err(EscrowError::Unauthorized);
                }
                if !(job.status == EscrowStatus::Funded || now > job.expires_at) {
                    return Err(EscrowError::InvalidState);
                }
                let remaining = match job.total_amount.checked_sub(job.released_amount) {
                    None => {
                        return Err(EscrowError::ArithmeticError);
                    },
                    Some(x) => x,
                };
                (copy_job(job), remaining)
            },
        };
        if self.locked {
            return Err(EscrowError::ReentrancyDetected);
        }
        job.released_amount = job.total_amount;
        job.status = EscrowStatus::Refunded;
        let token = job.token;
        self.put_job(job_id, job);
        self.locked = true;
        let transfer = if remaining > 0 {
            Some(Transfer { token, from: Holder::Escrow, to: Holder::Party(client), amount: remaining })
        } else {
            None
        };
        Ok((transfer, RefundedEvent { job_id, client, amount: remaining, refunded_at: now }))
    }

    /// Sets the admin and the agent judge, once; the two must differ.
    pub fn initialize(&mut self, admin: Address, agent_judge: Address, now: u64) -> (r: Result<EscrowInitializedEvent, EscrowError>)
        ensures
            match r {
                Ok(out) => old(self)@.initialize(admin, agent_judge, now) == Ok::<(EscrowState, EscrowInitializedEvent), EscrowError>((final(self)@, out)),
                Err(e) => old(self)@.initialize(admin, agent_judge, now) == Err::<(EscrowState, EscrowInitializedEvent), EscrowError>(e)
                    && final(self)@ == old(self)@,
            },
    {
        if self.admin.is_some() {
            return Err(EscrowError::AlreadyInitialized);
        }
        if admin == agent_judge {
            return Err(EscrowError::InvalidInput);
        }
        self.admin = Some(admin);
        self.agent_judge = Some(agent_judge);
        Ok(EscrowInitializedEvent { admin, agent_judge, initialized_at: now })
    }

    /// The admin replaces the agent judge, who must not be the admin.
    pub fn set_agent_judge(&mut self, new_agent_judge: Address, now: u64) -> (r: Result<AgentJudgeChange, EscrowError>)
        ensures
            match r {
                Ok(out) => old(self)@.set_agent_judge(new_agent_judge, now) == Ok::<(EscrowState, AgentJudgeChange), EscrowError>((final(self)@, out)),
                Err(e) => old(self)@.set_agent_judge(new_agent_judge, now) == Err::<(EscrowState, AgentJudgeChange), EscrowError>(e)
                    && final(self)@ == old(self)@,
            },
    {
        let admin = match self.admin {
            None => {
                return Err(EscrowError::NotInitialized);
            },
            Some(a) => a,
        };
        if admin == new_agent_judge {
            return Err(EscrowError::InvalidInput);
        }
        self.agent_judge = Some(new_agent_judge);
        Ok(AgentJudgeChange { admin, new_agent_judge, updated_at: now })
    }

    /// The admin configures the job registry that disputes are reported to.
    pub fn set_job_registry(&mut self, job_registry: Address, now: u64) -> (r: Result<JobRegistryConfiguredEvent, EscrowError>)
        ensures
            match r {
                Ok(out) => old(self)@.set_job_registry(job_registry, now) == Ok::<(EscrowState, JobRegistryConfiguredEvent), EscrowError>((final(self)@, out)),
                Err(e) => old(self)@.set_job_registry(job_registry, now) == Err::<(EscrowState, JobRegistryConfiguredEvent), EscrowError>(e)
                    && final(self)@ == old(self)@,
            },
    {
        let admin = match self.admin {
            None => {
                return Err(EscrowError::NotInitialized);
            },
            Some(a) => a,
        };
        self.job_registry = Some(job_registry);
        Ok(JobRegistryConfiguredEvent { configured_by: admin, registry_contract: job_registry, configured_at: now })
    }

    /// The admin, once the contract is initialized.
    pub fn get_admin(&self) -> (r: Result<Address, EscrowError>)
        ensures
            match self@.admin {
                Some(a) => r == Ok::<Address, EscrowError>(a),
                None => r == Err::<Address, EscrowError>(EscrowError::NotInitialized),
            },
    {
        match self.admin {
            Some(a) => Ok(a),
            None => Err(EscrowError::NotInitialized),
        }
    }

    /// The agent judge, once the contract is initialized.
    pub fn get_agent_judge(&self) -> (r: Result<Address, EscrowError>)
        ensures
            match self@.agent_judge {
                Some(a) => r == Ok::<Address, EscrowError>(a),
                None => r == Err::<Address, EscrowError>(EscrowError::NotInitialized),
            },
    {
        match self.agent_judge {
            Some(a) => Ok(a),
            None => Err(EscrowError::NotInitialized),
        }
    }

    /// The configured job registry, if any.
    pub fn get_job_registry(&self) -> (r: Option<Address>)
        ensures
            r == self@.job_registry,
    {
        self.job_registry
    }

    /// Sets the upgrade admin, once.
    pub fn init_upgrade_admin(&mut self, admin: Address, now: u64) -> (r: Result<UpgradeAdminSetEvent, EscrowError>)
        ensures
            match r {
                Ok(out) => old(self)@.init_upgrade_admin(admin, now) == Ok::<(EscrowState, UpgradeAdminSetEvent), EscrowError>((final(self)@, out)),
                Err(e) => old(self)@.init_upgrade_admin(admin, now) == Err::<(EscrowState, UpgradeAdminSetEvent), EscrowError>(e)
                    && final(self)@ == old(self)@,
            },
    {
        if self.upgrade_admin.is_some() {
            return Err(EscrowError::UpgradeAdminAlreadySet);
        }
        self.upgrade_admin = Some(admin);
        Ok(UpgradeAdminSetEvent { old_admin: None, new_admin: admin, updated_at: now })
    }

    /// The current upgrade admin hands the role to `new_admin`.
    pub fn set_upgrade_admin(&mut self, caller: Address, new_admin: Address, now: u64) -> (r: Result<UpgradeAdminSetEvent, EscrowError>)
        ensures
            match r {
                Ok(out) => old(self)@.set_upgrade_admin(caller, new_admin, now) == Ok::<(EscrowState, UpgradeAdminSetEvent), EscrowError>((final(self)@, out)),
                Err(e) => old(self)@.set_upgrade_admin(caller, new_admin, now) == Err::<(EscrowState, UpgradeAdminSetEvent), EscrowError>(e)
                    && final(self)@ == old(self)@,
            },
    {
        let current = match self.upgrade_admin {
            None => {
                return Err(EscrowError::UpgradeAdminNotSet);
            },
            Some(a) => a,
        };
        if caller != current {
            return Err(EscrowError::Unauthorized);
        }
        self.upgrade_admin = Some(new_admin);
        Ok(UpgradeAdminSetEvent { old_admin: Some(current), new_admin, updated_at: now })
    }

    /// The upgrade admin, once set.
    pub fn get_upgrade_admin(&self) -> (r: Result<Address, EscrowError>)
        ensures
            match self@.upgrade_admin {
                Some(a) => r == Ok::<Address, EscrowError>(a),
                None => r == Err::<Address, EscrowError>(EscrowError::UpgradeAdminNotSet),
            },
    {
        match self.upgrade_admin {
            Some(a) => Ok(a),
            None => Err(EscrowError::UpgradeAdminNotSet),
        }
    }

    /// Decides whether `caller` may replace the contract's code with the
    /// code whose hash is `new_wasm_hash`; on success the host installs it.
    /// The stored state does not change.
    pub fn upgrade(&self, caller: Address, new_wasm_hash: Bytes32, now: u64) -> (r: Result<ContractUpgradedEvent, EscrowError>)
        ensures
            r == self@.upgrade(caller, new_wasm_hash, now),
    {
        let admin = match self.upgrade_admin {
            None => {
                return Err(EscrowError::UpgradeAdminNotSet);
            },
            Some(a) => a,
        };
        if caller != admin {
            return Err(EscrowError::UpgradeUnauthorized);
        }
        Ok(ContractUpgradedEvent { by_admin: caller, new_wasm_hash, upgraded_at: now })
    }

    /// The client creates a job in the setup phase, expiring thirty days
    /// after `now`; a job id can be used once.
    pub fn create_job(&mut self, job_id: u64, client: Address, freelancer: Address, token_addr: Address, now: u64) -> (r: Result<(), EscrowFailure>)
        ensures
            match r {
                Ok(_) => old(self)@.create_job(job_id, client, freelancer, token_addr, now) == Ok::<EscrowState, EscrowFailure>(final(self)@),
                Err(e) => old(self)@.create_job(job_id, client, freelancer, token_addr, now) == Err::<EscrowState, EscrowFailure>(e)
                    && final(self)@ == old(self)@,
            },
    {
        if self.jobs.contains_key(&job_id) {
            return Err(EscrowFailure::Abort(EscrowAbort::JobAlreadyExists));
        }
        let expires_at = match now.checked_add(JOB_LIFETIME_SECONDS) {
            None => {
                return Err(EscrowFailure::Error(EscrowError::ArithmeticError));
            },
            Some(t) => t,
        };
        let job = EscrowJob {
            client,
            freelancer,
            token: token_addr,
            total_amount: 0,
            released_amount: 0,
            status: EscrowStatus::Setup,
            created_at: now,
            expires_at,
            milestones: Vec::new(),
            requires_multisig: false,
        };
        proof {
            assert(job@.milestones =~= Seq::<Milestone>::empty());
        }
        self.put_job(job_id, job);
        Ok(())
    }

    /// The client adds a pending milestone of a positive amount to a job in
    /// the setup phase.
    pub fn add_milestone(&mut self, job_id: u64, amount: i128) -> (r: Result<(), EscrowError>)
        ensures
            match r {
                Ok(_) => old(self)@.add_milestone(job_id, amount) == Ok::<EscrowState, EscrowError>(final(self)@),
                Err(e) => old(self)@.add_milestone(job_id, amount) == Err::<EscrowState, EscrowError>(e)
                    && final(self)@ == old(self)@,
            },
    {
        let mut job = match self.jobs.get(&job_id) {
            None => {
                return Err(EscrowError::JobNotFound);
            },
            Some(job) => {
                if job.status != EscrowStatus::Setup {
                    return Err(EscrowError::InvalidState);
                }
                if amount <= 0 {
                    return Err(EscrowError::InvalidInput);
                }
                copy_job(job)
            },
        };
        job.milestones.push(Milestone { amount, status: MilestoneStatus::Pending });
        self.put_job(job_id, job);
        Ok(())
    }

    /// A copy of the stored job; asking for a missing job aborts.
    pub fn get_job(&self, job_id: u64) -> (r: Result<EscrowJob, EscrowFailure>)
        ensures
            match r {
                Ok(job) => self@.get_job(job_id) == Ok::<JobView, EscrowFailure>(job@),
                Err(e) => self@.get_job(job_id) == Err::<JobView, EscrowFailure>(e),
            },
    {
        match self.jobs.get(&job_id) {
            None => Err(EscrowFailure::Abort(EscrowAbort::JobNotFound)),
            Some(job) => Ok(copy_job(job)),
        }
    }

    /// What the job still holds: its total less what has been released;
    /// asking for a missing job aborts.
    pub fn get_escrow_balance(&self, job_id: u64) -> (r: Result<i128, EscrowFailure>)
        ensures
            r == self@.escrow_balance(job_id),
    {
        match self.jobs.get(&job_id) {
            None => Err(EscrowFailure::Abort(EscrowAbort::JobNotFound)),
            Some(job) => match job.total_amount.checked_sub(job.released_amount) {
                None => Err(EscrowFailure::Error(EscrowError::ArithmeticError)),
                Some(b) => Ok(b),
            },
        }
    }

    /// The status of each milestone of the job, in order.
    pub fn get_milestone_status(&self, job_id: u64) -> (r: Result<Vec<MilestoneStatus>, EscrowError>)
        ensures
            match r {
                Ok(v) => self@.milestone_status(job_id) == Ok::<Seq<MilestoneStatus>, EscrowError>(v@),
                Err(e) => self@.milestone_status(job_id) == Err::<Seq<MilestoneStatus>, EscrowError>(e),
            },
    {
        match self.jobs.get(&job_id) {
            None => Err(EscrowError::JobNotFound),
            Some(job) => {
                let mut statuses: Vec<MilestoneStatus> = Vec::new();
                let mut i: usize = 0;
                while i < job.milestones.len()
                    invariant
                        i <= job.milestones.len(),
                        statuses@ == milestone_statuses(job.milestones@.take(i as int)),
                    decreases job.milestones.len() - i,
                {
                    statuses.push(job.milestones[i].status);
                    proof {
                        assert(statuses@ =~= milestone_statuses(job.milestones@.take(i as int + 1)));
                    }
                    i = i + 1;
                }
                proof {
                    assert(job.milestones@.take(i as int) =~= job.milestones@);
                }
                Ok(statuses)
            },
        }
    }

    /// A copy of the job's multi-signature configuration.
    pub fn get_multisig_config(&self, job_id: u64) -> (r: Result<MultisigConfig, EscrowError>)
        ensures
            match r {
                Ok(c) => self@.multisig_config(job_id) == Ok::<MultisigView, EscrowError>(c@),
                Err(e) => self@.multisig_config(job_id) == Err::<MultisigView, EscrowError>(e),
            },
    {
        match self.multisig.get(&job_id) {
            None => Err(EscrowError::InvalidInput),
            Some(c) => Ok(MultisigConfig {
                signers: copy_addresses(&c.signers),
                required_signatures: c.required_signatures,
                current_signatures: copy_addresses(&c.current_signatures),
            }),
        }
    }

    /// The client puts a job in the setup phase under the control of
    /// `signers`, of whom `required_signatures` (at least one, at most all)
    /// must sign.
    pub fn configure_multisig(&mut self, job_id: u64, signers: Vec<Address>, required_signatures: u32, now: u64) -> (r: Result<MultisigConfiguredEvent, EscrowError>)
        ensures
            match r {
                Ok(out) => old(self)@.configure_multisig(job_id, signers@, required_signatures, now) == Ok::<(EscrowState, MultisigConfiguredEvent), EscrowError>((final(self)@, out)),
                Err(e) => old(self)@.configure_multisig(job_id, signers@, required_signatures, now) == Err::<(EscrowState, MultisigConfiguredEvent), EscrowError>(e)
                    && final(self)@ == old(self)@,
            },
    {
        let mut job = match self.jobs.get(&job_id) {
            None => {
                return Err(EscrowError::JobNotFound);
            },
            Some(job) => {
                if job.status != EscrowStatus::Setup {
                    return Err(EscrowError::InvalidState);
                }
                if signers.len() == 0 || required_signatures == 0 {
                    return Err(EscrowError::InvalidInput);
                }
                if required_signatures as usize > signers.len() {
                    return Err(EscrowError::InvalidInput);
                }
                copy_job(job)
            },
        };
        let total_signers = signers.len() as u32;
        let config = MultisigConfig { signers, required_signatures, current_signatures: Vec::new() };
        let ghost before = self.multisig@;
        self.multisig.insert(job_id, config);
        proof {
            lemma_multisig_views_insert(before, job_id, config);
            assert(config@.current_signatures =~= Seq::<Address>::empty());
        }
        job.requires_multisig = true;
        self.put_job(job_id, job);
        Ok(MultisigConfiguredEvent { job_id, required_signatures, total_signers, configured_at: now })
    }

    /// A configured signer of a multi-signature job signs it, once.
    pub fn sign_multisig(&mut self, job_id: u64, signer: Address, now: u64) -> (r: Result<MultisigSignedEvent, EscrowError>)
        ensures
            match r {
                Ok(out) => old(self)@.sign_multisig(job_id, signer, now) == Ok::<(EscrowState, MultisigSignedEvent), EscrowError>((final(self)@, out)),
                Err(e) => old(self)@.sign_multisig(job_id, signer, now) == Err::<(EscrowState, MultisigSignedEvent), EscrowError>(e)
                    && final(self)@ == old(self)@,
            },
    {
        match self.jobs.get(&job_id) {
            None => {
                return Err(EscrowError::JobNotFound);
            },
            Some(job) => {
                if !job.requires_multisig {
                    return Err(EscrowError::InvalidInput);
                }
            },
        }
        let mut config = match self.multisig.get(&job_id) {
            None => {
                return Err(EscrowError::InvalidInput);
            },
            Some(c) => {
                if !contains_address(&c.signers, signer) {
                    return Err(EscrowError::Unauthorized);
                }
                if contains_address(&c.current_signatures, signer) {
                    return Err(EscrowError::AlreadySigned);
                }
                MultisigConfig {
                    signers: copy_addresses(&c.signers),
                    required_signatures: c.required_signatures,
                    current_signatures: copy_addresses(&c.current_signatures),
                }
            },
        };
        config.current_signatures.push(signer);
        let signature_count = config.current_signatures.len() as u32;
        let ghost before = self.multisig@;
        let ghost cv = config;
        self.multisig.insert(job_id, config);
        proof {
            lemma_multisig_views_insert(before, job_id, cv);
        }
        Ok(MultisigSignedEvent { job_id, signer, signature_count, signed_at: now })
    }

    /// Whether a job may proceed: always for a job without multi-signature
    /// control, otherwise once enough signers have signed.
    pub fn check_multisig_ready(&self, job_id: u64) -> (r: Result<bool, EscrowError>)
        ensures
            r == self@.multisig_ready(job_id),
    {
        match self.jobs.get(&job_id) {
            None => {
                return Err(EscrowError::JobNotFound);
            },
            Some(job) => {
                if !job.requires_multisig {
                    return Ok(true);
                }
            },
        }
        match self.multisig.get(&job_id) {
            None => Err(EscrowError::InvalidInput),
            Some(c) => Ok(c.current_signatures.len() as u32 >= c.required_signatures),
        }
    }
}

} // verus!
