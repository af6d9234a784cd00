//! Properties of the escrow contract that span its operations, stated over
//! every call the contract accepts and proved from `escrow_spec`.
use vstd::prelude::*;
use crate::address::Address;
use crate::escrow_spec::{
    checked_milestone_sum, first_pending, fits_i128, has_pending, is_active,
    is_first_pending, status_after_release, EscrowState,
};
use crate::escrow_types::{
    permitted_transition, EscrowError, EscrowFailure, EscrowStatus, Holder, JobView, Milestone, MilestoneStatus,
    MultisigView, RegistryDisputeSyncedEvent, Transfer,
};

verus! {

/// A call of one of the escrow contract's state-changing operations.
pub enum EscrowCall {
    Initialize { admin: Address, agent_judge: Address, now: u64 },
    SetAgentJudge { new_agent_judge: Address, now: u64 },
    SetJobRegistry { job_registry: Address, now: u64 },
    InitUpgradeAdmin { admin: Address, now: u64 },
    SetUpgradeAdmin { caller: Address, new_admin: Address, now: u64 },
    CreateJob { job_id: u64, client: Address, freelancer: Address, token: Address, now: u64 },
    AddMilestone { job_id: u64, amount: i128 },
    Deposit { job_id: u64, amount: i128, now: u64 },
    ReleaseMilestone { job_id: u64, caller: Address, now: u64 },
    ReleaseFunds { job_id: u64, caller: Address, milestone_index: u32 },
    OpenDispute { job_id: u64, caller: Address, now: u64 },
    RaiseDispute { job_id: u64, caller: Address, now: u64 },
    ResolveDispute { job_id: u64, payee_amount: i128, payer_amount: i128 },
    Refund { job_id: u64, client: Address, now: u64 },
    ConfigureMultisig { job_id: u64, signers: Seq<Address>, required_signatures: u32, now: u64 },
    SignMultisig { job_id: u64, signer: Address, now: u64 },
    ReleaseGuard,
}

/// The job a call concerns, if any.
pub open spec fn call_job(c: EscrowCall) -> Option<u64> {
    match c {
        EscrowCall::CreateJob { job_id, .. } => Some(job_id),
        EscrowCall::AddMilestone { job_id, .. } => Some(job_id),
        EscrowCall::Deposit { job_id, .. } => Some(job_id),
        EscrowCall::ReleaseMilestone { job_id, .. } => Some(job_id),
        EscrowCall::ReleaseFunds { job_id, .. } => Some(job_id),
        EscrowCall::OpenDispute { job_id, .. } => Some(job_id),
        EscrowCall::RaiseDispute { job_id, .. } => Some(job_id),
        EscrowCall::ResolveDispute { job_id, .. } => Some(job_id),
        EscrowCall::Refund { job_id, .. } => Some(job_id),
        EscrowCall::ConfigureMultisig { job_id, .. } => Some(job_id),
        EscrowCall::SignMultisig { job_id, .. } => Some(job_id),
        _ => None,
    }
}

/// The calls that move tokens and so take the reentrancy lock.
pub open spec fn is_guarded(c: EscrowCall) -> bool {
    match c {
        EscrowCall::Deposit { .. } => true,
        EscrowCall::ReleaseMilestone { .. } => true,
        EscrowCall::ReleaseFunds { .. } => true,
        EscrowCall::ResolveDispute { .. } => true,
        EscrowCall::Refund { .. } => true,
        _ => false,
    }
}

/// The state after a call and the transfers that it asks for, or the
/// error that it returns.
pub open spec fn step(s: EscrowState, c: EscrowCall) -> Result<(EscrowState, Seq<Transfer>), EscrowFailure> {
    match c {
        EscrowCall::Initialize { admin, agent_judge, now } => match s.initialize(admin, agent_judge, now) {
            Ok((s2, _)) => Ok((s2, Seq::empty())),
            Err(e) => Err(EscrowFailure::Error(e)),
        },
        EscrowCall::SetAgentJudge { new_agent_judge, now } => match s.set_agent_judge(new_agent_judge, now) {
            Ok((s2, _)) => Ok((s2, Seq::empty())),
            Err(e) => Err(EscrowFailure::Error(e)),
        },
        EscrowCall::SetJobRegistry { job_registry, now } => match s.set_job_registry(job_registry, now) {
            Ok((s2, _)) => Ok((s2, Seq::empty())),
            Err(e) => Err(EscrowFailure::Error(e)),
        },
        EscrowCall::InitUpgradeAdmin { admin, now } => match s.init_upgrade_admin(admin, now) {
            Ok((s2, _)) => Ok((s2, Seq::empty())),
            Err(e) => Err(EscrowFailure::Error(e)),
        },
        EscrowCall::SetUpgradeAdmin { caller, new_admin, now } => match s.set_upgrade_admin(caller, new_admin, now) {
            Ok((s2, _)) => Ok((s2, Seq::empty())),
            Err(e) => Err(EscrowFailure::Error(e)),
        },
        EscrowCall::CreateJob { job_id, client, freelancer, token, now } => match s.create_job(job_id, client, freelancer, token, now) {
            Ok(s2) => Ok((s2, Seq::empty())),
            Err(e) => Err(e),
        },
        EscrowCall::AddMilestone { job_id, amount } => match s.add_milestone(job_id, amount) {
            Ok(s2) => Ok((s2, Seq::empty())),
            Err(e) => Err(EscrowFailure::Error(e)),
        },
        EscrowCall::Deposit { job_id, amount, now } => match s.deposit(job_id, amount, now) {
            Ok((s2, (t, _))) => Ok((s2, seq![t])),
            Err(e) => Err(EscrowFailure::Error(e)),
        },
        EscrowCall::ReleaseMilestone { job_id, caller, now } => match s.release_milestone(job_id, caller, now) {
            Ok((s2, (t, _))) => Ok((s2, seq![t])),
            Err(e) => Err(EscrowFailure::Error(e)),
        },
        EscrowCall::ReleaseFunds { job_id, caller, milestone_index } => match s.release_funds(job_id, caller, milestone_index) {
            Ok((s2, t)) => Ok((s2, seq![t])),
            Err(e) => Err(e),
        },
        EscrowCall::OpenDispute { job_id, caller, now } => match s.open_dispute(job_id, caller, now) {
            Ok((s2, _)) => Ok((s2, Seq::empty())),
            Err(e) => Err(EscrowFailure::Error(e)),
        },
        EscrowCall::RaiseDispute { job_id, caller, now } => match s.raise_dispute(job_id, caller, now) {
            Ok((s2, _)) => Ok((s2, Seq::empty())),
            Err(e) => Err(e),
        },
        EscrowCall::ResolveDispute { job_id, payee_amount, payer_amount } => s.resolve_dispute(job_id, payee_amount, payer_amount),
        EscrowCall::Refund { job_id, client, now } => match s.refund(job_id, client, now) {
            Ok((s2, (Some(t), _))) => Ok((s2, seq![t])),
            Ok((s2, (None, _))) => Ok((s2, Seq::empty())),
            Err(e) => Err(EscrowFailure::Error(e)),
        },
        EscrowCall::ConfigureMultisig { job_id, signers, required_signatures, now } => match s.configure_multisig(job_id, signers, required_signatures, now) {
            Ok((s2, _)) => Ok((s2, Seq::empty())),
            Err(e) => Err(EscrowFailure::Error(e)),
        },
        EscrowCall::SignMultisig { job_id, signer, now } => match s.sign_multisig(job_id, signer, now) {
            Ok((s2, _)) => Ok((s2, Seq::empty())),
            Err(e) => Err(EscrowFailure::Error(e)),
        },
        EscrowCall::ReleaseGuard => Ok((EscrowState { locked: false, ..s }, Seq::empty())),
    }
}

/// Splits a proof into one case per kind of call.
proof fn split_calls(c: EscrowCall)
    ensures
        c is Initialize || c is SetAgentJudge || c is SetJobRegistry || c is InitUpgradeAdmin
            || c is SetUpgradeAdmin || c is CreateJob || c is AddMilestone || c is Deposit
            || c is ReleaseMilestone || c is ReleaseFunds || c is OpenDispute || c is RaiseDispute
            || c is ResolveDispute || c is Refund || c is ConfigureMultisig || c is SignMultisig
            || c is ReleaseGuard,
{
}

/// Statuses from which no call moves a job.
pub open spec fn is_final(st: EscrowStatus) -> bool {
    st == EscrowStatus::Completed || st == EscrowStatus::Resolved || st == EscrowStatus::Refunded
}

/// A call never moves a job to a phase that the protocol does not permit:
/// a job is created in `Setup`, and any later change of its phase is one
/// of the permitted transitions.
pub proof fn lemma_status_changes_are_permitted(s: EscrowState, c: EscrowCall, id: u64)
    requires
        step(s, c) is Ok,
        step(s, c)->Ok_0.0.jobs.contains_key(id),
    ensures
        ({
            let s2 = step(s, c)->Ok_0.0;
            if s.jobs.contains_key(id) {
                s2.jobs[id].status == s.jobs[id].status
                    || permitted_transition(s.jobs[id].status, s2.jobs[id].status)
            } else {
                s2.jobs[id].status == EscrowStatus::Setup
            }
        }),
{
    split_calls(c);
}

/// A job in `Completed`, `Resolved` or `Refunded` never changes again.
pub proof fn lemma_final_jobs_are_frozen(s: EscrowState, c: EscrowCall, id: u64)
    requires
        step(s, c) is Ok,
        s.jobs.contains_key(id),
        is_final(s.jobs[id].status),
    ensures
        step(s, c)->Ok_0.0.jobs.contains_key(id),
        step(s, c)->Ok_0.0.jobs[id] == s.jobs[id],
{
}

/// A call changes no job but the one it concerns.
pub proof fn lemma_other_jobs_untouched(s: EscrowState, c: EscrowCall, id: u64)
    requires
        step(s, c) is Ok,
        call_job(c) != Some(id),
    ensures
        step(s, c)->Ok_0.0.jobs.contains_key(id) == s.jobs.contains_key(id),
        s.jobs.contains_key(id) ==> step(s, c)->Ok_0.0.jobs[id] == s.jobs[id],
        step(s, c)->Ok_0.0.multisig.contains_key(id) == s.multisig.contains_key(id),
        s.multisig.contains_key(id) ==> step(s, c)->Ok_0.0.multisig[id] == s.multisig[id],
{
}

/// While the reentrancy lock is held, no call that moves tokens succeeds;
/// a call that moves tokens leaves the lock held until `ReleaseGuard`.
pub proof fn lemma_reentrancy_guard(s: EscrowState, c: EscrowCall)
    requires
        is_guarded(c),
    ensures
        s.locked ==> step(s, c) is Err,
        step(s, c) is Ok ==> step(s, c)->Ok_0.0.locked,
{
}

/// The admin and the agent judge are set together, once: no call changes
/// an admin that is set, and only `Initialize` sets it.
pub proof fn lemma_admin_is_set_once(s: EscrowState, c: EscrowCall)
    requires
        step(s, c) is Ok,
    ensures
        s.admin is Some ==> step(s, c)->Ok_0.0.admin == s.admin,
        s.admin is None && step(s, c)->Ok_0.0.admin is Some ==> c is Initialize,
{
    split_calls(c);
}

/// The sum of the milestones' amounts.
pub open spec fn milestone_sum(ms: Seq<Milestone>) -> int
    decreases ms.len(),
{
    if ms.len() == 0 {
        0
    } else {
        milestone_sum(ms.drop_last()) + ms.last().amount
    }
}

/// The sum of the released milestones' amounts.
pub open spec fn released_sum(ms: Seq<Milestone>) -> int
    decreases ms.len(),
{
    if ms.len() == 0 {
        0
    } else {
        released_sum(ms.drop_last()) + if ms.last().status == MilestoneStatus::Released {
            ms.last().amount as int
        } else {
            0
        }
    }
}

/// The sum of the pending milestones' amounts.
pub open spec fn pending_sum(ms: Seq<Milestone>) -> int
    decreases ms.len(),
{
    if ms.len() == 0 {
        0
    } else {
        pending_sum(ms.drop_last()) + if ms.last().status == MilestoneStatus::Pending {
            ms.last().amount as int
        } else {
            0
        }
    }
}

/// Every milestone has a positive amount.
pub open spec fn all_positive(ms: Seq<Milestone>) -> bool {
    forall|i: int| 0 <= i < ms.len() ==> #[trigger] ms[i].amount > 0
}

/// Every milestone is pending.
pub open spec fn all_pending(ms: Seq<Milestone>) -> bool {
    forall|i: int| 0 <= i < ms.len() ==> #[trigger] ms[i].status == MilestoneStatus::Pending
}

/// Phases in which the job's totals follow its milestones.
pub open spec fn follows_milestones(st: EscrowStatus) -> bool {
    st == EscrowStatus::Funded || st == EscrowStatus::WorkInProgress || st == EscrowStatus::Completed
        || st == EscrowStatus::Disputed
}

/// A well-formed job: positive milestones; never more released than
/// deposited; nothing deposited or released before funding, nor released
/// while merely funded; once funded
/// and until a settlement, the deposit is the sum of the milestones and
/// the released amount the sum of the released ones; an active job still
/// holds funds, and a completed job has released everything.
pub open spec fn job_wf(j: JobView) -> bool {
    &&& all_positive(j.milestones)
    &&& 0 <= j.released_amount <= j.total_amount
    &&& j.status == EscrowStatus::Setup ==> {
        &&& j.total_amount == 0
        &&& j.released_amount == 0
        &&& all_pending(j.milestones)
    }
    &&& j.status == EscrowStatus::Funded ==> all_pending(j.milestones)
    &&& follows_milestones(j.status) ==> {
        &&& j.total_amount == milestone_sum(j.milestones)
        &&& j.released_amount == released_sum(j.milestones)
    }
    &&& is_active(j.status) ==> j.released_amount < j.total_amount
    &&& j.status == EscrowStatus::Completed ==> j.released_amount == j.total_amount
}

/// A well-formed multi-signature configuration: between one and all
/// signers are required, and only configured signers have signed, each
/// once.
pub open spec fn multisig_wf(c: MultisigView) -> bool {
    &&& 1 <= c.required_signatures <= c.signers.len()
    &&& forall|i: int| 0 <= i < c.current_signatures.len() ==> c.signers.contains(#[trigger] c.current_signatures[i])
    &&& c.current_signatures.no_duplicates()
}

/// Every stored job and configuration is well formed.
pub open spec fn state_wf(s: EscrowState) -> bool {
    &&& forall|id: u64| s.jobs.contains_key(id) ==> job_wf(#[trigger] s.jobs[id])
    &&& forall|id: u64| s.multisig.contains_key(id) ==> multisig_wf(#[trigger] s.multisig[id])
}

proof fn lemma_checked_sum_is_sum(ms: Seq<Milestone>)
    ensures
        checked_milestone_sum(ms) matches Some(x) ==> x == milestone_sum(ms),
    decreases ms.len(),
{
    if ms.len() > 0 {
        lemma_checked_sum_is_sum(ms.drop_last());
    }
}

proof fn lemma_sums_split(ms: Seq<Milestone>)
    ensures
        released_sum(ms) + pending_sum(ms) == milestone_sum(ms),
    decreases ms.len(),
{
    if ms.len() > 0 {
        lemma_sums_split(ms.drop_last());
    }
}

proof fn lemma_pending_sum_bound(ms: Seq<Milestone>, i: int)
    requires
        all_positive(ms),
        0 <= i < ms.len(),
        ms[i].status == MilestoneStatus::Pending,
    ensures
        pending_sum(ms) >= ms[i].amount,
        pending_sum(ms) >= 0,
    decreases ms.len(),
{
    let d = ms.drop_last();
    assert(all_positive(d)) by {
        assert forall|j: int| 0 <= j < d.len() implies #[trigger] d[j].amount > 0 by {
            assert(d[j] == ms[j]);
        }
    }
    assert(ms[ms.len() - 1].amount > 0);
    if i < ms.len() - 1 {
        assert(d[i] == ms[i]);
        lemma_pending_sum_bound(d, i);
    } else {
        lemma_pending_sum_nonneg(d);
    }
}

proof fn lemma_pending_sum_nonneg(ms: Seq<Milestone>)
    requires
        all_positive(ms),
    ensures
        pending_sum(ms) >= 0,
    decreases ms.len(),
{
    if ms.len() > 0 {
        let d = ms.drop_last();
        assert forall|j: int| 0 <= j < d.len() implies #[trigger] d[j].amount > 0 by {
            assert(d[j] == ms[j]);
        }
        lemma_pending_sum_nonneg(d);
        assert(ms[ms.len() - 1].amount > 0);
    }
}

proof fn lemma_all_pending_released_zero(ms: Seq<Milestone>)
    requires
        all_pending(ms),
    ensures
        released_sum(ms) == 0,
    decreases ms.len(),
{
    if ms.len() > 0 {
        let d = ms.drop_last();
        assert forall|j: int| 0 <= j < d.len() implies #[trigger] d[j].status == MilestoneStatus::Pending by {
            assert(d[j] == ms[j]);
        }
        lemma_all_pending_released_zero(d);
        assert(ms[ms.len() - 1].status == MilestoneStatus::Pending);
    }
}

/// Releasing a pending milestone moves its amount from the pending sum to
/// the released sum and keeps the total.
proof fn lemma_release_update(ms: Seq<Milestone>, i: int)
    requires
        0 <= i < ms.len(),
        ms[i].status == MilestoneStatus::Pending,
    ensures
        ({
            let u = ms.update(i, Milestone { amount: ms[i].amount, status: MilestoneStatus::Released });
            &&& milestone_sum(u) == milestone_sum(ms)
            &&& released_sum(u) == released_sum(ms) + ms[i].amount
        }),
    decreases ms.len(),
{
    let u = ms.update(i, Milestone { amount: ms[i].amount, status: MilestoneStatus::Released });
    if i == ms.len() - 1 {
        assert(u.drop_last() =~= ms.drop_last());
    } else {
        let d = ms.drop_last();
        assert(d[i] == ms[i]);
        lemma_release_update(d, i);
        assert(u.drop_last() =~= d.update(i, Milestone { amount: ms[i].amount, status: MilestoneStatus::Released }));
    }
}

proof fn lemma_first_pending_exists(ms: Seq<Milestone>)
    requires
        has_pending(ms),
    ensures
        is_first_pending(ms, first_pending(ms)),
    decreases ms.len(),
{
    let d = ms.drop_last();
    if has_pending(d) {
        lemma_first_pending_exists(d);
        let k = first_pending(d);
        assert(is_first_pending(ms, k)) by {
            assert forall|j: int| 0 <= j < k implies ms[j].status != MilestoneStatus::Pending by {
                assert(d[j] == ms[j]);
            }
            assert(d[k] == ms[k]);
        }
    } else {
        let n = ms.len() - 1;
        let w = choose|i: int| 0 <= i < ms.len() && ms[i].status == MilestoneStatus::Pending;
        if w < n {
            assert(d[w] == ms[w]);
        }
        assert(is_first_pending(ms, n)) by {
            assert forall|j: int| 0 <= j < n implies ms[j].status != MilestoneStatus::Pending by {
                assert(d[j] == ms[j]);
                if ms[j].status == MilestoneStatus::Pending {
                    assert(has_pending(d));
                }
            }
        }
    }
}

/// A well-formed job stays well formed after one of its milestones is
/// released.
proof fn lemma_release_keeps_job_wf(j: JobView, idx: int)
    requires
        job_wf(j),
        is_active(j.status),
        0 <= idx < j.milestones.len(),
        j.milestones[idx].status == MilestoneStatus::Pending,
        fits_i128(j.released_amount + j.milestones[idx].amount),
    ensures
        job_wf(EscrowState::job_after_release(j, idx)),
{
    let ms = j.milestones;
    let j2 = EscrowState::job_after_release(j, idx);
    lemma_release_update(ms, idx);
    lemma_sums_split(ms);
    lemma_pending_sum_bound(ms, idx);
    assert(all_positive(j2.milestones)) by {
        assert forall|i: int| 0 <= i < j2.milestones.len() implies #[trigger] j2.milestones[i].amount > 0 by {
            if i != idx {
                assert(j2.milestones[i] == ms[i]);
            }
        }
    }
}

/// Every call keeps the contract's state well formed.
pub proof fn lemma_calls_keep_state_wf(s: EscrowState, c: EscrowCall)
    requires
        state_wf(s),
        step(s, c) is Ok,
    ensures
        state_wf(step(s, c)->Ok_0.0),
{
    let s2 = step(s, c)->Ok_0.0;
    split_calls(c);
    match c {
        EscrowCall::CreateJob { job_id, .. } => {
            assert(job_wf(s2.jobs[job_id]));
        },
        EscrowCall::AddMilestone { job_id, amount } => {
            let j = s.jobs[job_id];
            let j2 = s2.jobs[job_id];
            assert(job_wf(j));
            assert(all_positive(j2.milestones)) by {
                assert forall|i: int| 0 <= i < j2.milestones.len() implies #[trigger] j2.milestones[i].amount > 0 by {
                    if i < j.milestones.len() {
                        assert(j2.milestones[i] == j.milestones[i]);
                    }
                }
            }
            assert(all_pending(j2.milestones)) by {
                assert forall|i: int| 0 <= i < j2.milestones.len() implies #[trigger] j2.milestones[i].status == MilestoneStatus::Pending by {
                    if i < j.milestones.len() {
                        assert(j2.milestones[i] == j.milestones[i]);
                    }
                }
            }
            assert(job_wf(j2));
        },
        EscrowCall::Deposit { job_id, .. } => {
            let j = s.jobs[job_id];
            assert(job_wf(j));
            lemma_checked_sum_is_sum(j.milestones);
            lemma_all_pending_released_zero(j.milestones);
            assert(job_wf(s2.jobs[job_id]));
        },
        EscrowCall::ReleaseMilestone { job_id, .. } => {
            let j = s.jobs[job_id];
            assert(job_wf(j));
            lemma_first_pending_exists(j.milestones);
            lemma_release_keeps_job_wf(j, first_pending(j.milestones));
        },
        EscrowCall::ReleaseFunds { job_id, milestone_index, .. } => {
            let j = s.jobs[job_id];
            assert(job_wf(j));
            lemma_release_keeps_job_wf(j, milestone_index as int);
        },
        EscrowCall::OpenDispute { job_id, .. } => {
            assert(job_wf(s.jobs[job_id]));
            assert(job_wf(s2.jobs[job_id]));
        },
        EscrowCall::RaiseDispute { job_id, .. } => {
            assert(job_wf(s.jobs[job_id]));
            assert(job_wf(s2.jobs[job_id]));
        },
        EscrowCall::ResolveDispute { job_id, .. } => {
            assert(job_wf(s.jobs[job_id]));
            assert(job_wf(s2.jobs[job_id]));
        },
        EscrowCall::Refund { job_id, .. } => {
            assert(job_wf(s.jobs[job_id]));
            assert(job_wf(s2.jobs[job_id]));
        },
        EscrowCall::ConfigureMultisig { job_id, .. } => {
            assert(job_wf(s.jobs[job_id]));
            assert(job_wf(s2.jobs[job_id]));
            assert(multisig_wf(s2.multisig[job_id]));
        },
        EscrowCall::SignMultisig { job_id, signer, .. } => {
            let c1 = s.multisig[job_id];
            let c2 = s2.multisig[job_id];
            assert(multisig_wf(c1));
            assert(multisig_wf(c2)) by {
                assert forall|i: int| 0 <= i < c2.current_signatures.len() implies c2.signers.contains(#[trigger] c2.current_signatures[i]) by {
                    if i < c1.current_signatures.len() {
                        assert(c2.current_signatures[i] == c1.current_signatures[i]);
                    }
                }
                assert forall|i: int, k: int| 0 <= i < k < c2.current_signatures.len() implies c2.current_signatures[i] != c2.current_signatures[k] by {
                    if k == c1.current_signatures.len() {
                        assert(c2.current_signatures[i] == c1.current_signatures[i]);
                        assert(c1.current_signatures.contains(c1.current_signatures[i]));
                    } else {
                        assert(c2.current_signatures[i] == c1.current_signatures[i]);
                        assert(c2.current_signatures[k] == c1.current_signatures[k]);
                    }
                }
            }
        },
        _ => {},
    }
}

/// What a transfer adds to the funds that the escrow holds.
pub open spec fn inflow(t: Transfer) -> int {
    if t.to == Holder::Escrow && t.from != Holder::Escrow {
        t.amount as int
    } else if t.from == Holder::Escrow && t.to != Holder::Escrow {
        -t.amount
    } else {
        0
    }
}

/// What a list of transfers adds to the funds that the escrow holds.
pub open spec fn net_inflow(ts: Seq<Transfer>) -> int
    decreases ts.len(),
{
    if ts.len() == 0 {
        0
    } else {
        net_inflow(ts.drop_last()) + inflow(ts.last())
    }
}

/// What the escrow holds for job `k`: its deposit less what it released.
pub open spec fn held(s: EscrowState, k: u64) -> int {
    if s.jobs.contains_key(k) {
        s.jobs[k].total_amount - s.jobs[k].released_amount
    } else {
        0
    }
}

/// The contract's books follow the tokens: after any call on a
/// well-formed state, what it holds for each job has changed by exactly
/// what the call's transfers bring in or take out, and only for the job
/// that the call concerns.
pub proof fn lemma_books_follow_transfers(s: EscrowState, c: EscrowCall, k: u64)
    requires
        state_wf(s),
        step(s, c) is Ok,
    ensures
        held(step(s, c)->Ok_0.0, k) == held(s, k) + if call_job(c) == Some(k) {
            net_inflow(step(s, c)->Ok_0.1)
        } else {
            0
        },
{
    let (s2, ts) = step(s, c)->Ok_0;
    split_calls(c);
    reveal_with_fuel(net_inflow, 3);
    match c {
        EscrowCall::Deposit { job_id, .. } => {
            if job_id == k {
                assert(job_wf(s.jobs[k]));
                assert(ts.drop_last() =~= Seq::<Transfer>::empty());
            }
        },
        EscrowCall::ReleaseMilestone { job_id, .. } => {
            if job_id == k {
                assert(ts.drop_last() =~= Seq::<Transfer>::empty());
            }
        },
        EscrowCall::ReleaseFunds { job_id, .. } => {
            if job_id == k {
                assert(ts.drop_last() =~= Seq::<Transfer>::empty());
            }
        },
        EscrowCall::ResolveDispute { job_id, payee_amount, payer_amount } => {
            if job_id == k {
                if ts.len() == 2 {
                    assert(ts.drop_last().drop_last() =~= Seq::<Transfer>::empty());
                } else if ts.len() == 1 {
                    assert(ts.drop_last() =~= Seq::<Transfer>::empty());
                }
            }
        },
        EscrowCall::Refund { job_id, .. } => {
            if job_id == k && ts.len() == 1 {
                assert(ts.drop_last() =~= Seq::<Transfer>::empty());
            }
        },
        _ => {},
    }
}

/// Tokens move only between the escrow and a job's own parties, in the
/// job's token and in positive amounts: deposits come from the client, and
/// payouts go to the client or the freelancer.
pub proof fn lemma_transfers_stay_with_parties(s: EscrowState, c: EscrowCall, i: int)
    requires
        state_wf(s),
        step(s, c) is Ok,
        0 <= i < step(s, c)->Ok_0.1.len(),
    ensures
        call_job(c) is Some,
        s.jobs.contains_key(call_job(c)->0),
        ({
            let job = s.jobs[call_job(c)->0];
            let t = step(s, c)->Ok_0.1[i];
            &&& t.token == job.token
            &&& t.amount > 0
            &&& t.to == Holder::Escrow ==> t.from == Holder::Party(job.client)
            &&& t.from == Holder::Escrow ==> (t.to == Holder::Party(job.client) || t.to == Holder::Party(job.freelancer))
            &&& (t.from == Holder::Escrow) != (t.to == Holder::Escrow)
        }),
{
    let ts = step(s, c)->Ok_0.1;
    split_calls(c);
    match c {
        EscrowCall::ReleaseMilestone { job_id, .. } => {
            let j = s.jobs[job_id];
            assert(job_wf(j));
            lemma_first_pending_exists(j.milestones);
            assert(j.milestones[first_pending(j.milestones)].amount > 0);
        },
        EscrowCall::ReleaseFunds { job_id, milestone_index, .. } => {
            let j = s.jobs[job_id];
            assert(job_wf(j));
            assert(j.milestones[milestone_index as int].amount > 0);
        },
        _ => {},
    }
}

/// A disputed job's funds stay locked: the only call that changes a
/// disputed job is the agent judge's resolution.
pub proof fn lemma_disputes_lock_funds(s: EscrowState, c: EscrowCall, id: u64)
    requires
        step(s, c) is Ok,
        s.jobs.contains_key(id),
        s.jobs[id].status == EscrowStatus::Disputed,
        step(s, c)->Ok_0.0.jobs[id] != s.jobs[id],
    ensures
        c is ResolveDispute,
        step(s, c)->Ok_0.0.jobs[id].status == EscrowStatus::Resolved,
{
    split_calls(c);
}

proof fn lemma_no_pending_sum_zero(ms: Seq<Milestone>)
    requires
        !has_pending(ms),
    ensures
        pending_sum(ms) == 0,
    decreases ms.len(),
{
    if ms.len() > 0 {
        let d = ms.drop_last();
        if has_pending(d) {
            let i = choose|i: int| 0 <= i < d.len() && d[i].status == MilestoneStatus::Pending;
            assert(ms[i] == d[i]);
        }
        lemma_no_pending_sum_zero(d);
        assert(ms[ms.len() - 1].status != MilestoneStatus::Pending);
    }
}

/// While a job's totals follow its milestones, everything deposited has
/// been released exactly when no milestone is pending any more.
pub proof fn lemma_all_released_iff_no_pending(j: JobView)
    requires
        job_wf(j),
        follows_milestones(j.status),
    ensures
        j.released_amount == j.total_amount <==> !has_pending(j.milestones),
{
    lemma_sums_split(j.milestones);
    if has_pending(j.milestones) {
        let i = choose|i: int| 0 <= i < j.milestones.len() && j.milestones[i].status == MilestoneStatus::Pending;
        lemma_pending_sum_bound(j.milestones, i);
    } else {
        lemma_no_pending_sum_zero(j.milestones);
    }
}

/// An empty contract is well formed.
pub proof fn lemma_empty_state_wf(s: EscrowState)
    requires
        s.jobs == Map::<u64, JobView>::empty(),
        s.multisig == Map::<u64, MultisigView>::empty(),
    ensures
        state_wf(s),
{
}

/// A created job reads back as created: in setup, with its parties and
/// token, nothing deposited or released, no milestones, no multi-signature
/// control, and a deadline thirty days on.
pub proof fn lemma_created_job_reads_back(s: EscrowState, job_id: u64, client: Address, freelancer: Address, token: Address, now: u64)
    requires
        s.create_job(job_id, client, freelancer, token, now) is Ok,
    ensures
        ({
            let job = s.create_job(job_id, client, freelancer, token, now)->Ok_0.get_job(job_id)->Ok_0;
            &&& s.create_job(job_id, client, freelancer, token, now)->Ok_0.get_job(job_id) is Ok
            &&& job.status == EscrowStatus::Setup
            &&& job.client == client && job.freelancer == freelancer && job.token == token
            &&& job.total_amount == 0 && job.released_amount == 0
            &&& job.milestones.len() == 0
            &&& !job.requires_multisig
            &&& job.created_at == now
            &&& job.expires_at == now + 2_592_000
        }),
{
}

/// After a deposit the job holds exactly the deposit; after a refund it
/// holds nothing.
pub proof fn lemma_deposit_and_refund_balances(s: EscrowState, job_id: u64, amount: i128, client: Address, now: u64)
    requires
        state_wf(s),
    ensures
        s.deposit(job_id, amount, now) is Ok ==> s.deposit(job_id, amount, now)->Ok_0.0.escrow_balance(job_id) == Ok::<i128, EscrowFailure>(amount),
        s.refund(job_id, client, now) is Ok ==> s.refund(job_id, client, now)->Ok_0.0.escrow_balance(job_id) == Ok::<i128, EscrowFailure>(0),
{
    if s.jobs.contains_key(job_id) {
        assert(job_wf(s.jobs[job_id]));
    }
}

/// The state with the reentrancy lock given back.
pub open spec fn unlocked(s: EscrowState) -> EscrowState {
    EscrowState { locked: false, ..s }
}

/// The client releases the milestones of job `job_id` at the indices of
/// `order`, one after another, the host giving the lock back after each:
/// the final state with all the transfers, or the first error.
pub open spec fn release_in_order(s: EscrowState, job_id: u64, caller: Address, order: Seq<u32>) -> Result<(EscrowState, Seq<Transfer>), EscrowFailure>
    decreases order.len(),
{
    if order.len() == 0 {
        Ok((s, Seq::empty()))
    } else {
        match release_in_order(s, job_id, caller, order.drop_last()) {
            Ok((s1, ts)) => match s1.release_funds(job_id, caller, order.last()) {
                Ok((s2, t)) => Ok((unlocked(s2), ts.push(t))),
                Err(e) => Err(e),
            },
            Err(e) => Err(e),
        }
    }
}

/// The milestones with those at the indices of `order` released.
pub open spec fn marked_released(ms: Seq<Milestone>, order: Seq<u32>) -> Seq<Milestone> {
    Seq::new(ms.len(), |k: int| if order.contains(k as u32) {
        Milestone { amount: ms[k].amount, status: MilestoneStatus::Released }
    } else {
        ms[k]
    })
}

/// Every milestone released, amounts unchanged.
pub open spec fn all_released(ms: Seq<Milestone>) -> Seq<Milestone> {
    ms.map_values(|m: Milestone| Milestone { amount: m.amount, status: MilestoneStatus::Released })
}

/// The sum of the amounts of the milestones at the indices of `order`.
pub open spec fn amounts_at(ms: Seq<Milestone>, order: Seq<u32>) -> int
    decreases order.len(),
{
    if order.len() == 0 {
        0
    } else {
        amounts_at(ms, order.drop_last()) + ms[order.last() as int].amount
    }
}

proof fn lemma_contains_push(order: Seq<u32>, x: u32)
    requires
        order.len() > 0,
    ensures
        order.contains(x) <==> (order.drop_last().contains(x) || x == order.last()),
{
    let d = order.drop_last();
    if order.contains(x) {
        let j = choose|j: int| 0 <= j < order.len() && order[j] == x;
        if j < order.len() - 1 {
            assert(d[j] == x);
        }
    }
    if d.contains(x) {
        let j = choose|j: int| 0 <= j < d.len() && d[j] == x;
        assert(order[j] == x);
    }
    if x == order.last() {
        assert(order[order.len() - 1] == x);
    }
}

/// Releasing distinct pending milestones one after another always
/// succeeds, marks exactly those milestones released, adds their amounts
/// to the released total, and pays out exactly those amounts.
proof fn lemma_release_sequence(s: EscrowState, job_id: u64, caller: Address, order: Seq<u32>)
    requires
        !s.locked,
        s.jobs.contains_key(job_id),
        job_wf(s.jobs[job_id]),
        s.jobs[job_id].client == caller,
        is_active(s.jobs[job_id].status),
        s.jobs[job_id].milestones.len() <= u32::MAX,
        order.no_duplicates(),
        forall|j: int| 0 <= j < order.len() ==> (#[trigger] order[j] as int) < s.jobs[job_id].milestones.len()
            && s.jobs[job_id].milestones[order[j] as int].status == MilestoneStatus::Pending,
    ensures
        release_in_order(s, job_id, caller, order) is Ok,
        ({
            let (s2, ts) = release_in_order(s, job_id, caller, order)->Ok_0;
            let j = s.jobs[job_id];
            let j2 = s2.jobs[job_id];
            &&& !s2.locked
            &&& s2.jobs.contains_key(job_id)
            &&& job_wf(j2)
            &&& j2.client == j.client && j2.freelancer == j.freelancer && j2.token == j.token
            &&& j2.total_amount == j.total_amount
            &&& j2.created_at == j.created_at && j2.expires_at == j.expires_at
            &&& j2.requires_multisig == j.requires_multisig
            &&& j2.milestones == marked_released(j.milestones, order)
            &&& j2.released_amount == j.released_amount + amounts_at(j.milestones, order)
            &&& (order.len() == 0 ==> j2.status == j.status)
            &&& (order.len() > 0 ==> j2.status == status_after_release(j2.released_amount as int, j.total_amount as int))
            &&& net_inflow(ts) == -amounts_at(j.milestones, order)
        }),
    decreases order.len(),
{
    let j = s.jobs[job_id];
    let ms = j.milestones;
    if order.len() == 0 {
        assert(marked_released(ms, order) =~= ms);
        return;
    }
    let o1 = order.drop_last();
    let i = order.last();
    assert forall|a: int, b: int| 0 <= a < o1.len() && 0 <= b < o1.len() && a != b implies o1[a] != o1[b] by {
        assert(o1[a] == order[a] && o1[b] == order[b]);
    }
    assert forall|x: int| 0 <= x < o1.len() implies (#[trigger] o1[x] as int) < ms.len() && ms[o1[x] as int].status == MilestoneStatus::Pending by {
        assert(o1[x] == order[x]);
    }
    lemma_release_sequence(s, job_id, caller, o1);
    let (s1, ts1) = release_in_order(s, job_id, caller, o1)->Ok_0;
    let j1 = s1.jobs[job_id];
    assert(job_wf(j1));
    assert((i as int) < ms.len() && ms[i as int].status == MilestoneStatus::Pending) by {
        assert(order[order.len() - 1] == i);
    }
    assert(!o1.contains(i)) by {
        if o1.contains(i) {
            let a = choose|a: int| 0 <= a < o1.len() && o1[a] == i;
            assert(order[a] == order[order.len() - 1]);
        }
    }
    assert(((i as int) as u32) == i);
    assert(j1.milestones[i as int] == ms[i as int]);
    // the job still has a pending milestone, so it is still active
    if o1.len() > 0 {
        assert(follows_milestones(j1.status));
        assert(has_pending(j1.milestones));
        lemma_all_released_iff_no_pending(j1);
    }
    assert(is_active(j1.status));
    lemma_sums_split(j1.milestones);
    lemma_pending_sum_bound(j1.milestones, i as int);
    assert(fits_i128(j1.released_amount + j1.milestones[i as int].amount));
    let (s2, t) = s1.release_funds(job_id, caller, i)->Ok_0;
    lemma_release_keeps_job_wf(j1, i as int);
    let j2 = s2.jobs[job_id];
    assert forall|k: int| 0 <= k < ms.len() implies #[trigger] j2.milestones[k] == marked_released(ms, order)[k] by {
        lemma_contains_push(order, k as u32);
        if k == i as int {
        } else {
            assert((k as u32) != i);
        }
    }
    assert(j2.milestones =~= marked_released(ms, order));
    assert(ts1.push(t).drop_last() =~= ts1);
}

/// Releasing every milestone of a funded job, one by one by index, in any
/// order, always succeeds and always ends in the same job: every milestone
/// released, everything deposited released, the job completed, and the
/// whole deposit paid out.
pub proof fn lemma_release_order_is_irrelevant(s: EscrowState, job_id: u64, caller: Address, order: Seq<u32>)
    requires
        !s.locked,
        s.jobs.contains_key(job_id),
        job_wf(s.jobs[job_id]),
        s.jobs[job_id].status == EscrowStatus::Funded,
        s.jobs[job_id].client == caller,
        s.jobs[job_id].milestones.len() <= u32::MAX,
        order.no_duplicates(),
        forall|j: int| 0 <= j < order.len() ==> (#[trigger] order[j] as int) < s.jobs[job_id].milestones.len(),
        forall|k: u32| (k as int) < s.jobs[job_id].milestones.len() ==> #[trigger] order.contains(k),
    ensures
        release_in_order(s, job_id, caller, order) is Ok,
        ({
            let (s2, ts) = release_in_order(s, job_id, caller, order)->Ok_0;
            let j = s.jobs[job_id];
            let j2 = s2.jobs[job_id];
            &&& s2.jobs.contains_key(job_id)
            &&& j2.milestones == all_released(j.milestones)
            &&& j2.released_amount == j.total_amount
            &&& j2.status == EscrowStatus::Completed
            &&& j2.client == j.client && j2.freelancer == j.freelancer && j2.token == j.token
            &&& j2.total_amount == j.total_amount
            &&& j2.created_at == j.created_at && j2.expires_at == j.expires_at
            &&& j2.requires_multisig == j.requires_multisig
            &&& net_inflow(ts) == -j.total_amount
        }),
{
    let j = s.jobs[job_id];
    let ms = j.milestones;
    assert(job_wf(j));
    assert forall|x: int| 0 <= x < order.len() implies (#[trigger] order[x] as int) < ms.len() && ms[order[x] as int].status == MilestoneStatus::Pending by {}
    lemma_release_sequence(s, job_id, caller, order);
    let (s2, ts) = release_in_order(s, job_id, caller, order)->Ok_0;
    let j2 = s2.jobs[job_id];
    assert(ms.len() > 0) by {
        if ms.len() == 0 {
            assert(milestone_sum(ms) == 0);
        }
    }
    assert(order.len() > 0) by {
        assert(order.contains(0u32));
    }
    assert(j2.milestones =~= all_released(ms)) by {
        assert forall|k: int| 0 <= k < ms.len() implies j2.milestones[k] == all_released(ms)[k] by {
            assert(order.contains(k as u32));
        }
    }
    assert(!has_pending(j2.milestones));
    assert(job_wf(j2));
    lemma_all_released_iff_no_pending(j2);
    lemma_all_pending_released_zero(ms);
}

/// A job under multi-signature control is ready exactly when the
/// signatures collected reach the number required, however many signers
/// the configuration names.
pub proof fn lemma_ready_when_required_signatures_collected(s: EscrowState, job_id: u64)
    requires
        s.jobs.contains_key(job_id),
        s.jobs[job_id].requires_multisig,
        s.multisig.contains_key(job_id),
        s.multisig[job_id].current_signatures.len() <= u32::MAX,
    ensures
        s.multisig_ready(job_id) == Ok::<bool, EscrowError>(
            s.multisig[job_id].current_signatures.len() >= s.multisig[job_id].required_signatures,
        ),
{
}

/// A job without multi-signature control is always ready.
pub proof fn lemma_ready_without_multisig(s: EscrowState, job_id: u64)
    requires
        s.jobs.contains_key(job_id),
        !s.jobs[job_id].requires_multisig,
    ensures
        s.multisig_ready(job_id) == Ok::<bool, EscrowError>(true),
{
}

/// Right after a job is put under multi-signature control it is not
/// ready; once one of the named signers signs, the signature is accepted
/// and the job is ready exactly when one signature was required.
pub proof fn lemma_configure_then_sign(
    s: EscrowState,
    job_id: u64,
    signers: Seq<Address>,
    required: u32,
    signer: Address,
    now: u64,
    later: u64,
)
    requires
        s.configure_multisig(job_id, signers, required, now) is Ok,
        signers.contains(signer),
    ensures
        ({
            let s1 = s.configure_multisig(job_id, signers, required, now)->Ok_0.0;
            &&& s1.multisig_ready(job_id) == Ok::<bool, EscrowError>(false)
            &&& s1.sign_multisig(job_id, signer, later) is Ok
            &&& s1.sign_multisig(job_id, signer, later)->Ok_0.0.multisig_ready(job_id)
                == Ok::<bool, EscrowError>(required == 1)
            &&& s1.sign_multisig(job_id, signer, later)->Ok_0.1.signature_count == 1
        }),
{
    let s1 = s.configure_multisig(job_id, signers, required, now)->Ok_0.0;
    assert(!s1.multisig[job_id].current_signatures.contains(signer));
    let s2 = s1.sign_multisig(job_id, signer, later)->Ok_0.0;
    assert(s2.multisig[job_id].current_signatures.len() == 1);
}

/// Whenever a dispute is opened or raised while a job registry is
/// configured, the outcome tells that registry to mark the job disputed,
/// stamped with the call's time; with no registry configured nothing is
/// sent.
pub proof fn lemma_disputes_notify_registry(s: EscrowState, job_id: u64, caller: Address, now: u64)
    ensures
        s.open_dispute(job_id, caller, now) is Ok ==> match s.job_registry {
            Some(r) => s.open_dispute(job_id, caller, now)->Ok_0.1.registry_sync
                == Some(RegistryDisputeSyncedEvent { job_id, registry_contract: r, synced_at: now }),
            None => s.open_dispute(job_id, caller, now)->Ok_0.1.registry_sync is None,
        },
        s.raise_dispute(job_id, caller, now) is Ok ==> match s.job_registry {
            Some(r) => s.raise_dispute(job_id, caller, now)->Ok_0.1.registry_sync
                == Some(RegistryDisputeSyncedEvent { job_id, registry_contract: r, synced_at: now }),
            None => s.raise_dispute(job_id, caller, now)->Ok_0.1.registry_sync is None,
        },
{
}

/// A party of an active job can open a dispute on it at any time, before
/// or after its deadline: the job becomes disputed, nothing else of it or
/// of any other job changes, and the event names the caller and the time.
pub proof fn lemma_parties_can_open_dispute(s: EscrowState, job_id: u64, caller: Address, now: u64)
    requires
        s.jobs.contains_key(job_id),
        is_active(s.jobs[job_id].status),
        caller == s.jobs[job_id].client || caller == s.jobs[job_id].freelancer,
    ensures
        s.open_dispute(job_id, caller, now) is Ok,
        ({
            let (s2, out) = s.open_dispute(job_id, caller, now)->Ok_0;
            &&& s2.jobs == s.jobs.insert(job_id, JobView { status: EscrowStatus::Disputed, ..s.jobs[job_id] })
            &&& s2.multisig == s.multisig
            &&& s2.locked == s.locked
            &&& out.event.job_id == job_id
            &&& out.event.initiator == caller
            &&& out.event.opened_at == now
        }),
{
}

/// Only a party of an active job can open a dispute on it.
pub proof fn lemma_open_dispute_refusals(s: EscrowState, job_id: u64, caller: Address, now: u64)
    ensures
        !s.jobs.contains_key(job_id) ==> s.open_dispute(job_id, caller, now) == Err::<
            (EscrowState, crate::escrow_types::DisputeOutcome<crate::escrow_types::OpenDisputeEvent>),
            EscrowError,
        >(EscrowError::JobNotFound),
        s.jobs.contains_key(job_id) && !is_active(s.jobs[job_id].status) ==> s.open_dispute(job_id, caller, now) is Err,
        s.jobs.contains_key(job_id) && !(caller == s.jobs[job_id].client || caller == s.jobs[job_id].freelancer)
            ==> s.open_dispute(job_id, caller, now) is Err,
{
}

/// A party of an active job that still holds funds can raise a dispute
/// until seven days after the job's deadline, and not later: the job
/// becomes disputed and nothing else of it changes.
pub proof fn lemma_raise_dispute_window(s: EscrowState, job_id: u64, caller: Address, now: u64)
    requires
        s.jobs.contains_key(job_id),
        is_active(s.jobs[job_id].status),
        caller == s.jobs[job_id].client || caller == s.jobs[job_id].freelancer,
        s.jobs[job_id].released_amount < s.jobs[job_id].total_amount,
        s.jobs[job_id].expires_at + 604_800 <= u64::MAX,
    ensures
        now <= s.jobs[job_id].expires_at + 604_800 ==> {
            &&& s.raise_dispute(job_id, caller, now) is Ok
            &&& s.raise_dispute(job_id, caller, now)->Ok_0.0.jobs
                == s.jobs.insert(job_id, JobView { status: EscrowStatus::Disputed, ..s.jobs[job_id] })
            &&& s.raise_dispute(job_id, caller, now)->Ok_0.1.event.initiator == caller
            &&& s.raise_dispute(job_id, caller, now)->Ok_0.1.event.raised_at == now
        },
        now > s.jobs[job_id].expires_at + 604_800 ==> s.raise_dispute(job_id, caller, now)
            == Err::<(EscrowState, crate::escrow_types::DisputeOutcome<crate::escrow_types::DisputeRaisedEvent>), EscrowFailure>(
                EscrowFailure::Error(EscrowError::InvalidState),
            ),
{
}

/// A release pays the freelancer the earliest pending milestone of the
/// job: that milestone alone is marked released, its amount is added to
/// what the job has released, and the job completes exactly when all it
/// holds has been released.
pub proof fn lemma_release_milestone_pays_earliest_pending(s: EscrowState, job_id: u64, caller: Address, now: u64)
    requires
        s.release_milestone(job_id, caller, now) is Ok,
    ensures
        s.jobs.contains_key(job_id),
        caller == s.jobs[job_id].client,
        is_active(s.jobs[job_id].status),
        exists|i: int| #![trigger s.jobs[job_id].milestones[i]] {
            let job = s.jobs[job_id];
            let (s2, (t, ev)) = s.release_milestone(job_id, caller, now)->Ok_0;
            let m = job.milestones[i];
            &&& 0 <= i < job.milestones.len()
            &&& m.status == MilestoneStatus::Pending
            &&& forall|j: int| 0 <= j < i ==> (#[trigger] job.milestones[j]).status != MilestoneStatus::Pending
            &&& s2.jobs[job_id].milestones
                == job.milestones.update(i, Milestone { amount: m.amount, status: MilestoneStatus::Released })
            &&& s2.jobs[job_id].released_amount == job.released_amount + m.amount
            &&& (s2.jobs[job_id].status == EscrowStatus::Completed
                <==> s2.jobs[job_id].released_amount == job.total_amount)
            &&& s2.jobs[job_id].total_amount == job.total_amount
            &&& t == Transfer { token: job.token, from: Holder::Escrow, to: Holder::Party(job.freelancer), amount: m.amount }
            &&& ev.amount == m.amount
            &&& ev.released_at == now
            &&& (i <= u32::MAX ==> ev.milestone_index == i)
        },
{
    let job = s.jobs[job_id];
    lemma_first_pending_exists(job.milestones);
    let i = first_pending(job.milestones);
    assert(job.milestones[i] == job.milestones[i]);
}

/// A deposit funds a job in setup with exactly the sum of its milestones,
/// taken from the client into the escrow; the job becomes funded and holds
/// the deposit.
pub proof fn lemma_deposit_takes_milestone_sum(s: EscrowState, job_id: u64, amount: i128, now: u64)
    requires
        s.deposit(job_id, amount, now) is Ok,
    ensures
        ({
            let job = s.jobs[job_id];
            let (s2, (t, ev)) = s.deposit(job_id, amount, now)->Ok_0;
            &&& s.jobs.contains_key(job_id)
            &&& job.status == EscrowStatus::Setup
            &&& job.milestones.len() > 0
            &&& amount > 0
            &&& amount == milestone_sum(job.milestones)
            &&& t == Transfer { token: job.token, from: Holder::Party(job.client), to: Holder::Escrow, amount }
            &&& s2.jobs[job_id] == JobView { total_amount: amount, status: EscrowStatus::Funded, ..job }
            &&& ev.amount == amount && ev.job_id == job_id && ev.deposited_at == now
        }),
{
    lemma_checked_sum_is_sum(s.jobs[job_id].milestones);
}

/// A deposit of the wrong amount into a job in setup is refused.
pub proof fn lemma_deposit_needs_exact_sum(s: EscrowState, job_id: u64, amount: i128, now: u64)
    requires
        s.jobs.contains_key(job_id),
        s.jobs[job_id].status == EscrowStatus::Setup,
        amount != milestone_sum(s.jobs[job_id].milestones),
    ensures
        s.deposit(job_id, amount, now) is Err,
{
    lemma_checked_sum_is_sum(s.jobs[job_id].milestones);
}

/// A refund gives the client everything the job still holds and closes
/// the job as refunded.
pub proof fn lemma_refund_returns_what_is_held(s: EscrowState, job_id: u64, client: Address, now: u64)
    requires
        s.refund(job_id, client, now) is Ok,
    ensures
        ({
            let job = s.jobs[job_id];
            let (s2, (t, ev)) = s.refund(job_id, client, now)->Ok_0;
            let held = job.total_amount - job.released_amount;
            &&& s.jobs.contains_key(job_id)
            &&& client == job.client
            &&& is_active(job.status)
            &&& ev.amount == held
            &&& (held > 0 ==> t == Some(Transfer { token: job.token, from: Holder::Escrow, to: Holder::Party(client), amount: held as i128 }))
            &&& (held <= 0 ==> t is None)
            &&& s2.jobs[job_id].status == EscrowStatus::Refunded
            &&& s2.jobs[job_id].released_amount == job.total_amount
            &&& s2.jobs[job_id].milestones == job.milestones
        }),
{
}

/// The client of a funded job can take its funds back at any time; once
/// the freelancer has been paid part of the work, only after the deadline.
pub proof fn lemma_refund_window(s: EscrowState, job_id: u64, now: u64)
    requires
        !s.locked,
        s.jobs.contains_key(job_id),
        job_wf(s.jobs[job_id]),
    ensures
        s.jobs[job_id].status == EscrowStatus::Funded ==> s.refund(job_id, s.jobs[job_id].client, now) is Ok,
        s.jobs[job_id].status == EscrowStatus::WorkInProgress ==> (
            s.refund(job_id, s.jobs[job_id].client, now) is Ok <==> now > s.jobs[job_id].expires_at),
{
}

/// A resolution pays the freelancer's share to the freelancer and the
/// client's share to the client, each only when positive, out of what the
/// disputed job holds; the job is resolved with both shares counted as
/// released.
pub proof fn lemma_resolution_pays_shares(s: EscrowState, job_id: u64, payee_amount: i128, payer_amount: i128)
    requires
        s.resolve_dispute(job_id, payee_amount, payer_amount) is Ok,
    ensures
        ({
            let job = s.jobs[job_id];
            let (s2, ts) = s.resolve_dispute(job_id, payee_amount, payer_amount)->Ok_0;
            let to_freelancer = Transfer { token: job.token, from: Holder::Escrow, to: Holder::Party(job.freelancer), amount: payee_amount };
            let to_client = Transfer { token: job.token, from: Holder::Escrow, to: Holder::Party(job.client), amount: payer_amount };
            &&& s.jobs.contains_key(job_id)
            &&& job.status == EscrowStatus::Disputed
            &&& payee_amount >= 0 && payer_amount >= 0
            &&& payee_amount + payer_amount <= job.total_amount - job.released_amount
            &&& s2.jobs[job_id].status == EscrowStatus::Resolved
            &&& s2.jobs[job_id].released_amount == job.released_amount + payee_amount + payer_amount
            &&& ts.len() == (if payee_amount > 0 { 1int } else { 0int }) + (if payer_amount > 0 { 1int } else { 0int })
            &&& (payee_amount > 0 ==> ts[0] == to_freelancer)
            &&& (payer_amount > 0 ==> ts[ts.len() - 1] == to_client)
        }),
{
}

/// A milestone is added to a job in setup at the end of its list, pending,
/// with the amount given; nothing else of the job changes.
pub proof fn lemma_add_milestone_appends(s: EscrowState, job_id: u64, amount: i128)
    ensures
        s.add_milestone(job_id, amount) is Ok <==> (
            s.jobs.contains_key(job_id) && s.jobs[job_id].status == EscrowStatus::Setup && amount > 0),
        s.add_milestone(job_id, amount) is Ok ==> s.add_milestone(job_id, amount)->Ok_0.jobs == s.jobs.insert(
            job_id,
            JobView {
                milestones: s.jobs[job_id].milestones.push(Milestone { amount, status: MilestoneStatus::Pending }),
                ..s.jobs[job_id]
            },
        ),
{
}

/// What a stored job holds is its deposit less what it has released.
pub proof fn lemma_escrow_balance_is_deposit_less_released(s: EscrowState, job_id: u64)
    requires
        s.jobs.contains_key(job_id),
        job_wf(s.jobs[job_id]),
    ensures
        s.escrow_balance(job_id) == Ok::<i128, EscrowFailure>(
            (s.jobs[job_id].total_amount - s.jobs[job_id].released_amount) as i128,
        ),
        0 <= s.jobs[job_id].total_amount - s.jobs[job_id].released_amount,
{
}

/// A signature is accepted once from each named signer, and is added to
/// those collected; a signer not named, or one who already signed, is
/// refused.
pub proof fn lemma_sign_collects_once(s: EscrowState, job_id: u64, signer: Address, now: u64)
    requires
        s.jobs.contains_key(job_id),
        s.jobs[job_id].requires_multisig,
        s.multisig.contains_key(job_id),
    ensures
        s.sign_multisig(job_id, signer, now) is Ok <==> (
            s.multisig[job_id].signers.contains(signer) && !s.multisig[job_id].current_signatures.contains(signer)),
        s.sign_multisig(job_id, signer, now) is Ok ==> {
            &&& s.sign_multisig(job_id, signer, now)->Ok_0.0.multisig[job_id].current_signatures
                == s.multisig[job_id].current_signatures.push(signer)
            &&& s.sign_multisig(job_id, signer, now)->Ok_0.0.multisig[job_id].signers == s.multisig[job_id].signers
            &&& s.sign_multisig(job_id, signer, now)->Ok_0.0.multisig[job_id].required_signatures
                == s.multisig[job_id].required_signatures
            &&& s.sign_multisig(job_id, signer, now)->Ok_0.0.jobs == s.jobs
        },
        !s.multisig[job_id].signers.contains(signer) ==> s.sign_multisig(job_id, signer, now)
            == Err::<(EscrowState, crate::escrow_types::MultisigSignedEvent), EscrowError>(EscrowError::Unauthorized),
{
}

} // verus!
