use lance::address::{Address, Bytes32};
use lance::escrow::EscrowContract;
use lance::escrow_types::{
    EscrowAbort, EscrowError, EscrowFailure, EscrowStatus, Holder, MilestoneStatus, Transfer,
};

const NOW: u64 = 1_700_000_000;
const DAY: u64 = 86_400;

fn admin() -> Address {
    Address::account(1)
}
fn judge() -> Address {
    Address::account(2)
}
fn client() -> Address {
    Address::account(3)
}
fn freelancer() -> Address {
    Address::account(4)
}
fn token() -> Address {
    Address::contract(100)
}

/// A contract with job `id` funded with milestones of `amounts`.
fn funded(id: u64, amounts: &[i128]) -> EscrowContract {
    let mut c = EscrowContract::new();
    c.initialize(admin(), judge(), NOW).unwrap();
    c.create_job(id, client(), freelancer(), token(), NOW).unwrap();
    for a in amounts {
        c.add_milestone(id, *a).unwrap();
    }
    let total: i128 = amounts.iter().sum();
    c.deposit(id, total, NOW).unwrap();
    c.release_guard();
    c
}

fn held(c: &EscrowContract, id: u64) -> i128 {
    c.get_escrow_balance(id).unwrap()
}

fn inflow(ts: &[Transfer]) -> i128 {
    ts.iter()
        .map(|t| match (t.from, t.to) {
            (Holder::Escrow, Holder::Party(_)) => -t.amount,
            (Holder::Party(_), Holder::Escrow) => t.amount,
            _ => 0,
        })
        .sum()
}

#[test]
fn permitted_transitions_table() {
    let all = [EscrowStatus::Setup, EscrowStatus::Funded, EscrowStatus::WorkInProgress, EscrowStatus::Completed, EscrowStatus::Disputed, EscrowStatus::Resolved, EscrowStatus::Refunded];
    let permitted = [
        (EscrowStatus::Setup, EscrowStatus::Funded),
        (EscrowStatus::Funded, EscrowStatus::WorkInProgress),
        (EscrowStatus::Funded, EscrowStatus::Completed),
        (EscrowStatus::Funded, EscrowStatus::Disputed),
        (EscrowStatus::Funded, EscrowStatus::Refunded),
        (EscrowStatus::WorkInProgress, EscrowStatus::WorkInProgress),
        (EscrowStatus::WorkInProgress, EscrowStatus::Completed),
        (EscrowStatus::WorkInProgress, EscrowStatus::Disputed),
        (EscrowStatus::WorkInProgress, EscrowStatus::Refunded),
        (EscrowStatus::Disputed, EscrowStatus::Resolved),
    ];
    for a in all {
        for b in all {
            let r = a.validate_transition(&b);
            if permitted.contains(&(a, b)) {
                assert_eq!(r, Ok(()));
            } else {
                assert_eq!(r, Err(EscrowError::InvalidStateTransition));
                assert_eq!(r.unwrap_err().code(), 11);
            }
        }
    }
}

#[test]
fn error_codes_are_numbered() {
    let all = [
        EscrowError::AlreadyInitialized,
        EscrowError::NotInitialized,
        EscrowError::Unauthorized,
        EscrowError::InvalidInput,
        EscrowError::JobNotFound,
        EscrowError::InvalidState,
        EscrowError::AmountMismatch,
        EscrowError::NoPendingMilestones,
        EscrowError::JobRegistrySyncFailed,
        EscrowError::UpgradeUnauthorized,
        EscrowError::InvalidStateTransition,
        EscrowError::ReentrancyDetected,
        EscrowError::MultisigRequired,
        EscrowError::InsufficientSignatures,
        EscrowError::AlreadySigned,
        EscrowError::ArithmeticError,
        EscrowError::UpgradeAdminAlreadySet,
        EscrowError::UpgradeAdminNotSet,
    ];
    for (i, e) in all.iter().enumerate() {
        assert_eq!(e.code(), i as u32 + 1);
    }
}

#[test]
fn guarded_calls_fail_while_locked() {
    let mut c = EscrowContract::new();
    c.initialize(admin(), judge(), NOW).unwrap();
    c.create_job(1, client(), freelancer(), token(), NOW).unwrap();
    c.add_milestone(1, 100).unwrap();
    c.add_milestone(1, 200).unwrap();
    c.deposit(1, 300, NOW).unwrap();
    // the lock is held until the host has moved the tokens
    let before = c.get_job(1).unwrap();
    assert_eq!(c.release_milestone(1, client(), NOW).unwrap_err(), EscrowError::ReentrancyDetected);
    assert_eq!(c.release_funds(1, client(), 1).unwrap_err(), EscrowFailure::Error(EscrowError::ReentrancyDetected));
    assert_eq!(c.refund(1, client(), NOW).unwrap_err(), EscrowError::ReentrancyDetected);
    assert_eq!(c.release_milestone(1, client(), NOW).unwrap_err().code(), 12);
    let after = c.get_job(1).unwrap();
    assert_eq!(before.released_amount, after.released_amount);
    assert_eq!(before.status, after.status);
    // checks that come before the lock still answer first
    assert_eq!(c.release_milestone(1, freelancer(), NOW).unwrap_err(), EscrowError::Unauthorized);
    c.release_guard();
    assert!(c.release_milestone(1, client(), NOW).is_ok());
    assert!(c.locked);
}

#[test]
fn failed_calls_change_nothing() {
    let mut c = funded(1, &[100, 200]);
    let before = c.get_job(1).unwrap();
    assert_eq!(c.release_funds(1, client(), 7).unwrap_err(), EscrowFailure::Abort(EscrowAbort::InvalidMilestoneIndex));
    assert_eq!(c.release_funds(1, freelancer(), 0).unwrap_err(), EscrowFailure::Abort(EscrowAbort::OnlyClientCanRelease));
    assert_eq!(c.resolve_dispute(1, 10, 10).unwrap_err(), EscrowFailure::Abort(EscrowAbort::JobNotDisputed));
    assert_eq!(c.raise_dispute(1, judge(), NOW).unwrap_err(), EscrowFailure::Abort(EscrowAbort::NotAParty));
    assert_eq!(c.add_milestone(1, 5).unwrap_err(), EscrowError::InvalidState);
    assert_eq!(c.refund(1, freelancer(), NOW).unwrap_err(), EscrowError::Unauthorized);
    let after = c.get_job(1).unwrap();
    assert_eq!(before.status, after.status);
    assert_eq!(before.released_amount, after.released_amount);
    assert_eq!(before.milestones, after.milestones);
    assert!(!c.locked);
}

#[test]
fn other_jobs_are_untouched() {
    let mut c = funded(1, &[100, 200]);
    c.create_job(2, client(), freelancer(), token(), NOW).unwrap();
    c.add_milestone(2, 50).unwrap();
    c.release_milestone(1, client(), NOW).unwrap();
    c.release_guard();
    let other = c.get_job(2).unwrap();
    assert_eq!(other.status, EscrowStatus::Setup);
    assert_eq!(other.milestones.len(), 1);
    assert_eq!(other.total_amount, 0);
}

#[test]
fn books_follow_transfers() {
    let mut c = funded(1, &[100, 200, 300]);
    assert_eq!(held(&c, 1), 600);
    let (t, ev) = c.release_milestone(1, client(), NOW).unwrap();
    c.release_guard();
    assert_eq!(ev.milestone_index, 0);
    assert_eq!(ev.amount, 100);
    assert_eq!(t.token, token());
    assert_eq!(t.to, Holder::Party(freelancer()));
    assert_eq!(held(&c, 1), 600 + inflow(&[t]));
    let before = held(&c, 1);
    c.open_dispute(1, client(), NOW).unwrap();
    assert_eq!(held(&c, 1), before);
    let ts = c.resolve_dispute(1, 150, 50).unwrap();
    c.release_guard();
    assert_eq!(ts.len(), 2);
    assert_eq!(ts[0].to, Holder::Party(freelancer()));
    assert_eq!(ts[1].to, Holder::Party(client()));
    assert_eq!(held(&c, 1), before + inflow(&ts));
    assert_eq!(held(&c, 1), 300);
}

#[test]
fn resolution_pays_only_positive_shares() {
    let mut c = funded(1, &[1000]);
    c.raise_dispute(1, client(), NOW).unwrap();
    let ts = c.resolve_dispute(1, 0, 0).unwrap();
    assert!(ts.is_empty());
    assert_eq!(c.get_job(1).unwrap().status, EscrowStatus::Resolved);
    assert_eq!(held(&c, 1), 1000);
}

#[test]
fn resolution_errors() {
    let mut c = EscrowContract::new();
    assert_eq!(c.resolve_dispute(1, 1, 1).unwrap_err(), EscrowFailure::Error(EscrowError::NotInitialized));
    let mut c2 = funded(1, &[1000]);
    c2.open_dispute(1, freelancer(), NOW).unwrap();
    assert_eq!(c2.resolve_dispute(1, -1, 0).unwrap_err(), EscrowFailure::Error(EscrowError::InvalidInput));
    assert_eq!(c2.resolve_dispute(2, 1, 0).unwrap_err(), EscrowFailure::Error(EscrowError::JobNotFound));
    assert_eq!(c2.resolve_dispute(1, 600, 401).unwrap_err(), EscrowFailure::Error(EscrowError::AmountMismatch));
    assert_eq!(c2.resolve_dispute(1, i128::MAX, 1).unwrap_err(), EscrowFailure::Error(EscrowError::ArithmeticError));
    c.initialize(admin(), judge(), NOW).unwrap();
}

#[test]
fn final_jobs_are_frozen() {
    let mut c = funded(1, &[500]);
    c.release_milestone(1, client(), NOW).unwrap();
    c.release_guard();
    assert_eq!(c.get_job(1).unwrap().status, EscrowStatus::Completed);
    assert_eq!(c.refund(1, client(), NOW).unwrap_err(), EscrowError::InvalidState);
    assert_eq!(c.open_dispute(1, client(), NOW).unwrap_err(), EscrowError::InvalidState);
    assert_eq!(c.raise_dispute(1, client(), NOW).unwrap_err(), EscrowFailure::Abort(EscrowAbort::DisputeOnInactiveJob));
    assert_eq!(c.release_funds(1, client(), 0).unwrap_err(), EscrowFailure::Abort(EscrowAbort::MilestoneAlreadyReleased));
    assert_eq!(c.deposit(1, 500, NOW).unwrap_err(), EscrowError::InvalidState);
    assert_eq!(c.add_milestone(1, 5).unwrap_err(), EscrowError::InvalidState);

    let mut r = funded(2, &[500, 500]);
    let (t, ev) = r.refund(2, client(), NOW).unwrap();
    r.release_guard();
    assert_eq!(t, Some(Transfer { token: token(), from: Holder::Escrow, to: Holder::Party(client()), amount: 1000 }));
    assert_eq!(ev.amount, 1000);
    assert_eq!(r.get_job(2).unwrap().status, EscrowStatus::Refunded);
    assert_eq!(held(&r, 2), 0);
    assert_eq!(r.refund(2, client(), NOW).unwrap_err(), EscrowError::InvalidState);
}

#[test]
fn dispute_deadline() {
    let mut c = funded(1, &[500]);
    let expires = c.get_job(1).unwrap().expires_at;
    assert_eq!(expires, NOW + 30 * DAY);
    assert_eq!(c.raise_dispute(1, client(), expires + 7 * DAY + 1).unwrap_err(), EscrowFailure::Error(EscrowError::InvalidState));
    assert!(c.raise_dispute(1, client(), expires + 7 * DAY).is_ok());
}

#[test]
fn arithmetic_limits() {
    let mut c = EscrowContract::new();
    assert_eq!(
        c.create_job(1, client(), freelancer(), token(), u64::MAX - 30 * DAY + 1).unwrap_err(),
        EscrowFailure::Error(EscrowError::ArithmeticError)
    );
    c.create_job(1, client(), freelancer(), token(), u64::MAX - 30 * DAY).unwrap();
    c.add_milestone(1, 10).unwrap();
    c.deposit(1, 10, 0).unwrap();
    c.release_guard();
    // the deadline plus the grace period does not fit
    assert_eq!(c.raise_dispute(1, client(), 0).unwrap_err(), EscrowFailure::Error(EscrowError::ArithmeticError));

    let mut d = EscrowContract::new();
    d.create_job(2, client(), freelancer(), token(), NOW).unwrap();
    d.add_milestone(2, i128::MAX).unwrap();
    d.add_milestone(2, 1).unwrap();
    assert_eq!(d.deposit(2, 5, NOW).unwrap_err(), EscrowError::ArithmeticError);
}

#[test]
fn raise_dispute_counts_released_milestones() {
    let mut c = funded(1, &[1, 2, 3]);
    c.release_funds(1, client(), 2).unwrap();
    c.release_guard();
    let out = c.raise_dispute(1, freelancer(), NOW).unwrap();
    assert_eq!(out.event.milestones_released, 1);
    assert_eq!(out.event.milestones_total, 3);
    assert!(out.registry_sync.is_none());
}

#[test]
fn fully_paid_job_cannot_be_disputed() {
    let mut c = funded(1, &[5, 5]);
    c.release_funds(1, client(), 0).unwrap();
    c.release_guard();
    assert_eq!(c.get_job(1).unwrap().status, EscrowStatus::WorkInProgress);
    assert_eq!(c.get_milestone_status(1).unwrap(), vec![MilestoneStatus::Released, MilestoneStatus::Pending]);
    c.release_funds(1, client(), 1).unwrap();
    c.release_guard();
    assert_eq!(c.raise_dispute(1, client(), NOW).unwrap_err(), EscrowFailure::Abort(EscrowAbort::DisputeOnInactiveJob));
}

#[test]
fn registry_is_notified_of_disputes() {
    let mut c = funded(1, &[5]);
    assert_eq!(c.set_job_registry(Address::contract(7), NOW).unwrap().configured_by, admin());
    assert_eq!(c.get_job_registry(), Some(Address::contract(7)));
    let out = c.open_dispute(1, client(), NOW).unwrap();
    let sync = out.registry_sync.unwrap();
    assert_eq!(sync.registry_contract, Address::contract(7));
    assert_eq!(sync.job_id, 1);
    assert_eq!(out.event.initiator, client());
}

#[test]
fn admin_is_set_once() {
    let mut c = EscrowContract::new();
    assert_eq!(c.get_admin().unwrap_err(), EscrowError::NotInitialized);
    assert_eq!(c.get_agent_judge().unwrap_err(), EscrowError::NotInitialized);
    assert_eq!(c.set_agent_judge(judge(), NOW).unwrap_err(), EscrowError::NotInitialized);
    assert_eq!(c.set_job_registry(judge(), NOW).unwrap_err(), EscrowError::NotInitialized);
    assert_eq!(c.initialize(admin(), admin(), NOW).unwrap_err(), EscrowError::InvalidInput);
    let ev = c.initialize(admin(), judge(), NOW).unwrap();
    assert_eq!(ev.admin, admin());
    assert_eq!(ev.agent_judge, judge());
    assert_eq!(c.initialize(judge(), admin(), NOW).unwrap_err(), EscrowError::AlreadyInitialized);
    assert_eq!(c.get_admin().unwrap(), admin());
    assert_eq!(c.set_agent_judge(admin(), NOW).unwrap_err(), EscrowError::InvalidInput);
    let change = c.set_agent_judge(Address::account(9), NOW).unwrap();
    assert_eq!(change.admin, admin());
    assert_eq!(c.get_agent_judge().unwrap(), Address::account(9));
    assert_eq!(c.get_admin().unwrap(), admin());
}

#[test]
fn upgrade_admin_rules() {
    let mut c = EscrowContract::new();
    let hash = Bytes32 { hi: 1, lo: 2 };
    assert_eq!(c.get_upgrade_admin().unwrap_err(), EscrowError::UpgradeAdminNotSet);
    assert_eq!(c.upgrade(admin(), hash, NOW).unwrap_err(), EscrowError::UpgradeAdminNotSet);
    assert_eq!(c.set_upgrade_admin(admin(), judge(), NOW).unwrap_err(), EscrowError::UpgradeAdminNotSet);
    let ev = c.init_upgrade_admin(admin(), NOW).unwrap();
    assert_eq!(ev.old_admin, None);
    assert_eq!(c.init_upgrade_admin(judge(), NOW).unwrap_err(), EscrowError::UpgradeAdminAlreadySet);
    assert_eq!(c.upgrade(judge(), hash, NOW).unwrap_err(), EscrowError::UpgradeUnauthorized);
    let up = c.upgrade(admin(), hash, NOW).unwrap();
    assert_eq!(up.new_wasm_hash, hash);
    assert_eq!(c.set_upgrade_admin(judge(), judge(), NOW).unwrap_err(), EscrowError::Unauthorized);
    let ev = c.set_upgrade_admin(admin(), judge(), NOW).unwrap();
    assert_eq!(ev.old_admin, Some(admin()));
    assert_eq!(c.get_upgrade_admin().unwrap(), judge());
}

#[test]
fn multisig_rules() {
    let mut c = EscrowContract::new();
    c.create_job(1, client(), freelancer(), token(), NOW).unwrap();
    assert_eq!(c.check_multisig_ready(1), Ok(true));
    assert_eq!(c.check_multisig_ready(2).unwrap_err(), EscrowError::JobNotFound);
    assert_eq!(c.get_multisig_config(1).unwrap_err(), EscrowError::InvalidInput);
    assert_eq!(c.sign_multisig(1, Address::account(10), NOW).unwrap_err(), EscrowError::InvalidInput);
    let s1 = Address::account(10);
    let s2 = Address::account(11);
    assert_eq!(c.configure_multisig(1, vec![], 1, NOW).unwrap_err(), EscrowError::InvalidInput);
    assert_eq!(c.configure_multisig(1, vec![s1], 0, NOW).unwrap_err(), EscrowError::InvalidInput);
    assert_eq!(c.configure_multisig(1, vec![s1], 2, NOW).unwrap_err(), EscrowError::InvalidInput);
    let ev = c.configure_multisig(1, vec![s1, s2], 2, NOW).unwrap();
    assert_eq!(ev.total_signers, 2);
    assert!(c.get_job(1).unwrap().requires_multisig);
    assert_eq!(c.check_multisig_ready(1), Ok(false));
    assert_eq!(c.sign_multisig(1, Address::account(12), NOW).unwrap_err(), EscrowError::Unauthorized);
    assert_eq!(c.sign_multisig(1, s1, NOW).unwrap().signature_count, 1);
    assert_eq!(c.sign_multisig(1, s1, NOW).unwrap_err(), EscrowError::AlreadySigned);
    assert_eq!(c.check_multisig_ready(1), Ok(false));
    assert_eq!(c.sign_multisig(1, s2, NOW).unwrap().signature_count, 2);
    assert_eq!(c.check_multisig_ready(1), Ok(true));
    assert_eq!(c.get_multisig_config(1).unwrap().current_signatures, vec![s1, s2]);
}

#[test]
fn multisig_only_in_setup() {
    let mut c = funded(1, &[5]);
    assert_eq!(c.configure_multisig(1, vec![client()], 1, NOW).unwrap_err(), EscrowError::InvalidState);
    assert_eq!(c.configure_multisig(9, vec![client()], 1, NOW).unwrap_err(), EscrowError::JobNotFound);
}

#[test]
fn missing_jobs() {
    let mut c = EscrowContract::new();
    assert_eq!(c.add_milestone(1, 5).unwrap_err(), EscrowError::JobNotFound);
    assert_eq!(c.deposit(1, 5, NOW).unwrap_err(), EscrowError::JobNotFound);
    assert_eq!(c.release_milestone(1, client(), NOW).unwrap_err(), EscrowError::JobNotFound);
    assert_eq!(c.release_funds(1, client(), 0).unwrap_err(), EscrowFailure::Error(EscrowError::JobNotFound));
    assert_eq!(c.open_dispute(1, client(), NOW).unwrap_err(), EscrowError::JobNotFound);
    assert_eq!(c.raise_dispute(1, client(), NOW).unwrap_err(), EscrowFailure::Error(EscrowError::JobNotFound));
    assert_eq!(c.refund(1, client(), NOW).unwrap_err(), EscrowError::JobNotFound);
    assert_eq!(c.get_escrow_balance(1).unwrap_err(), EscrowFailure::Abort(EscrowAbort::JobNotFound));
    assert_eq!(c.get_job(1).unwrap_err(), EscrowFailure::Abort(EscrowAbort::JobNotFound));
    assert_eq!(c.get_milestone_status(1).unwrap_err(), EscrowError::JobNotFound);
}

#[test]
fn milestones_must_be_positive() {
    let mut c = EscrowContract::new();
    c.create_job(1, client(), freelancer(), token(), NOW).unwrap();
    assert_eq!(c.add_milestone(1, 0).unwrap_err(), EscrowError::InvalidInput);
    assert_eq!(c.add_milestone(1, -3).unwrap_err(), EscrowError::InvalidInput);
    let job = c.get_job(1).unwrap();
    assert!(job.milestones.is_empty());
    assert_eq!(job.created_at, NOW);
    assert!(!job.requires_multisig);
}

#[test]
fn refund_needs_unpaid_freelancer_or_passed_deadline() {
    let mut c = funded(1, &[100, 200]);
    c.release_funds(1, client(), 0).unwrap();
    c.release_guard();
    let expires = c.get_job(1).unwrap().expires_at;
    assert_eq!(c.refund(1, client(), NOW).unwrap_err(), EscrowError::InvalidState);
    assert_eq!(c.refund(1, client(), expires).unwrap_err(), EscrowError::InvalidState);
    assert_eq!(c.get_job(1).unwrap().status, EscrowStatus::WorkInProgress);
    let (t, ev) = c.refund(1, client(), expires + 1).unwrap();
    c.release_guard();
    assert_eq!(t, Some(Transfer { token: token(), from: Holder::Escrow, to: Holder::Party(client()), amount: 200 }));
    assert_eq!(ev.amount, 200);
    assert_eq!(c.get_job(1).unwrap().status, EscrowStatus::Refunded);
    // a funded job whose freelancer has not been paid can be refunded at once
    let mut f = funded(2, &[300]);
    assert!(f.refund(2, client(), NOW).is_ok());
}

#[test]
fn release_order_does_not_matter() {
    let orders: [[u32; 3]; 6] = [[0, 1, 2], [0, 2, 1], [1, 0, 2], [1, 2, 0], [2, 0, 1], [2, 1, 0]];
    let mut finals = Vec::new();
    for order in orders {
        let mut c = funded(1, &[100, 250, 650]);
        let mut paid = 0;
        for i in order {
            let t = c.release_funds(1, client(), i).unwrap();
            c.release_guard();
            assert_eq!(t.to, Holder::Party(freelancer()));
            paid += t.amount;
        }
        assert_eq!(paid, 1000);
        let job = c.get_job(1).unwrap();
        assert_eq!(job.status, EscrowStatus::Completed);
        assert_eq!(job.released_amount, 1000);
        finals.push((job.milestones.clone(), job.released_amount, job.status));
    }
    for f in &finals {
        assert_eq!(f, &finals[0]);
    }
}

#[test]
fn abort_messages() {
    assert_eq!(EscrowAbort::JobAlreadyExists.message(), "job already exists");
    assert_eq!(EscrowAbort::JobNotFound.message(), "job not found");
    assert_eq!(EscrowAbort::InvalidMilestoneIndex.message(), "invalid milestone index");
    assert_eq!(EscrowAbort::MilestoneAlreadyReleased.message(), "milestone already released");
    assert_eq!(EscrowAbort::OnlyClientCanRelease.message(), "only client can release");
    assert_eq!(
        EscrowAbort::NotAParty.message(),
        "unauthorized: only client or freelancer can raise a dispute"
    );
    assert_eq!(
        EscrowAbort::DisputeOnInactiveJob.message(),
        "dispute cannot be raised: job is not in active state"
    );
    assert_eq!(EscrowAbort::JobNotDisputed.message(), "job not disputed");
    let mut c = EscrowContract::new();
    c.create_job(1, client(), freelancer(), token(), NOW).unwrap();
    assert_eq!(
        c.create_job(1, judge(), judge(), token(), NOW + 1).unwrap_err(),
        EscrowFailure::Abort(EscrowAbort::JobAlreadyExists)
    );
    assert_eq!(c.get_job(1).unwrap().client, client());
}
