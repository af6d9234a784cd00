use std::collections::HashMap;

use lance::address::Address;
use lance::escrow::EscrowContract;
use lance::escrow_types::{
    EscrowAbort, EscrowError, EscrowFailure, EscrowStatus, Holder, MilestoneStatus, Transfer,
};

const NOW: u64 = 1_700_000_000;

/// Token balances kept by the test in place of the token contracts.
struct Ledger {
    balances: HashMap<(Address, Holder), i128>,
}

impl Ledger {
    fn new() -> Self {
        Ledger { balances: HashMap::new() }
    }

    fn mint(&mut self, token: Address, to: Address, amount: i128) {
        *self.balances.entry((token, Holder::Party(to))).or_insert(0) += amount;
    }

    fn balance(&self, token: Address, who: Holder) -> i128 {
        *self.balances.get(&(token, who)).unwrap_or(&0)
    }

    fn apply(&mut self, t: Transfer) {
        let from = self.balance(t.token, t.from);
        assert!(from >= t.amount, "insufficient balance");
        self.balances.insert((t.token, t.from), from - t.amount);
        *self.balances.entry((t.token, t.to)).or_insert(0) += t.amount;
    }
}

/// Ends a failed call the way the contract host reports it: a numbered error
/// as `Error(Contract, #n)`, an abort as `Error(WasmVm, InvalidAction)` with
/// its message.
fn host<T>(r: Result<T, EscrowFailure>) -> T {
    match r {
        Ok(v) => v,
        Err(EscrowFailure::Error(e)) => panic!("HostError: Error(Contract, #{})", e.code()),
        Err(EscrowFailure::Abort(a)) => {
            panic!("HostError: Error(WasmVm, InvalidAction): {}", a.message())
        }
    }
}

fn host_err<T>(r: Result<T, EscrowError>) -> T {
    host(r.map_err(EscrowFailure::Error))
}

struct Fixture {
    cc: EscrowContract,
    ledger: Ledger,
    admin: Address,
    agent_judge: Address,
    client: Address,
    freelancer: Address,
    token: Address,
}

fn setup() -> Fixture {
    let admin = Address::account(1);
    let agent_judge = Address::account(2);
    let client = Address::account(3);
    let freelancer = Address::account(4);
    let token = Address::contract(100);
    let mut ledger = Ledger::new();
    ledger.mint(token, client, 100_000);
    Fixture { cc: EscrowContract::new(), ledger, admin, agent_judge, client, freelancer, token }
}

impl Fixture {
    fn init(&mut self) {
        self.cc.initialize(self.admin, self.agent_judge, NOW).unwrap();
    }

    fn create(&mut self, job_id: u64) {
        self.cc.create_job(job_id, self.client, self.freelancer, self.token, NOW).unwrap();
    }

    fn deposit(&mut self, job_id: u64, amount: i128) -> Result<(), EscrowError> {
        let (t, _) = self.cc.deposit(job_id, amount, NOW)?;
        self.ledger.apply(t);
        self.cc.release_guard();
        Ok(())
    }

    fn release_milestone(&mut self, job_id: u64, caller: Address) -> Result<(), EscrowError> {
        let (t, _) = self.cc.release_milestone(job_id, caller, NOW)?;
        self.ledger.apply(t);
        self.cc.release_guard();
        Ok(())
    }

    fn release_funds(&mut self, job_id: u64, caller: Address, index: u32) -> Result<(), EscrowFailure> {
        let t = self.cc.release_funds(job_id, caller, index)?;
        self.ledger.apply(t);
        self.cc.release_guard();
        Ok(())
    }

    fn resolve(&mut self, job_id: u64, payee: i128, payer: i128) -> Result<(), EscrowFailure> {
        let ts = self.cc.resolve_dispute(job_id, payee, payer)?;
        for t in ts {
            self.ledger.apply(t);
        }
        self.cc.release_guard();
        Ok(())
    }

    fn refund(&mut self, job_id: u64, client: Address) -> Result<(), EscrowError> {
        let (t, _) = self.cc.refund(job_id, client, NOW)?;
        if let Some(t) = t {
            self.ledger.apply(t);
        }
        self.cc.release_guard();
        Ok(())
    }

    fn balance(&self, who: Address) -> i128 {
        self.ledger.balance(self.token, Holder::Party(who))
    }

    fn escrow_balance(&self) -> i128 {
        self.ledger.balance(self.token, Holder::Escrow)
    }

    fn status(&self, job_id: u64) -> EscrowStatus {
        self.cc.get_job(job_id).unwrap().status
    }
}

#[test]
fn test_happy_path_lifecycle() {
    let mut f = setup();
    f.init();
    f.create(1);
    f.cc.add_milestone(1, 3000).unwrap();
    f.cc.add_milestone(1, 3000).unwrap();
    f.cc.add_milestone(1, 3000).unwrap();
    f.deposit(1, 9000).unwrap();
    assert_eq!(f.escrow_balance(), 9000);

    let client = f.client;
    f.release_milestone(1, client).unwrap();
    assert_eq!(f.balance(f.freelancer), 3000);
    f.release_milestone(1, client).unwrap();
    assert_eq!(f.balance(f.freelancer), 6000);
    f.release_milestone(1, client).unwrap();
    assert_eq!(f.status(1), EscrowStatus::Completed);
    assert_eq!(f.balance(f.freelancer), 9000);
    assert_eq!(f.escrow_balance(), 0);
}

#[test]
fn test_variable_milestone_amounts() {
    let mut f = setup();
    f.init();
    f.create(1);
    f.cc.add_milestone(1, 2000).unwrap();
    f.cc.add_milestone(1, 3000).unwrap();
    f.cc.add_milestone(1, 5000).unwrap();
    f.deposit(1, 10_000).unwrap();
    assert_eq!(f.escrow_balance(), 10_000);

    let client = f.client;
    f.release_milestone(1, client).unwrap();
    assert_eq!(f.balance(f.freelancer), 2000);

    let statuses = f.cc.get_milestone_status(1).unwrap();
    assert_eq!(statuses[0], MilestoneStatus::Released);
    assert_eq!(statuses[1], MilestoneStatus::Pending);

    f.release_milestone(1, client).unwrap();
    assert_eq!(f.balance(f.freelancer), 5000);
    f.release_milestone(1, client).unwrap();
    assert_eq!(f.balance(f.freelancer), 10_000);
    assert_eq!(f.status(1), EscrowStatus::Completed);
}

#[test]
#[should_panic(expected = "Error(Contract, #1)")]
fn test_double_init() {
    let mut f = setup();
    f.init();
    let (admin, judge) = (f.admin, f.agent_judge);
    host_err(f.cc.initialize(admin, judge, NOW));
}

#[test]
#[should_panic(expected = "Error(Contract, #3)")]
fn test_unauthorized_release() {
    let mut f = setup();
    f.init();
    f.create(1);
    f.cc.add_milestone(1, 500).unwrap();
    f.cc.add_milestone(1, 500).unwrap();
    f.deposit(1, 1000).unwrap();
    let rando = Address::account(99);
    host_err(f.release_milestone(1, rando));
}

#[test]
fn test_dispute_50_50_split() {
    let mut f = setup();
    f.init();
    f.create(1);
    for _ in 0..4 {
        f.cc.add_milestone(1, 2500).unwrap();
    }
    f.deposit(1, 10_000).unwrap();

    let client = f.client;
    let freelancer = f.freelancer;
    f.release_milestone(1, client).unwrap();
    assert_eq!(f.balance(freelancer), 2500);

    f.cc.open_dispute(1, freelancer, NOW).unwrap();
    assert_eq!(f.status(1), EscrowStatus::Disputed);

    f.resolve(1, 3750, 3750).unwrap();
    assert_eq!(f.status(1), EscrowStatus::Resolved);
    assert_eq!(f.balance(freelancer), 6250);
    assert_eq!(f.balance(client), 93750);
}

#[test]
fn test_refund() {
    let mut f = setup();
    f.init();
    f.create(1);
    f.cc.add_milestone(1, 2500).unwrap();
    f.cc.add_milestone(1, 2500).unwrap();
    f.deposit(1, 5000).unwrap();
    assert_eq!(f.balance(f.client), 95_000);

    let client = f.client;
    f.refund(1, client).unwrap();
    assert_eq!(f.status(1), EscrowStatus::Refunded);
    assert_eq!(f.balance(client), 100_000);
}

#[test]
#[should_panic(expected = "Error(Contract, #7)")]
fn test_deposit_with_wrong_total_panics() {
    let mut f = setup();
    f.init();
    f.create(1);
    f.cc.add_milestone(1, 500).unwrap();
    host_err(f.deposit(1, 1000));
}

#[test]
#[should_panic(expected = "Error(Contract, #4)")]
fn test_deposit_no_milestones_panics() {
    let mut f = setup();
    f.init();
    f.create(1);
    host_err(f.deposit(1, 1000));
}

#[test]
#[should_panic(expected = "job already exists")]
fn test_double_create_job_panics() {
    let mut f = setup();
    f.create(1);
    let (client, freelancer, token) = (f.client, f.freelancer, f.token);
    let second = f.cc.create_job(1, client, freelancer, token, NOW);
    assert_eq!(second, Err(EscrowFailure::Abort(EscrowAbort::JobAlreadyExists)));
    host(second);
}

#[test]
fn test_exhaustive_release_funds_path() {
    let mut f = setup();
    f.init();
    f.create(1);
    let total_amount = 10_000i128;
    for _ in 0..4 {
        f.cc.add_milestone(1, 2500).unwrap();
    }
    f.deposit(1, total_amount).unwrap();
    assert_eq!(f.escrow_balance(), total_amount);

    let client = f.client;
    f.release_funds(1, client, 2).unwrap();
    assert_eq!(f.balance(f.freelancer), 2500);
    f.release_funds(1, client, 0).unwrap();
    assert_eq!(f.balance(f.freelancer), 5000);
    f.release_funds(1, client, 3).unwrap();
    assert_eq!(f.balance(f.freelancer), 7500);
    f.release_funds(1, client, 1).unwrap();

    assert_eq!(f.status(1), EscrowStatus::Completed);
    assert_eq!(f.balance(f.freelancer), total_amount);
    assert_eq!(f.escrow_balance(), 0);
}

#[test]
fn test_raise_dispute_by_client_locks_funds() {
    let mut f = setup();
    f.init();
    f.create(1);
    for _ in 0..3 {
        f.cc.add_milestone(1, 3000).unwrap();
    }
    f.deposit(1, 9000).unwrap();
    f.cc.raise_dispute(1, f.client, NOW).unwrap();
    assert_eq!(f.status(1), EscrowStatus::Disputed);
}

#[test]
fn test_deposit_success_transitions_to_funded() {
    let mut f = setup();
    f.init();
    f.create(1);
    f.cc.add_milestone(1, 5000).unwrap();
    let client_balance_before = f.balance(f.client);
    f.deposit(1, 5000).unwrap();
    let job = f.cc.get_job(1).unwrap();
    assert_eq!(job.status, EscrowStatus::Funded);
    assert_eq!(job.total_amount, 5000);
    assert_eq!(f.escrow_balance(), 5000);
    assert_eq!(f.balance(f.client), client_balance_before - 5000);
}

#[test]
#[should_panic(expected = "Error(Contract, #6)")]
fn test_deposit_invalid_state_not_setup() {
    let mut f = setup();
    f.init();
    f.create(1);
    f.cc.add_milestone(1, 3000).unwrap();
    f.cc.add_milestone(1, 3000).unwrap();
    f.deposit(1, 6000).unwrap();
    host_err(f.deposit(1, 6000));
}

#[test]
#[should_panic(expected = "Error(Contract, #4)")]
fn test_deposit_negative_panics() {
    let mut f = setup();
    f.init();
    f.create(1);
    f.cc.add_milestone(1, 1000).unwrap();
    host_err(f.deposit(1, -1000));
}

#[test]
#[should_panic(expected = "Error(Contract, #4)")]
fn test_deposit_zero_panics() {
    let mut f = setup();
    f.init();
    f.create(1);
    f.cc.add_milestone(1, 1000).unwrap();
    host_err(f.deposit(1, 0));
}

#[test]
fn test_release_milestone_sequential_success() {
    let mut f = setup();
    f.init();
    f.create(1);
    f.cc.add_milestone(1, 2000).unwrap();
    f.cc.add_milestone(1, 3000).unwrap();
    f.cc.add_milestone(1, 5000).unwrap();
    f.deposit(1, 10000).unwrap();

    let client = f.client;
    f.release_milestone(1, client).unwrap();
    let job = f.cc.get_job(1).unwrap();
    assert_eq!(job.status, EscrowStatus::WorkInProgress);
    assert_eq!(job.released_amount, 2000);
    assert_eq!(f.balance(f.freelancer), 2000);

    f.release_milestone(1, client).unwrap();
    let job = f.cc.get_job(1).unwrap();
    assert_eq!(job.released_amount, 5000);
    assert_eq!(f.balance(f.freelancer), 5000);

    f.release_milestone(1, client).unwrap();
    let job = f.cc.get_job(1).unwrap();
    assert_eq!(job.status, EscrowStatus::Completed);
    assert_eq!(job.released_amount, 10000);
    assert_eq!(f.balance(f.freelancer), 10000);
}

#[test]
#[should_panic(expected = "Error(Contract, #6)")]
fn test_release_milestone_no_pending_milestones() {
    let mut f = setup();
    f.init();
    f.create(1);
    f.cc.add_milestone(1, 5000).unwrap();
    f.deposit(1, 5000).unwrap();
    let client = f.client;
    f.release_milestone(1, client).unwrap();
    host_err(f.release_milestone(1, client));
}

#[test]
#[should_panic(expected = "Error(Contract, #3)")]
fn test_release_milestone_unauthorized_freelancer() {
    let mut f = setup();
    f.init();
    f.create(1);
    f.cc.add_milestone(1, 5000).unwrap();
    f.deposit(1, 5000).unwrap();
    let freelancer = f.freelancer;
    host_err(f.release_milestone(1, freelancer));
}

#[test]
fn test_release_funds_explicit_index() {
    let mut f = setup();
    f.init();
    f.create(1);
    f.cc.add_milestone(1, 1000).unwrap();
    f.cc.add_milestone(1, 2000).unwrap();
    f.cc.add_milestone(1, 3000).unwrap();
    f.deposit(1, 6000).unwrap();

    let client = f.client;
    f.release_funds(1, client, 2).unwrap();
    assert_eq!(f.balance(f.freelancer), 3000);
    f.release_funds(1, client, 0).unwrap();
    assert_eq!(f.balance(f.freelancer), 4000);
    f.release_funds(1, client, 1).unwrap();
    assert_eq!(f.balance(f.freelancer), 6000);
    assert_eq!(f.status(1), EscrowStatus::Completed);
}

#[test]
#[should_panic(expected = "invalid milestone index")]
fn test_release_funds_invalid_index_panics() {
    let mut f = setup();
    f.init();
    f.create(1);
    f.cc.add_milestone(1, 3000).unwrap();
    f.deposit(1, 3000).unwrap();
    let client = f.client;
    let r = f.release_funds(1, client, 5);
    assert_eq!(f.escrow_balance(), 3000);
    assert_eq!(f.status(1), EscrowStatus::Funded);
    host(r);
}

#[test]
#[should_panic(expected = "Error(WasmVm, InvalidAction)")]
fn test_release_funds_twice_panics() {
    let mut f = setup();
    f.init();
    f.create(1);
    f.cc.add_milestone(1, 5000).unwrap();
    f.deposit(1, 5000).unwrap();
    let client = f.client;
    f.release_funds(1, client, 0).unwrap();
    let r = f.release_funds(1, client, 0);
    assert_eq!(f.balance(f.freelancer), 5000);
    host(r);
}

#[test]
#[should_panic(expected = "only client can release")]
fn test_unauthorized_release_funds_by_freelancer_panics() {
    let mut f = setup();
    f.init();
    f.create(1);
    f.cc.add_milestone(1, 5000).unwrap();
    f.deposit(1, 5000).unwrap();
    let freelancer = f.freelancer;
    let r = f.release_funds(1, freelancer, 0);
    assert_eq!(f.balance(freelancer), 0);
    host(r);
}

#[test]
fn test_deposit_event_emitted() {
    let mut f = setup();
    f.init();
    f.create(1);
    f.cc.add_milestone(1, 8000).unwrap();
    let (t, event) = f.cc.deposit(1, 8000, NOW).unwrap();
    f.ledger.apply(t);
    f.cc.release_guard();
    assert_eq!(event.job_id, 1);
    assert_eq!(event.amount, 8000);
    assert_eq!(event.deposited_at, NOW);
    let job = f.cc.get_job(1).unwrap();
    assert_eq!(job.status, EscrowStatus::Funded);
    assert_eq!(job.total_amount, 8000);
}

#[test]
#[should_panic(expected = "Error(Contract, #6)")]
fn test_release_milestone_overflow_panics() {
    let mut f = setup();
    f.init();
    f.create(1);
    f.cc.add_milestone(1, 5000).unwrap();
    f.deposit(1, 5000).unwrap();
    let client = f.client;
    f.release_milestone(1, client).unwrap();
    host_err(f.release_milestone(1, client));
}

#[test]
fn test_raise_dispute_by_freelancer_locks_funds() {
    let mut f = setup();
    f.init();
    f.create(1);
    f.cc.add_milestone(1, 4000).unwrap();
    f.cc.add_milestone(1, 6000).unwrap();
    f.deposit(1, 10000).unwrap();
    f.cc.raise_dispute(1, f.freelancer, NOW).unwrap();
    assert_eq!(f.status(1), EscrowStatus::Disputed);
}

#[test]
#[should_panic(expected = "unauthorized: only client or freelancer can raise a dispute")]
fn test_raise_dispute_by_third_party_panics() {
    let mut f = setup();
    f.init();
    f.create(1);
    f.cc.add_milestone(1, 5000).unwrap();
    f.deposit(1, 5000).unwrap();
    let r = f.cc.raise_dispute(1, Address::account(99), NOW);
    assert_eq!(f.status(1), EscrowStatus::Funded);
    host(r);
}

#[test]
#[should_panic(expected = "dispute cannot be raised: job is not in active state")]
fn test_raise_dispute_on_completed_job_panics() {
    let mut f = setup();
    f.init();
    f.create(1);
    f.cc.add_milestone(1, 10000).unwrap();
    f.deposit(1, 10000).unwrap();
    let client = f.client;
    f.release_milestone(1, client).unwrap();
    let r = f.cc.raise_dispute(1, client, NOW);
    assert_eq!(f.status(1), EscrowStatus::Completed);
    host(r);
}

#[test]
#[should_panic(expected = "Error(Contract, #3)")]
fn test_open_dispute_by_rando_panics() {
    let mut f = setup();
    f.init();
    f.create(1);
    f.cc.add_milestone(1, 5000).unwrap();
    f.deposit(1, 5000).unwrap();
    host_err(f.cc.open_dispute(1, Address::account(99), NOW));
}

#[test]
#[should_panic(expected = "Error(Contract, #6)")]
fn test_open_dispute_on_completed_panics() {
    let mut f = setup();
    f.init();
    f.create(1);
    f.cc.add_milestone(1, 5000).unwrap();
    f.deposit(1, 5000).unwrap();
    let client = f.client;
    f.release_milestone(1, client).unwrap();
    host_err(f.cc.open_dispute(1, client, NOW));
}

#[test]
fn test_raise_dispute_then_resolve() {
    let mut f = setup();
    f.init();
    f.create(1);
    f.cc.add_milestone(1, 3000).unwrap();
    f.cc.add_milestone(1, 3000).unwrap();
    f.cc.add_milestone(1, 4000).unwrap();
    f.deposit(1, 10000).unwrap();

    let client = f.client;
    f.release_milestone(1, client).unwrap();
    assert_eq!(f.balance(f.freelancer), 3000);

    f.cc.raise_dispute(1, client, NOW).unwrap();
    assert_eq!(f.status(1), EscrowStatus::Disputed);

    f.resolve(1, 4900, 2100).unwrap();
    assert_eq!(f.status(1), EscrowStatus::Resolved);
    assert_eq!(f.balance(f.freelancer), 7900);
    assert_eq!(f.balance(client), 92100);
}

#[test]
fn test_resolve_dispute_full_refund_to_client() {
    let mut f = setup();
    f.init();
    f.create(1);
    f.cc.add_milestone(1, 8000).unwrap();
    f.deposit(1, 8000).unwrap();
    f.cc.raise_dispute(1, f.client, NOW).unwrap();
    f.resolve(1, 0, 8000).unwrap();
    assert_eq!(f.status(1), EscrowStatus::Resolved);
    assert_eq!(f.balance(f.client), 100000);
    assert_eq!(f.balance(f.freelancer), 0);
}

#[test]
fn test_resolve_dispute_full_payout_to_freelancer() {
    let mut f = setup();
    f.init();
    f.create(1);
    f.cc.add_milestone(1, 6000).unwrap();
    f.deposit(1, 6000).unwrap();
    f.cc.raise_dispute(1, f.freelancer, NOW).unwrap();
    f.resolve(1, 6000, 0).unwrap();
    assert_eq!(f.status(1), EscrowStatus::Resolved);
    assert_eq!(f.balance(f.freelancer), 6000);
}

#[test]
#[should_panic(expected = "job not disputed")]
fn test_resolve_dispute_not_disputed_panics() {
    let mut f = setup();
    f.init();
    f.create(1);
    f.cc.add_milestone(1, 5000).unwrap();
    f.deposit(1, 5000).unwrap();
    let r = f.resolve(1, 2500, 2500);
    assert_eq!(f.status(1), EscrowStatus::Funded);
    assert_eq!(f.escrow_balance(), 5000);
    host(r);
}

#[test]
fn test_raise_dispute_blocks_release_funds() {
    let mut f = setup();
    f.init();
    f.create(1);
    for _ in 0..3 {
        f.cc.add_milestone(1, 3000).unwrap();
    }
    f.deposit(1, 9000).unwrap();
    let client = f.client;
    f.release_milestone(1, client).unwrap();
    assert_eq!(f.balance(f.freelancer), 3000);
    f.cc.raise_dispute(1, f.freelancer, NOW).unwrap();
    assert_eq!(f.status(1), EscrowStatus::Disputed);
}

#[test]
#[should_panic(expected = "Error(Contract, #3)")]
fn test_refund_by_non_client_panics() {
    let mut f = setup();
    f.init();
    f.create(1);
    f.cc.add_milestone(1, 5000).unwrap();
    f.deposit(1, 5000).unwrap();
    let freelancer = f.freelancer;
    host_err(f.refund(1, freelancer));
}

#[test]
#[should_panic(expected = "job not found")]
fn test_get_job_not_found_panics() {
    let mut f = setup();
    f.init();
    host(f.cc.get_job(999));
}

#[test]
fn test_dispute_event_emission() {
    let mut f = setup();
    f.init();
    f.create(1);
    f.cc.add_milestone(1, 5000).unwrap();
    f.deposit(1, 5000).unwrap();
    let outcome = f.cc.raise_dispute(1, f.client, NOW).unwrap();
    assert_eq!(outcome.event.job_id, 1);
    assert_eq!(outcome.event.initiator, f.client);
    assert_eq!(outcome.event.milestones_released, 0);
    assert_eq!(outcome.event.milestones_total, 1);
    assert_eq!(outcome.event.raised_at, NOW);
    let job = f.cc.get_job(1).unwrap();
    assert_eq!(job.status, EscrowStatus::Disputed);
    assert_eq!(job.total_amount, 5000);
    assert_eq!(job.released_amount, 0);
}

#[test]
fn test_version() {
    assert_eq!(EscrowContract::version(), 1);
}

#[test]
fn test_get_multisig_config() {
    let mut f = setup();
    f.init();
    f.create(1);
    let signers = vec![Address::account(10), Address::account(11)];
    f.cc.configure_multisig(1, signers, 2, NOW).unwrap();
    let config = f.cc.get_multisig_config(1).unwrap();
    assert_eq!(config.required_signatures, 2);
    assert_eq!(config.signers.len(), 2);
}
