use bounty_escrow::escrow::BountyEscrow;
use bounty_escrow::types::{
    Address, Effects, Error, EscrowStatus, Event, RefundEligibilityCode, RefundMode, Transfer,
    MAX_ADMIN_ROTATION_DELAY_SECS, MIN_ADMIN_ROTATION_DELAY_SECS,
};
use std::collections::HashMap;

/// A host for the escrow: a ledger clock, token balances, the published
/// events, and address generation.
struct TestSetup {
    now: u64,
    next_id: u64,
    escrow: BountyEscrow,
    balances: HashMap<Address, i128>,
    events: Vec<Event>,
    admin: Address,
    depositor: Address,
    contributor: Address,
    #[allow(dead_code)]
    token: Address,
}

impl TestSetup {
    fn new() -> Self {
        let mut setup = TestSetup {
            now: 0,
            next_id: 1,
            escrow: BountyEscrow::new(),
            balances: HashMap::new(),
            events: Vec::new(),
            admin: Address { id: 0 },
            depositor: Address { id: 0 },
            contributor: Address { id: 0 },
            token: Address { id: 0 },
        };
        setup.admin = setup.generate();
        setup.depositor = setup.generate();
        setup.contributor = setup.generate();
        setup.token = setup.generate();
        let (admin, token) = (setup.admin, setup.token);
        let r = setup.escrow.init(admin, token);
        setup.apply(r).unwrap();
        setup.balances.insert(setup.depositor, 1_000_000);
        setup
    }

    fn generate(&mut self) -> Address {
        let a = Address { id: self.next_id };
        self.next_id += 1;
        a
    }

    fn apply(&mut self, r: Result<Effects, Error>) -> Result<(), Error> {
        let effects = r?;
        match effects.transfer {
            Some(Transfer::Deposit { from, amount }) => {
                let b = self.balances.entry(from).or_insert(0);
                assert!(*b >= amount, "balance is not sufficient");
                *b -= amount;
            }
            Some(Transfer::Payout { to, amount }) => {
                *self.balances.entry(to).or_insert(0) += amount;
            }
            None => {}
        }
        self.events.push(effects.event);
        Ok(())
    }

    fn expect(r: Result<(), Error>) {
        if let Err(e) = r {
            panic!("Error(Contract, #{})", e.code());
        }
    }

    fn lock_funds(&mut self, depositor: &Address, bounty_id: &u64, amount: &i128, deadline: &u64) {
        let r = self.escrow.lock_funds(*depositor, *bounty_id, *amount, *deadline);
        Self::expect(self.apply(r));
    }

    fn release_funds(&mut self, bounty_id: &u64, contributor: &Address) {
        let r = self.escrow.release_funds(*bounty_id, *contributor);
        Self::expect(self.apply(r));
    }

    fn partial_release(&mut self, bounty_id: &u64, contributor: &Address, amount: &i128) {
        let r = self.escrow.partial_release(*bounty_id, *contributor, *amount);
        Self::expect(self.apply(r));
    }

    fn refund(&mut self, bounty_id: &u64) {
        let r = self.escrow.refund(*bounty_id, self.now);
        Self::expect(self.apply(r));
    }

    fn approve_refund(&mut self, bounty_id: &u64, amount: &i128, recipient: &Address, mode: &RefundMode) {
        let r = self.escrow.approve_refund(*bounty_id, *amount, *recipient, *mode, self.now);
        Self::expect(self.apply(r));
    }

    fn status(&self, bounty_id: u64) -> EscrowStatus {
        self.escrow.get_escrow_info(bounty_id).unwrap().status
    }

    fn try_propose_admin_rotation(&mut self, new_admin: &Address, delay: &u64) -> Result<(), Error> {
        let r = self.escrow.propose_admin_rotation(*new_admin, *delay, self.now);
        self.apply(r)
    }

    fn try_accept_admin_rotation(&mut self) -> Result<(), Error> {
        let r = self.escrow.accept_admin_rotation(self.now);
        self.apply(r)
    }

    fn try_cancel_admin_rotation(&mut self) -> Result<(), Error> {
        let r = self.escrow.cancel_admin_rotation();
        self.apply(r)
    }
}

#[test]
fn test_refund_eligibility_ineligible_before_deadline_without_approval() {
    let mut setup = TestSetup::new();
    let bounty_id = 99;
    let amount = 1_000;
    let deadline = setup.now + 500;
    let depositor = setup.depositor;

    setup.lock_funds(&depositor, &bounty_id, &amount, &deadline);

    let view = setup.escrow.get_refund_eligibility_view(bounty_id, setup.now).unwrap();
    assert!(!view.eligible);
    assert_eq!(view.code, RefundEligibilityCode::IneligibleDeadlineNotPassed);
    assert_eq!(view.amount, 0);
    assert!(!view.approval_present);
}

#[test]
fn test_refund_eligibility_eligible_after_deadline() {
    let mut setup = TestSetup::new();
    let bounty_id = 100;
    let amount = 1_200;
    let deadline = setup.now + 100;
    let depositor = setup.depositor;

    setup.lock_funds(&depositor, &bounty_id, &amount, &deadline);
    setup.now = deadline + 1;

    let view = setup.escrow.get_refund_eligibility_view(bounty_id, setup.now).unwrap();
    assert!(view.eligible);
    assert_eq!(view.code, RefundEligibilityCode::EligibleDeadlinePassed);
    assert_eq!(view.amount, amount);
    assert_eq!(view.recipient, Some(setup.depositor.clone()));
    assert!(!view.approval_present);
}

#[test]
fn test_refund_eligibility_eligible_with_admin_approval_before_deadline() {
    let mut setup = TestSetup::new();
    let bounty_id = 101;
    let amount = 2_000;
    let deadline = setup.now + 1_000;
    let custom_recipient = setup.generate();
    let depositor = setup.depositor;

    setup.lock_funds(&depositor, &bounty_id, &amount, &deadline);
    setup.approve_refund(&bounty_id, &500, &custom_recipient, &RefundMode::Partial);

    let view = setup.escrow.get_refund_eligibility_view(bounty_id, setup.now).unwrap();
    assert!(view.eligible);
    assert_eq!(view.code, RefundEligibilityCode::EligibleAdminApproval);
    assert_eq!(view.amount, 500);
    assert_eq!(view.recipient, Some(custom_recipient));
    assert!(view.approval_present);
}

// Valid transitions: Locked → Released
#[test]
fn test_locked_to_released() {
    let mut setup = TestSetup::new();
    let bounty_id = 1;
    let amount = 1000;
    let deadline = setup.now + 1000;
    let (depositor, contributor) = (setup.depositor, setup.contributor);

    setup.lock_funds(&depositor, &bounty_id, &amount, &deadline);
    assert_eq!(setup.status(bounty_id), EscrowStatus::Locked);

    setup.release_funds(&bounty_id, &contributor);
    assert_eq!(setup.status(bounty_id), EscrowStatus::Released);
}

// Valid transitions: Locked → Refunded
#[test]
fn test_locked_to_refunded() {
    let mut setup = TestSetup::new();
    let bounty_id = 1;
    let amount = 1000;
    let deadline = setup.now + 100;
    let depositor = setup.depositor;

    setup.lock_funds(&depositor, &bounty_id, &amount, &deadline);
    assert_eq!(setup.status(bounty_id), EscrowStatus::Locked);

    setup.now = deadline + 1;
    setup.refund(&bounty_id);
    assert_eq!(setup.status(bounty_id), EscrowStatus::Refunded);
}

// Valid transitions: Locked → PartiallyRefunded
#[test]
fn test_locked_to_partially_refunded() {
    let mut setup = TestSetup::new();
    let bounty_id = 1;
    let amount = 1000;
    let deadline = setup.now + 100;
    let depositor = setup.depositor;

    setup.lock_funds(&depositor, &bounty_id, &amount, &deadline);
    assert_eq!(setup.status(bounty_id), EscrowStatus::Locked);

    // Approve partial refund before deadline
    setup.approve_refund(&bounty_id, &500, &depositor, &RefundMode::Partial);
    setup.refund(&bounty_id);
    assert_eq!(setup.status(bounty_id), EscrowStatus::PartiallyRefunded);
}

// Valid transitions: PartiallyRefunded → Refunded
#[test]
fn test_partially_refunded_to_refunded() {
    let mut setup = TestSetup::new();
    let bounty_id = 1;
    let amount = 1000;
    let deadline = setup.now + 100;
    let depositor = setup.depositor;

    setup.lock_funds(&depositor, &bounty_id, &amount, &deadline);

    // First partial refund
    setup.approve_refund(&bounty_id, &500, &depositor, &RefundMode::Partial);
    setup.refund(&bounty_id);
    assert_eq!(setup.status(bounty_id), EscrowStatus::PartiallyRefunded);

    // Second refund completes it
    setup.now = deadline + 1;
    setup.refund(&bounty_id);
    assert_eq!(setup.status(bounty_id), EscrowStatus::Refunded);
}

// Invalid transition: Released → Locked
#[test]
#[should_panic(expected = "Error(Contract, #3)")]
fn test_released_to_locked_fails() {
    let mut setup = TestSetup::new();
    let bounty_id = 1;
    let amount = 1000;
    let deadline = setup.now + 1000;
    let (depositor, contributor) = (setup.depositor, setup.contributor);

    setup.lock_funds(&depositor, &bounty_id, &amount, &deadline);
    setup.release_funds(&bounty_id, &contributor);

    setup.lock_funds(&depositor, &bounty_id, &amount, &deadline);
}

// Invalid transition: Released → Released
#[test]
#[should_panic(expected = "Error(Contract, #5)")]
fn test_released_to_released_fails() {
    let mut setup = TestSetup::new();
    let bounty_id = 1;
    let amount = 1000;
    let deadline = setup.now + 1000;
    let (depositor, contributor) = (setup.depositor, setup.contributor);

    setup.lock_funds(&depositor, &bounty_id, &amount, &deadline);
    setup.release_funds(&bounty_id, &contributor);

    setup.release_funds(&bounty_id, &contributor);
}

// Invalid transition: Released → Refunded
#[test]
#[should_panic(expected = "Error(Contract, #5)")]
fn test_released_to_refunded_fails() {
    let mut setup = TestSetup::new();
    let bounty_id = 1;
    let amount = 1000;
    let deadline = setup.now + 100;
    let (depositor, contributor) = (setup.depositor, setup.contributor);

    setup.lock_funds(&depositor, &bounty_id, &amount, &deadline);
    setup.release_funds(&bounty_id, &contributor);

    setup.now = deadline + 1;
    setup.refund(&bounty_id);
}

// Invalid transition: Released → PartiallyRefunded
#[test]
#[should_panic(expected = "Error(Contract, #5)")]
fn test_released_to_partially_refunded_fails() {
    let mut setup = TestSetup::new();
    let bounty_id = 1;
    let amount = 1000;
    let deadline = setup.now + 100;
    let (depositor, contributor) = (setup.depositor, setup.contributor);

    setup.lock_funds(&depositor, &bounty_id, &amount, &deadline);
    setup.release_funds(&bounty_id, &contributor);

    setup.now = deadline + 1;
    setup.partial_release(&bounty_id, &contributor, &500);
}

// Invalid transition: Refunded → Locked
#[test]
#[should_panic(expected = "Error(Contract, #3)")]
fn test_refunded_to_locked_fails() {
    let mut setup = TestSetup::new();
    let bounty_id = 1;
    let amount = 1000;
    let deadline = setup.now + 100;
    let depositor = setup.depositor;

    setup.lock_funds(&depositor, &bounty_id, &amount, &deadline);
    setup.now = deadline + 1;
    setup.refund(&bounty_id);

    setup.lock_funds(&depositor, &bounty_id, &amount, &deadline);
}

// Invalid transition: Refunded → Released
#[test]
#[should_panic(expected = "Error(Contract, #5)")]
fn test_refunded_to_released_fails() {
    let mut setup = TestSetup::new();
    let bounty_id = 1;
    let amount = 1000;
    let deadline = setup.now + 100;
    let (depositor, contributor) = (setup.depositor, setup.contributor);

    setup.lock_funds(&depositor, &bounty_id, &amount, &deadline);
    setup.now = deadline + 1;
    setup.refund(&bounty_id);

    setup.release_funds(&bounty_id, &contributor);
}

// Invalid transition: Refunded → Refunded
#[test]
#[should_panic(expected = "Error(Contract, #5)")]
fn test_refunded_to_refunded_fails() {
    let mut setup = TestSetup::new();
    let bounty_id = 1;
    let amount = 1000;
    let deadline = setup.now + 100;
    let depositor = setup.depositor;

    setup.lock_funds(&depositor, &bounty_id, &amount, &deadline);
    setup.now = deadline + 1;
    setup.refund(&bounty_id);

    setup.refund(&bounty_id);
}

// Invalid transition: Refunded → PartiallyRefunded
#[test]
#[should_panic(expected = "Error(Contract, #5)")]
fn test_refunded_to_partially_refunded_fails() {
    let mut setup = TestSetup::new();
    let bounty_id = 1;
    let amount = 1000;
    let deadline = setup.now + 100;
    let (depositor, contributor) = (setup.depositor, setup.contributor);

    setup.lock_funds(&depositor, &bounty_id, &amount, &deadline);
    setup.now = deadline + 1;
    setup.refund(&bounty_id);

    setup.partial_release(&bounty_id, &contributor, &100);
}

// Invalid transition: PartiallyRefunded → Locked
#[test]
#[should_panic(expected = "Error(Contract, #3)")]
fn test_partially_refunded_to_locked_fails() {
    let mut setup = TestSetup::new();
    let bounty_id = 1;
    let amount = 1000;
    let deadline = setup.now + 100;
    let depositor = setup.depositor;

    setup.lock_funds(&depositor, &bounty_id, &amount, &deadline);
    setup.approve_refund(&bounty_id, &500, &depositor, &RefundMode::Partial);
    setup.refund(&bounty_id);

    setup.lock_funds(&depositor, &bounty_id, &amount, &deadline);
}

// Invalid transition: PartiallyRefunded → Released
#[test]
#[should_panic(expected = "Error(Contract, #5)")]
fn test_partially_refunded_to_released_fails() {
    let mut setup = TestSetup::new();
    let bounty_id = 1;
    let amount = 1000;
    let deadline = setup.now + 100;
    let (depositor, contributor) = (setup.depositor, setup.contributor);

    setup.lock_funds(&depositor, &bounty_id, &amount, &deadline);
    setup.approve_refund(&bounty_id, &500, &depositor, &RefundMode::Partial);
    setup.refund(&bounty_id);

    setup.release_funds(&bounty_id, &contributor);
}

// Two-step admin rotation with timelock:
//   - propose_admin_rotation stores a pending proposal with correct fields
//   - accept_admin_rotation is blocked before executable_after
//   - accept_admin_rotation succeeds after timelock elapses
//   - cancel_admin_rotation removes the proposal
//   - duplicate proposals are rejected
//   - invalid delay values are rejected
//   - events are published for all three operations
//   - the schema version is written on init

/// propose_admin_rotation stores the proposal with the right fields.
#[test]
fn test_admin_rotation_propose_stores_proposal() {
    let mut setup = TestSetup::new();
    let new_admin = setup.generate();
    let delay = MIN_ADMIN_ROTATION_DELAY_SECS;

    setup.try_propose_admin_rotation(&new_admin, &delay).unwrap();

    let proposal = setup.escrow.get_pending_admin_rotation().unwrap();
    assert_eq!(proposal.proposed_admin, new_admin);
    assert_eq!(proposal.proposed_by, setup.admin);
    assert_eq!(proposal.executable_after, setup.now + delay);
}

/// accept_admin_rotation is blocked before the timelock elapses.
#[test]
fn test_admin_rotation_accept_blocked_before_timelock() {
    let mut setup = TestSetup::new();
    let new_admin = setup.generate();
    let delay = MIN_ADMIN_ROTATION_DELAY_SECS;

    setup.try_propose_admin_rotation(&new_admin, &delay).unwrap();

    // Advance time but not enough.
    setup.now = setup.now + delay - 1;

    let result = setup.try_accept_admin_rotation();
    assert!(result.is_err(), "accept must fail before timelock elapses");
}

/// accept_admin_rotation succeeds after the timelock elapses.
#[test]
fn test_admin_rotation_accept_succeeds_after_timelock() {
    let mut setup = TestSetup::new();
    let new_admin = setup.generate();
    let delay = MIN_ADMIN_ROTATION_DELAY_SECS;

    setup.try_propose_admin_rotation(&new_admin, &delay).unwrap();

    setup.now = setup.now + delay;

    setup.try_accept_admin_rotation().unwrap();

    // Proposal must be cleared.
    assert!(
        setup.escrow.get_pending_admin_rotation().is_none(),
        "proposal must be cleared after acceptance"
    );
}

/// cancel_admin_rotation removes the proposal.
#[test]
fn test_admin_rotation_cancel_removes_proposal() {
    let mut setup = TestSetup::new();
    let new_admin = setup.generate();

    setup.try_propose_admin_rotation(&new_admin, &MIN_ADMIN_ROTATION_DELAY_SECS).unwrap();
    assert!(setup.escrow.get_pending_admin_rotation().is_some());

    setup.try_cancel_admin_rotation().unwrap();
    assert!(
        setup.escrow.get_pending_admin_rotation().is_none(),
        "proposal must be cleared after cancellation"
    );
}

/// A second proposal while one is pending is rejected.
#[test]
fn test_admin_rotation_duplicate_proposal_rejected() {
    let mut setup = TestSetup::new();
    let new_admin = setup.generate();

    setup.try_propose_admin_rotation(&new_admin, &MIN_ADMIN_ROTATION_DELAY_SECS).unwrap();

    let result = setup.try_propose_admin_rotation(&new_admin, &MIN_ADMIN_ROTATION_DELAY_SECS);
    assert!(result.is_err(), "duplicate proposal must be rejected");
}

/// A delay below the minimum is rejected.
#[test]
fn test_admin_rotation_delay_below_minimum_rejected() {
    let mut setup = TestSetup::new();
    let new_admin = setup.generate();
    let result = setup.try_propose_admin_rotation(&new_admin, &(MIN_ADMIN_ROTATION_DELAY_SECS - 1));
    assert!(result.is_err(), "delay below minimum must be rejected");
}

/// A delay above the maximum is rejected.
#[test]
fn test_admin_rotation_delay_above_maximum_rejected() {
    let mut setup = TestSetup::new();
    let new_admin = setup.generate();
    let result = setup.try_propose_admin_rotation(&new_admin, &(MAX_ADMIN_ROTATION_DELAY_SECS + 1));
    assert!(result.is_err(), "delay above maximum must be rejected");
}

/// Proposing the current admin as the new admin is rejected.
#[test]
fn test_admin_rotation_self_proposal_rejected() {
    let mut setup = TestSetup::new();
    let admin = setup.admin;
    let result = setup.try_propose_admin_rotation(&admin, &MIN_ADMIN_ROTATION_DELAY_SECS);
    assert!(result.is_err(), "self-proposal must be rejected");
}

/// Cancelling without a pending proposal is an error.
#[test]
fn test_admin_rotation_cancel_without_proposal_errors() {
    let mut setup = TestSetup::new();
    let result = setup.try_cancel_admin_rotation();
    assert!(result.is_err(), "cancel without proposal must error");
}

/// Accepting without a pending proposal is an error.
#[test]
fn test_admin_rotation_accept_without_proposal_errors() {
    let mut setup = TestSetup::new();
    let result = setup.try_accept_admin_rotation();
    assert!(result.is_err(), "accept without proposal must error");
}

/// propose_admin_rotation publishes an event.
#[test]
fn test_admin_rotation_propose_emits_event() {
    let mut setup = TestSetup::new();
    let new_admin = setup.generate();
    let before = setup.events.len();
    setup.try_propose_admin_rotation(&new_admin, &MIN_ADMIN_ROTATION_DELAY_SECS).unwrap();
    assert!(setup.events.len() > before, "AdminRotationProposed must be emitted");
}

/// accept_admin_rotation publishes an event.
#[test]
fn test_admin_rotation_accept_emits_event() {
    let mut setup = TestSetup::new();
    let new_admin = setup.generate();
    let delay = MIN_ADMIN_ROTATION_DELAY_SECS;

    setup.try_propose_admin_rotation(&new_admin, &delay).unwrap();
    setup.now = setup.now + delay;

    let before = setup.events.len();
    setup.try_accept_admin_rotation().unwrap();
    assert!(setup.events.len() > before, "AdminRotationAccepted must be emitted");
}

/// cancel_admin_rotation publishes an event.
#[test]
fn test_admin_rotation_cancel_emits_event() {
    let mut setup = TestSetup::new();
    let new_admin = setup.generate();
    setup.try_propose_admin_rotation(&new_admin, &MIN_ADMIN_ROTATION_DELAY_SECS).unwrap();
    let before = setup.events.len();
    setup.try_cancel_admin_rotation().unwrap();
    assert!(setup.events.len() > before, "AdminRotationCancelled must be emitted");
}

/// The schema version is written on init.
#[test]
fn test_admin_rotation_schema_version_written_on_init() {
    let setup = TestSetup::new();
    let version = setup.escrow.get_admin_rotation_schema_version();
    assert_eq!(version, 1u32, "schema version must be 1 after init");
}

/// After acceptance, the new admin can propose another rotation.
#[test]
fn test_admin_rotation_new_admin_can_propose_again() {
    let mut setup = TestSetup::new();
    let new_admin = setup.generate();
    let delay = MIN_ADMIN_ROTATION_DELAY_SECS;

    setup.try_propose_admin_rotation(&new_admin, &delay).unwrap();
    setup.now = setup.now + delay;
    setup.try_accept_admin_rotation().unwrap();

    // New admin proposes yet another rotation.
    let next_admin = setup.generate();
    let result = setup.try_propose_admin_rotation(&next_admin, &MIN_ADMIN_ROTATION_DELAY_SECS);
    assert!(result.is_ok(), "new admin must be able to propose another rotation");
}

/// The maximum valid delay (7 days) is accepted.
#[test]
fn test_admin_rotation_maximum_delay_accepted() {
    let mut setup = TestSetup::new();
    let new_admin = setup.generate();
    let result = setup.try_propose_admin_rotation(&new_admin, &MAX_ADMIN_ROTATION_DELAY_SECS);
    assert!(result.is_ok(), "maximum delay must be accepted");
}
