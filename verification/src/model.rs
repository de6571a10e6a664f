//! The mathematical state of the escrow and, for each operation, what it
//! answers and what state it leaves behind.
use vstd::prelude::*;
use crate::types::{
    Address, AdminRotationProposal, Config, Effects, Error, Escrow, EscrowStatus, Event,
    RefundApproval, RefundEligibilityCode, RefundEligibilityView, RefundMode, Transfer,
    ADMIN_ROTATION_SCHEMA_VERSION, MAX_ADMIN_ROTATION_DELAY_SECS, MIN_ADMIN_ROTATION_DELAY_SECS,
};

verus! {

/// The escrow's whole state: its settings, one record per bounty, the
/// pending refund approvals and the pending admin rotation.
#[verifier::ext_equal]
pub struct EscrowState {
    pub config: Option<Config>,
    pub escrows: Map<u64, Escrow>,
    pub approvals: Map<u64, RefundApproval>,
    pub pending_rotation: Option<AdminRotationProposal>,
    pub schema_version: u32,
}

/// The state before `init`.
pub open spec fn empty_state() -> EscrowState {
    EscrowState {
        config: None,
        escrows: Map::empty(),
        approvals: Map::empty(),
        pending_rotation: None,
        schema_version: 0,
    }
}

/// The state that holds the settings, the pending rotation and at most one
/// bounty, with its refund approval if it has one.
pub open spec fn loaded_state(
    config: Option<Config>,
    pending_rotation: Option<AdminRotationProposal>,
    schema_version: u32,
    bounty_id: u64,
    escrow: Option<Escrow>,
    approval: Option<RefundApproval>,
) -> EscrowState {
    EscrowState {
        config,
        escrows: match escrow {
            Some(e) => Map::empty().insert(bounty_id, e),
            None => Map::empty(),
        },
        approvals: match approval {
            Some(a) => Map::empty().insert(bounty_id, a),
            None => Map::empty(),
        },
        pending_rotation,
        schema_version,
    }
}

/// Statuses from which funds can still be refunded.
pub open spec fn refundable(status: EscrowStatus) -> bool {
    status == EscrowStatus::Locked || status == EscrowStatus::PartiallyRefunded
}

/// How the remaining funds of a bounty relate to its status.
pub open spec fn escrow_wf(e: Escrow) -> bool {
    &&& e.amount > 0
    &&& 0 <= e.remaining_amount <= e.amount
    &&& match e.status {
        EscrowStatus::Locked => e.remaining_amount > 0,
        EscrowStatus::PartiallyRefunded => 0 < e.remaining_amount < e.amount,
        EscrowStatus::Released => e.remaining_amount == 0,
        EscrowStatus::Refunded => e.remaining_amount == 0,
    }
}

/// A refund approval fits the bounty it is filed under.
pub open spec fn approval_wf(a: RefundApproval, e: Escrow, bounty_id: u64) -> bool {
    &&& a.bounty_id == bounty_id
    &&& refundable(e.status)
    &&& 0 < a.amount <= e.remaining_amount
    &&& a.mode == RefundMode::Full ==> a.amount == e.remaining_amount
}

impl EscrowState {
    /// The invariant that every operation keeps.
    pub open spec fn wf(self) -> bool {
        &&& (self.config is Some) == (self.schema_version == ADMIN_ROTATION_SCHEMA_VERSION)
        &&& self.config is None ==> self.schema_version == 0
        &&& self.config is None ==> self.escrows.dom() =~= Set::<u64>::empty()
        &&& self.config is None ==> self.pending_rotation is None
        &&& forall|id: u64| #[trigger] self.escrows.contains_key(id) ==> escrow_wf(self.escrows[id])
        &&& forall|id: u64| #[trigger]
            self.approvals.contains_key(id) ==> self.escrows.contains_key(id) && approval_wf(
                self.approvals[id],
                self.escrows[id],
                id,
            )
        &&& self.pending_rotation matches Some(p) ==> {
            &&& self.config matches Some(c)
            &&& p.proposed_by == c.admin
            &&& p.proposed_admin != c.admin
        }
    }

    /// The state with one bounty record replaced.
    pub open spec fn with_escrow(self, bounty_id: u64, e: Escrow) -> EscrowState {
        EscrowState { escrows: self.escrows.insert(bounty_id, e), ..self }
    }
}

/// How a successful or refused call relates the state before it, the
/// state after it and what it returned, to the outcome the model gives.
pub open spec fn follows(
    outcome: Result<(EscrowState, Effects), Error>,
    before: EscrowState,
    after: EscrowState,
    r: Result<Effects, Error>,
) -> bool {
    match outcome {
        Ok((s, e)) => r == Ok::<Effects, Error>(e) && after == s,
        Err(x) => r == Err::<Effects, Error>(x) && after == before,
    }
}

/// The state that a successful outcome leaves behind.
pub open spec fn committed(outcome: Result<(EscrowState, Effects), Error>) -> EscrowState {
    match outcome {
        Ok((s, _)) => s,
        Err(_) => empty_state(),
    }
}

/// `init`: fixes admin and token once.
pub open spec fn init_outcome(s: EscrowState, admin: Address, token: Address) -> Result<
    (EscrowState, Effects),
    Error,
> {
    if s.config is Some {
        Err(Error::AlreadyInitialized)
    } else {
        Ok(
            (
                EscrowState {
                    config: Some(Config { admin, token }),
                    schema_version: ADMIN_ROTATION_SCHEMA_VERSION,
                    ..s
                },
                Effects {
                    auth: None,
                    transfer: None,
                    event: Event::Initialized { admin, token },
                },
            ),
        )
    }
}

/// `lock_funds`: the depositor puts `amount` into escrow for a new bounty.
pub open spec fn lock_funds_outcome(
    s: EscrowState,
    depositor: Address,
    bounty_id: u64,
    amount: i128,
    deadline: u64,
) -> Result<(EscrowState, Effects), Error> {
    if s.config is None {
        Err(Error::NotInitialized)
    } else if s.escrows.contains_key(bounty_id) {
        Err(Error::BountyExists)
    } else if amount <= 0 {
        Err(Error::InvalidAmount)
    } else {
        let e = Escrow {
            depositor,
            amount,
            remaining_amount: amount,
            status: EscrowStatus::Locked,
            deadline,
        };
        Ok(
            (
                s.with_escrow(bounty_id, e),
                Effects {
                    auth: Some(depositor),
                    transfer: Some(Transfer::Deposit { from: depositor, amount }),
                    event: Event::FundsLocked { bounty_id, depositor, amount, deadline },
                },
            ),
        )
    }
}

/// `release_funds`: the admin pays everything that is still locked to a contributor.
pub open spec fn release_funds_outcome(s: EscrowState, bounty_id: u64, contributor: Address) -> Result<
    (EscrowState, Effects),
    Error,
> {
    if s.config is None {
        Err(Error::NotInitialized)
    } else if !s.escrows.contains_key(bounty_id) {
        Err(Error::BountyNotFound)
    } else if s.escrows[bounty_id].status != EscrowStatus::Locked {
        Err(Error::FundsNotLocked)
    } else {
        let e = s.escrows[bounty_id];
        let paid = e.remaining_amount;
        Ok(
            (
                EscrowState {
                    escrows: s.escrows.insert(
                        bounty_id,
                        Escrow { remaining_amount: 0, status: EscrowStatus::Released, ..e },
                    ),
                    approvals: s.approvals.remove(bounty_id),
                    ..s
                },
                Effects {
                    auth: Some(s.config->0.admin),
                    transfer: Some(Transfer::Payout { to: contributor, amount: paid }),
                    event: Event::FundsReleased {
                        bounty_id,
                        recipient: contributor,
                        amount: paid,
                        remaining_amount: 0,
                    },
                },
            ),
        )
    }
}

/// `partial_release`: the admin pays part of what is still locked to a contributor.
pub open spec fn partial_release_outcome(
    s: EscrowState,
    bounty_id: u64,
    contributor: Address,
    amount: i128,
) -> Result<(EscrowState, Effects), Error> {
    if s.config is None {
        Err(Error::NotInitialized)
    } else if !s.escrows.contains_key(bounty_id) {
        Err(Error::BountyNotFound)
    } else if s.escrows[bounty_id].status != EscrowStatus::Locked {
        Err(Error::FundsNotLocked)
    } else if amount <= 0 || amount > s.escrows[bounty_id].remaining_amount {
        Err(Error::InvalidAmount)
    } else {
        let e = s.escrows[bounty_id];
        let left = e.remaining_amount - amount;
        let status = if left == 0 {
            EscrowStatus::Released
        } else {
            EscrowStatus::Locked
        };
        Ok(
            (
                EscrowState {
                    escrows: s.escrows.insert(
                        bounty_id,
                        Escrow { remaining_amount: left as i128, status, ..e },
                    ),
                    approvals: s.approvals.remove(bounty_id),
                    ..s
                },
                Effects {
                    auth: Some(s.config->0.admin),
                    transfer: Some(Transfer::Payout { to: contributor, amount }),
                    event: Event::FundsReleased {
                        bounty_id,
                        recipient: contributor,
                        amount,
                        remaining_amount: left as i128,
                    },
                },
            ),
        )
    }
}

/// `approve_refund`: the admin allows a refund ahead of the deadline.
pub open spec fn approve_refund_outcome(
    s: EscrowState,
    bounty_id: u64,
    amount: i128,
    recipient: Address,
    mode: RefundMode,
    now: u64,
) -> Result<(EscrowState, Effects), Error> {
    if s.config is None {
        Err(Error::NotInitialized)
    } else if !s.escrows.contains_key(bounty_id) {
        Err(Error::BountyNotFound)
    } else if !refundable(s.escrows[bounty_id].status) {
        Err(Error::FundsNotLocked)
    } else if amount <= 0 || amount > s.escrows[bounty_id].remaining_amount || (mode
        == RefundMode::Full && amount != s.escrows[bounty_id].remaining_amount) {
        Err(Error::InvalidAmount)
    } else {
        let admin = s.config->0.admin;
        let a = RefundApproval {
            bounty_id,
            amount,
            recipient,
            mode,
            approved_by: admin,
            approved_at: now,
        };
        Ok(
            (
                EscrowState { approvals: s.approvals.insert(bounty_id, a), ..s },
                Effects {
                    auth: Some(admin),
                    transfer: None,
                    event: Event::RefundApproved { bounty_id, recipient, amount, mode },
                },
            ),
        )
    }
}

/// `refund`: pays an approved refund, or, once the deadline is reached,
/// everything that is left back to the depositor.
pub open spec fn refund_outcome(s: EscrowState, bounty_id: u64, now: u64) -> Result<
    (EscrowState, Effects),
    Error,
> {
    if s.config is None {
        Err(Error::NotInitialized)
    } else if !s.escrows.contains_key(bounty_id) {
        Err(Error::BountyNotFound)
    } else if !refundable(s.escrows[bounty_id].status) {
        Err(Error::FundsNotLocked)
    } else if s.approvals.contains_key(bounty_id) {
        let e = s.escrows[bounty_id];
        let a = s.approvals[bounty_id];
        let left = e.remaining_amount - a.amount;
        let status = if left == 0 {
            EscrowStatus::Refunded
        } else {
            EscrowStatus::PartiallyRefunded
        };
        Ok(
            (
                EscrowState {
                    escrows: s.escrows.insert(
                        bounty_id,
                        Escrow { remaining_amount: left as i128, status, ..e },
                    ),
                    approvals: s.approvals.remove(bounty_id),
                    ..s
                },
                Effects {
                    auth: None,
                    transfer: Some(Transfer::Payout { to: a.recipient, amount: a.amount }),
                    event: Event::FundsRefunded {
                        bounty_id,
                        recipient: a.recipient,
                        amount: a.amount,
                        remaining_amount: left as i128,
                    },
                },
            ),
        )
    } else if now >= s.escrows[bounty_id].deadline {
        let e = s.escrows[bounty_id];
        Ok(
            (
                s.with_escrow(
                    bounty_id,
                    Escrow { remaining_amount: 0, status: EscrowStatus::Refunded, ..e },
                ),
                Effects {
                    auth: None,
                    transfer: Some(Transfer::Payout { to: e.depositor, amount: e.remaining_amount }),
                    event: Event::FundsRefunded {
                        bounty_id,
                        recipient: e.depositor,
                        amount: e.remaining_amount,
                        remaining_amount: 0,
                    },
                },
            ),
        )
    } else {
        Err(Error::DeadlineNotPassed)
    }
}

/// What `refund` would do for a bounty at time `now`, as a report.
pub open spec fn refund_eligibility(s: EscrowState, bounty_id: u64, now: u64) -> Result<
    RefundEligibilityView,
    Error,
> {
    if !s.escrows.contains_key(bounty_id) {
        Err(Error::BountyNotFound)
    } else {
        let e = s.escrows[bounty_id];
        let approval_present = s.approvals.contains_key(bounty_id);
        if !refundable(e.status) {
            Ok(
                RefundEligibilityView {
                    eligible: false,
                    code: RefundEligibilityCode::IneligibleInvalidStatus,
                    amount: 0,
                    recipient: None,
                    approval_present,
                },
            )
        } else if approval_present {
            let a = s.approvals[bounty_id];
            Ok(
                RefundEligibilityView {
                    eligible: true,
                    code: RefundEligibilityCode::EligibleAdminApproval,
                    amount: a.amount,
                    recipient: Some(a.recipient),
                    approval_present,
                },
            )
        } else if now >= e.deadline {
            Ok(
                RefundEligibilityView {
                    eligible: true,
                    code: RefundEligibilityCode::EligibleDeadlinePassed,
                    amount: e.remaining_amount,
                    recipient: Some(e.depositor),
                    approval_present,
                },
            )
        } else {
            Ok(
                RefundEligibilityView {
                    eligible: false,
                    code: RefundEligibilityCode::IneligibleDeadlineNotPassed,
                    amount: 0,
                    recipient: None,
                    approval_present,
                },
            )
        }
    }
}

/// `propose_admin_rotation`: the admin names a successor, who may take
/// over once `delay` seconds have passed.
pub open spec fn propose_rotation_outcome(
    s: EscrowState,
    new_admin: Address,
    delay: u64,
    now: u64,
) -> Result<(EscrowState, Effects), Error> {
    if s.config is None {
        Err(Error::NotInitialized)
    } else if s.pending_rotation is Some {
        Err(Error::AdminRotationAlreadyPending)
    } else if delay < MIN_ADMIN_ROTATION_DELAY_SECS || delay > MAX_ADMIN_ROTATION_DELAY_SECS
        || now + delay > u64::MAX {
        Err(Error::InvalidAdminRotationDelay)
    } else if new_admin == s.config->0.admin {
        Err(Error::InvalidAdminRotationTarget)
    } else {
        let admin = s.config->0.admin;
        let p = AdminRotationProposal {
            proposed_admin: new_admin,
            proposed_by: admin,
            proposed_at: now,
            executable_after: (now + delay) as u64,
        };
        Ok(
            (
                EscrowState { pending_rotation: Some(p), ..s },
                Effects {
                    auth: Some(admin),
                    transfer: None,
                    event: Event::AdminRotationProposed {
                        current_admin: admin,
                        proposed_admin: new_admin,
                        executable_after: p.executable_after,
                    },
                },
            ),
        )
    }
}

/// `accept_admin_rotation`: the proposed admin takes over once the timelock ran out.
pub open spec fn accept_rotation_outcome(s: EscrowState, now: u64) -> Result<
    (EscrowState, Effects),
    Error,
> {
    if s.config is None {
        Err(Error::NotInitialized)
    } else if s.pending_rotation is None {
        Err(Error::AdminRotationNotPending)
    } else if now < s.pending_rotation->0.executable_after {
        Err(Error::AdminRotationTimelockActive)
    } else {
        let c = s.config->0;
        let p = s.pending_rotation->0;
        Ok(
            (
                EscrowState {
                    config: Some(Config { admin: p.proposed_admin, ..c }),
                    pending_rotation: None,
                    ..s
                },
                Effects {
                    auth: Some(p.proposed_admin),
                    transfer: None,
                    event: Event::AdminRotationAccepted {
                        previous_admin: c.admin,
                        new_admin: p.proposed_admin,
                    },
                },
            ),
        )
    }
}

/// `cancel_admin_rotation`: the admin withdraws the pending proposal.
pub open spec fn cancel_rotation_outcome(s: EscrowState) -> Result<(EscrowState, Effects), Error> {
    if s.config is None {
        Err(Error::NotInitialized)
    } else if s.pending_rotation is None {
        Err(Error::AdminRotationNotPending)
    } else {
        let admin = s.config->0.admin;
        Ok(
            (
                EscrowState { pending_rotation: None, ..s },
                Effects {
                    auth: Some(admin),
                    transfer: None,
                    event: Event::AdminRotationCancelled {
                        admin,
                        proposed_admin: s.pending_rotation->0.proposed_admin,
                    },
                },
            ),
        )
    }
}

} // verus!
