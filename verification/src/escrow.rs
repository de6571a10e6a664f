//! The escrow itself: its storage, the operations on bounties, and the
//! two-step hand-over of the admin role with a timelock between the
//! proposal and its acceptance.
use std::collections::HashMap;
use vstd::prelude::*;
use crate::model::{
    accept_rotation_outcome, approve_refund_outcome, cancel_rotation_outcome, committed,
    empty_state, follows, init_outcome, loaded_state, lock_funds_outcome, partial_release_outcome,
    propose_rotation_outcome, refund_eligibility, refund_outcome, release_funds_outcome,
    EscrowState,
};
use crate::types::{
    Address, AdminRotationProposal, Config, Effects, Error, Escrow, EscrowStatus, Event,
    RefundApproval, RefundEligibilityCode, RefundEligibilityView, RefundMode, Transfer,
    ADMIN_ROTATION_SCHEMA_VERSION, MAX_ADMIN_ROTATION_DELAY_SECS, MIN_ADMIN_ROTATION_DELAY_SECS,
};

verus! {

broadcast use vstd::std_specs::hash::group_hash_axioms;

/// The escrow's storage. Every operation takes the current ledger time
/// where it needs one and returns the effects the host must carry out.
pub struct BountyEscrow {
    pub(crate) config: Option<Config>,
    pub(crate) escrows: HashMap<u64, Escrow>,
    pub(crate) approvals: HashMap<u64, RefundApproval>,
    pub(crate) pending_rotation: Option<AdminRotationProposal>,
    pub(crate) schema_version: u32,
}

impl View for BountyEscrow {
    type V = EscrowState;

    closed spec fn view(&self) -> EscrowState {
        EscrowState {
            config: self.config,
            escrows: self.escrows@,
            approvals: self.approvals@,
            pending_rotation: self.pending_rotation,
            schema_version: self.schema_version,
        }
    }
}

impl BountyEscrow {
    /// The storage's invariant.
    pub open spec fn wf(&self) -> bool {
        self@.wf()
    }

    /// An escrow that has not been initialized yet.
    pub fn new() -> (r: BountyEscrow)
        ensures
            r@ == empty_state(),
            r.wf(),
    {
        let r = BountyEscrow {
            config: None,
            escrows: HashMap::new(),
            approvals: HashMap::new(),
            pending_rotation: None,
            schema_version: 0,
        };
        assert(r@ =~= empty_state());
        r
    }

    /// Rebuilds the storage around a single bounty from records a host kept:
    /// the settings, the pending rotation, the schema version, and the
    /// bounty's record and refund approval where they exist. Records that
    /// break the storage's invariant are refused with `None`.
    pub fn load(
        config: Option<Config>,
        pending_rotation: Option<AdminRotationProposal>,
        schema_version: u32,
        bounty_id: u64,
        escrow: Option<Escrow>,
        approval: Option<RefundApproval>,
    ) -> (r: Option<BountyEscrow>)
        ensures
            r is Some <==> loaded_state(
                config,
                pending_rotation,
                schema_version,
                bounty_id,
                escrow,
                approval,
            ).wf(),
            r matches Some(b) ==> b@ == loaded_state(
                config,
                pending_rotation,
                schema_version,
                bounty_id,
                escrow,
                approval,
            ),
    {
        let ghost target = loaded_state(
            config,
            pending_rotation,
            schema_version,
            bounty_id,
            escrow,
            approval,
        );
        let settings_ok = match config {
            Some(c) => schema_version == ADMIN_ROTATION_SCHEMA_VERSION && match pending_rotation {
                Some(p) => p.proposed_by == c.admin && p.proposed_admin != c.admin,
                None => true,
            },
            None => schema_version == 0 && escrow.is_none() && pending_rotation.is_none(),
        };
        let escrow_ok = match escrow {
            Some(e) => e.amount > 0 && 0 <= e.remaining_amount && e.remaining_amount <= e.amount
                && match e.status {
                EscrowStatus::Locked => e.remaining_amount > 0,
                EscrowStatus::PartiallyRefunded => 0 < e.remaining_amount && e.remaining_amount
                    < e.amount,
                EscrowStatus::Released => e.remaining_amount == 0,
                EscrowStatus::Refunded => e.remaining_amount == 0,
            },
            None => true,
        };
        let approval_ok = match approval {
            Some(a) => match escrow {
                Some(e) => a.bounty_id == bounty_id && (e.status == EscrowStatus::Locked
                    || e.status == EscrowStatus::PartiallyRefunded) && 0 < a.amount && a.amount
                    <= e.remaining_amount && (a.mode != RefundMode::Full || a.amount
                    == e.remaining_amount),
                None => false,
            },
            None => true,
        };
        proof {
            if escrow is Some && !escrow_ok {
                assert(target.escrows.contains_key(bounty_id));
            }
            if approval is Some && !approval_ok {
                assert(target.approvals.contains_key(bounty_id));
            }
            if config is None && escrow is Some {
                assert(target.escrows.contains_key(bounty_id));
            }
        }
        if !(settings_ok && escrow_ok && approval_ok) {
            return None;
        }
        let mut escrows = HashMap::new();
        if let Some(e) = escrow {
            escrows.insert(bounty_id, e);
        }
        let mut approvals = HashMap::new();
        if let Some(a) = approval {
            approvals.insert(bounty_id, a);
        }
        let r = BountyEscrow { config, escrows, approvals, pending_rotation, schema_version };
        assert(r@ =~= target);
        Some(r)
    }

    /// Sets the admin and the token, once; writes the admin rotation schema version.
    pub fn init(&mut self, admin: Address, token: Address) -> (r: Result<Effects, Error>)
        requires
            old(self).wf(),
        ensures
            final(self).wf(),
            follows(init_outcome(old(self)@, admin, token), old(self)@, final(self)@, r),
    {
        if self.config.is_some() {
            return Err(Error::AlreadyInitialized);
        }
        self.config = Some(Config { admin, token });
        self.schema_version = ADMIN_ROTATION_SCHEMA_VERSION;
        assert(self@ =~= committed(init_outcome(old(self)@, admin, token)));
        Ok(Effects { auth: None, transfer: None, event: Event::Initialized { admin, token } })
    }

    /// Locks `amount` from `depositor` for a new bounty.
    pub fn lock_funds(&mut self, depositor: Address, bounty_id: u64, amount: i128, deadline: u64) -> (r:
        Result<Effects, Error>)
        requires
            old(self).wf(),
        ensures
            final(self).wf(),
            follows(
                lock_funds_outcome(old(self)@, depositor, bounty_id, amount, deadline),
                old(self)@,
                final(self)@,
                r,
            ),
    {
        if self.config.is_none() {
            return Err(Error::NotInitialized);
        }
        if self.escrows.contains_key(&bounty_id) {
            return Err(Error::BountyExists);
        }
        if amount <= 0 {
            return Err(Error::InvalidAmount);
        }
        let e = Escrow {
            depositor,
            amount,
            remaining_amount: amount,
            status: EscrowStatus::Locked,
            deadline,
        };
        self.escrows.insert(bounty_id, e);
        assert(self@ =~= old(self)@.with_escrow(bounty_id, e));
        Ok(
            Effects {
                auth: Some(depositor),
                transfer: Some(Transfer::Deposit { from: depositor, amount }),
                event: Event::FundsLocked { bounty_id, depositor, amount, deadline },
            },
        )
    }

    /// Pays everything still locked for the bounty to `contributor`.
    pub fn release_funds(&mut self, bounty_id: u64, contributor: Address) -> (r: Result<
        Effects,
        Error,
    >)
        requires
            old(self).wf(),
        ensures
            final(self).wf(),
            follows(
                release_funds_outcome(old(self)@, bounty_id, contributor),
                old(self)@,
                final(self)@,
                r,
            ),
    {
        let admin = match self.config {
            None => return Err(Error::NotInitialized),
            Some(c) => c.admin,
        };
        let e = match self.escrows.get(&bounty_id) {
            None => return Err(Error::BountyNotFound),
            Some(e) => *e,
        };
        if e.status != EscrowStatus::Locked {
            return Err(Error::FundsNotLocked);
        }
        let paid = e.remaining_amount;
        let updated = Escrow { remaining_amount: 0, status: EscrowStatus::Released, ..e };
        self.escrows.insert(bounty_id, updated);
        self.approvals.remove(&bounty_id);
        assert(self@ =~= committed(release_funds_outcome(old(self)@, bounty_id, contributor)));
        Ok(
            Effects {
                auth: Some(admin),
                transfer: Some(Transfer::Payout { to: contributor, amount: paid }),
                event: Event::FundsReleased {
                    bounty_id,
                    recipient: contributor,
                    amount: paid,
                    remaining_amount: 0,
                },
            },
        )
    }

    /// Pays `amount` of what is still locked for the bounty to `contributor`.
    pub fn partial_release(&mut self, bounty_id: u64, contributor: Address, amount: i128) -> (r:
        Result<Effects, Error>)
        requires
            old(self).wf(),
        ensures
            final(self).wf(),
            follows(
                partial_release_outcome(old(self)@, bounty_id, contributor, amount),
                old(self)@,
                final(self)@,
                r,
            ),
    {
        let admin = match self.config {
            None => return Err(Error::NotInitialized),
            Some(c) => c.admin,
        };
        let e = match self.escrows.get(&bounty_id) {
            None => return Err(Error::BountyNotFound),
            Some(e) => *e,
        };
        if e.status != EscrowStatus::Locked {
            return Err(Error::FundsNotLocked);
        }
        if amount <= 0 || amount > e.remaining_amount {
            return Err(Error::InvalidAmount);
        }
        let left = e.remaining_amount - amount;
        let status = if left == 0 {
            EscrowStatus::Released
        } else {
            EscrowStatus::Locked
        };
        let updated = Escrow { remaining_amount: left, status, ..e };
        self.escrows.insert(bounty_id, updated);
        self.approvals.remove(&bounty_id);
        assert(self@ =~= committed(partial_release_outcome(old(self)@, bounty_id, contributor, amount)));
        Ok(
            Effects {
                auth: Some(admin),
                transfer: Some(Transfer::Payout { to: contributor, amount }),
                event: Event::FundsReleased {
                    bounty_id,
                    recipient: contributor,
                    amount,
                    remaining_amount: left,
                },
            },
        )
    }

    /// Records the admin's approval of a refund of `amount` to `recipient`.
    pub fn approve_refund(
        &mut self,
        bounty_id: u64,
        amount: i128,
        recipient: Address,
        mode: RefundMode,
        now: u64,
    ) -> (r: Result<Effects, Error>)
        requires
            old(self).wf(),
        ensures
            final(self).wf(),
            follows(
                approve_refund_outcome(old(self)@, bounty_id, amount, recipient, mode, now),
                old(self)@,
                final(self)@,
                r,
            ),
    {
        let admin = match self.config {
            None => return Err(Error::NotInitialized),
            Some(c) => c.admin,
        };
        let e = match self.escrows.get(&bounty_id) {
            None => return Err(Error::BountyNotFound),
            Some(e) => *e,
        };
        if e.status != EscrowStatus::Locked && e.status != EscrowStatus::PartiallyRefunded {
            return Err(Error::FundsNotLocked);
        }
        if amount <= 0 || amount > e.remaining_amount || (mode == RefundMode::Full && amount
            != e.remaining_amount) {
            return Err(Error::InvalidAmount);
        }
        let a = RefundApproval {
            bounty_id,
            amount,
            recipient,
            mode,
            approved_by: admin,
            approved_at: now,
        };
        self.approvals.insert(bounty_id, a);
        assert(self@ =~= committed(approve_refund_outcome(
            old(self)@,
            bounty_id,
            amount,
            recipient,
            mode,
            now,
        )));
        Ok(
            Effects {
                auth: Some(admin),
                transfer: None,
                event: Event::RefundApproved { bounty_id, recipient, amount, mode },
            },
        )
    }

    /// Pays an approved refund, or, once `now` has reached the deadline,
    /// everything that is left back to the depositor.
    pub fn refund(&mut self, bounty_id: u64, now: u64) -> (r: Result<Effects, Error>)
        requires
            old(self).wf(),
        ensures
            final(self).wf(),
            follows(refund_outcome(old(self)@, bounty_id, now), old(self)@, final(self)@, r),
    {
        if self.config.is_none() {
            return Err(Error::NotInitialized);
        }
        let e = match self.escrows.get(&bounty_id) {
            None => return Err(Error::BountyNotFound),
            Some(e) => *e,
        };
        if e.status != EscrowStatus::Locked && e.status != EscrowStatus::PartiallyRefunded {
            return Err(Error::FundsNotLocked);
        }
        match self.approvals.get(&bounty_id) {
            Some(a) => {
                let a = *a;
                let left = e.remaining_amount - a.amount;
                let status = if left == 0 {
                    EscrowStatus::Refunded
                } else {
                    EscrowStatus::PartiallyRefunded
                };
                let updated = Escrow { remaining_amount: left, status, ..e };
                self.escrows.insert(bounty_id, updated);
                self.approvals.remove(&bounty_id);
                assert(self@ =~= committed(refund_outcome(old(self)@, bounty_id, now)));
                Ok(
                    Effects {
                        auth: None,
                        transfer: Some(Transfer::Payout { to: a.recipient, amount: a.amount }),
                        event: Event::FundsRefunded {
                            bounty_id,
                            recipient: a.recipient,
                            amount: a.amount,
                            remaining_amount: left,
                        },
                    },
                )
            },
            None => {
                if now < e.deadline {
                    return Err(Error::DeadlineNotPassed);
                }
                let updated = Escrow { remaining_amount: 0, status: EscrowStatus::Refunded, ..e };
                self.escrows.insert(bounty_id, updated);
                assert(self@ =~= committed(refund_outcome(old(self)@, bounty_id, now)));
                Ok(
                    Effects {
                        auth: None,
                        transfer: Some(
                            Transfer::Payout { to: e.depositor, amount: e.remaining_amount },
                        ),
                        event: Event::FundsRefunded {
                            bounty_id,
                            recipient: e.depositor,
                            amount: e.remaining_amount,
                            remaining_amount: 0,
                        },
                    },
                )
            },
        }
    }

    /// The record of a bounty.
    pub fn get_escrow_info(&self, bounty_id: u64) -> (r: Result<Escrow, Error>)
        ensures
            r == (if self@.escrows.contains_key(bounty_id) {
                Ok::<Escrow, Error>(self@.escrows[bounty_id])
            } else {
                Err::<Escrow, Error>(Error::BountyNotFound)
            }),
    {
        match self.escrows.get(&bounty_id) {
            None => Err(Error::BountyNotFound),
            Some(e) => Ok(*e),
        }
    }

    /// The refund approval pending for a bounty, if any.
    pub fn get_refund_approval(&self, bounty_id: u64) -> (r: Option<RefundApproval>)
        ensures
            r == (if self@.approvals.contains_key(bounty_id) {
                Some(self@.approvals[bounty_id])
            } else {
                None
            }),
    {
        match self.approvals.get(&bounty_id) {
            None => None,
            Some(a) => Some(*a),
        }
    }

    /// Whether `refund` would succeed at time `now`, for what amount and to whom.
    pub fn get_refund_eligibility_view(&self, bounty_id: u64, now: u64) -> (r: Result<
        RefundEligibilityView,
        Error,
    >)
        ensures
            r == refund_eligibility(self@, bounty_id, now),
    {
        let e = match self.escrows.get(&bounty_id) {
            None => return Err(Error::BountyNotFound),
            Some(e) => *e,
        };
        let approval = self.approvals.get(&bounty_id);
        let approval_present = approval.is_some();
        if e.status != EscrowStatus::Locked && e.status != EscrowStatus::PartiallyRefunded {
            return Ok(
                RefundEligibilityView {
                    eligible: false,
                    code: RefundEligibilityCode::IneligibleInvalidStatus,
                    amount: 0,
                    recipient: None,
                    approval_present,
                },
            );
        }
        match approval {
            Some(a) => Ok(
                RefundEligibilityView {
                    eligible: true,
                    code: RefundEligibilityCode::EligibleAdminApproval,
                    amount: a.amount,
                    recipient: Some(a.recipient),
                    approval_present,
                },
            ),
            None => {
                if now >= e.deadline {
                    Ok(
                        RefundEligibilityView {
                            eligible: true,
                            code: RefundEligibilityCode::EligibleDeadlinePassed,
                            amount: e.remaining_amount,
                            recipient: Some(e.depositor),
                            approval_present,
                        },
                    )
                } else {
                    Ok(
                        RefundEligibilityView {
                            eligible: false,
                            code: RefundEligibilityCode::IneligibleDeadlineNotPassed,
                            amount: 0,
                            recipient: None,
                            approval_present,
                        },
                    )
                }
            },
        }
    }

    /// The current admin, once initialized.
    pub fn get_admin(&self) -> (r: Option<Address>)
        ensures
            r == (match self@.config {
                Some(c) => Some(c.admin),
                None => None,
            }),
    {
        match self.config {
            Some(c) => Some(c.admin),
            None => None,
        }
    }

    /// The escrowed token, once initialized.
    pub fn get_token(&self) -> (r: Option<Address>)
        ensures
            r == (match self@.config {
                Some(c) => Some(c.token),
                None => None,
            }),
    {
        match self.config {
            Some(c) => Some(c.token),
            None => None,
        }
    }
}

impl BountyEscrow {
    /// The admin proposes `new_admin` as successor; the proposal may be
    /// accepted `delay` seconds after `now`.
    pub fn propose_admin_rotation(&mut self, new_admin: Address, delay: u64, now: u64) -> (r:
        Result<Effects, Error>)
        requires
            old(self).wf(),
        ensures
            final(self).wf(),
            follows(
                propose_rotation_outcome(old(self)@, new_admin, delay, now),
                old(self)@,
                final(self)@,
                r,
            ),
    {
        let admin = match self.config {
            None => return Err(Error::NotInitialized),
            Some(c) => c.admin,
        };
        if self.pending_rotation.is_some() {
            return Err(Error::AdminRotationAlreadyPending);
        }
        if delay < MIN_ADMIN_ROTATION_DELAY_SECS || delay > MAX_ADMIN_ROTATION_DELAY_SECS {
            return Err(Error::InvalidAdminRotationDelay);
        }
        let executable_after = match now.checked_add(delay) {
            None => return Err(Error::InvalidAdminRotationDelay),
            Some(t) => t,
        };
        if new_admin == admin {
            return Err(Error::InvalidAdminRotationTarget);
        }
        let p = AdminRotationProposal {
            proposed_admin: new_admin,
            proposed_by: admin,
            proposed_at: now,
            executable_after,
        };
        self.pending_rotation = Some(p);
        assert(self@ =~= committed(propose_rotation_outcome(old(self)@, new_admin, delay, now)));
        Ok(
            Effects {
                auth: Some(admin),
                transfer: None,
                event: Event::AdminRotationProposed {
                    current_admin: admin,
                    proposed_admin: new_admin,
                    executable_after,
                },
            },
        )
    }

    /// The proposed admin takes over, once `now` has reached the end of the timelock.
    pub fn accept_admin_rotation(&mut self, now: u64) -> (r: Result<Effects, Error>)
        requires
            old(self).wf(),
        ensures
            final(self).wf(),
            follows(accept_rotation_outcome(old(self)@, now), old(self)@, final(self)@, r),
    {
        let c = match self.config {
            None => return Err(Error::NotInitialized),
            Some(c) => c,
        };
        let p = match self.pending_rotation {
            None => return Err(Error::AdminRotationNotPending),
            Some(p) => p,
        };
        if now < p.executable_after {
            return Err(Error::AdminRotationTimelockActive);
        }
        self.config = Some(Config { admin: p.proposed_admin, token: c.token });
        self.pending_rotation = None;
        assert(self@ =~= committed(accept_rotation_outcome(old(self)@, now)));
        Ok(
            Effects {
                auth: Some(p.proposed_admin),
                transfer: None,
                event: Event::AdminRotationAccepted {
                    previous_admin: c.admin,
                    new_admin: p.proposed_admin,
                },
            },
        )
    }

    /// The admin withdraws the pending proposal.
    pub fn cancel_admin_rotation(&mut self) -> (r: Result<Effects, Error>)
        requires
            old(self).wf(),
        ensures
            final(self).wf(),
            follows(cancel_rotation_outcome(old(self)@), old(self)@, final(self)@, r),
    {
        let admin = match self.config {
            None => return Err(Error::NotInitialized),
            Some(c) => c.admin,
        };
        let p = match self.pending_rotation {
            None => return Err(Error::AdminRotationNotPending),
            Some(p) => p,
        };
        self.pending_rotation = None;
        assert(self@ =~= committed(cancel_rotation_outcome(old(self)@)));
        Ok(
            Effects {
                auth: Some(admin),
                transfer: None,
                event: Event::AdminRotationCancelled { admin, proposed_admin: p.proposed_admin },
            },
        )
    }

    /// The pending admin rotation, if any.
    pub fn get_pending_admin_rotation(&self) -> (r: Option<AdminRotationProposal>)
        ensures
            r == self@.pending_rotation,
    {
        self.pending_rotation
    }

    /// The admin rotation schema version (0 before `init`).
    pub fn get_admin_rotation_schema_version(&self) -> (r: u32)
        ensures
            r == self@.schema_version,
    {
        self.schema_version
    }
}

} // verus!
