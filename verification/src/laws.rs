//! What holds of the escrow across operations.
use vstd::prelude::*;
use crate::model::{
    accept_rotation_outcome, approve_refund_outcome, committed, cancel_rotation_outcome, init_outcome,
    lock_funds_outcome, partial_release_outcome, propose_rotation_outcome, refund_eligibility,
    refund_outcome, refundable, release_funds_outcome, EscrowState,
};
use crate::types::{
    Config, Event, ADMIN_ROTATION_SCHEMA_VERSION, AdminRotationProposal, RefundApproval, MAX_ADMIN_ROTATION_DELAY_SECS,
    MIN_ADMIN_ROTATION_DELAY_SECS, Address, Effects, Error, Escrow, EscrowStatus, RefundEligibilityCode, RefundEligibilityView,
    RefundMode, Transfer,
};

verus! {

/// A request to the escrow, with its arguments.
pub enum Request {
    Init { admin: Address, token: Address },
    LockFunds { depositor: Address, bounty_id: u64, amount: i128, deadline: u64 },
    ReleaseFunds { bounty_id: u64, contributor: Address },
    PartialRelease { bounty_id: u64, contributor: Address, amount: i128 },
    ApproveRefund { bounty_id: u64, amount: i128, recipient: Address, mode: RefundMode },
    Refund { bounty_id: u64 },
    ProposeAdminRotation { new_admin: Address, delay: u64 },
    AcceptAdminRotation,
    CancelAdminRotation,
}

/// What the escrow answers to `req` at time `now`, and the state it leaves.
pub open spec fn step(s: EscrowState, req: Request, now: u64) -> Result<(EscrowState, Effects), Error> {
    match req {
        Request::Init { admin, token } => init_outcome(s, admin, token),
        Request::LockFunds { depositor, bounty_id, amount, deadline } => lock_funds_outcome(
            s,
            depositor,
            bounty_id,
            amount,
            deadline,
        ),
        Request::ReleaseFunds { bounty_id, contributor } => release_funds_outcome(
            s,
            bounty_id,
            contributor,
        ),
        Request::PartialRelease { bounty_id, contributor, amount } => partial_release_outcome(
            s,
            bounty_id,
            contributor,
            amount,
        ),
        Request::ApproveRefund { bounty_id, amount, recipient, mode } => approve_refund_outcome(
            s,
            bounty_id,
            amount,
            recipient,
            mode,
            now,
        ),
        Request::Refund { bounty_id } => refund_outcome(s, bounty_id, now),
        Request::ProposeAdminRotation { new_admin, delay } => propose_rotation_outcome(
            s,
            new_admin,
            delay,
            now,
        ),
        Request::AcceptAdminRotation => accept_rotation_outcome(s, now),
        Request::CancelAdminRotation => cancel_rotation_outcome(s),
    }
}

/// The status changes that a bounty may go through.
pub open spec fn allowed_transition(from: EscrowStatus, to: EscrowStatus) -> bool {
    match from {
        EscrowStatus::Locked => true,
        EscrowStatus::PartiallyRefunded => to == EscrowStatus::PartiallyRefunded || to
            == EscrowStatus::Refunded,
        EscrowStatus::Released => to == EscrowStatus::Released,
        EscrowStatus::Refunded => to == EscrowStatus::Refunded,
    }
}

/// The current admin, if any.
pub open spec fn admin_of(s: EscrowState) -> Option<Address> {
    match s.config {
        Some(c) => Some(c.admin),
        None => None,
    }
}

/// Every request keeps the invariant.
pub proof fn law_step_keeps_wf(s: EscrowState, req: Request, now: u64)
    requires
        s.wf(),
    ensures
        step(s, req, now) matches Ok((t, _)) ==> t.wf(),
{
    match req {
        Request::Init { admin, token } => {
            if let Ok((t, _)) = step(s, req, now) {
                assert(t.escrows =~= s.escrows);
            }
        },
        _ => {},
    }
}

/// No request forgets a bounty, a released or fully refunded bounty never
/// changes status again, and a partially refunded bounty can only be
/// refunded further.
pub proof fn law_status_transitions(s: EscrowState, req: Request, now: u64, bounty_id: u64)
    requires
        s.wf(),
        s.escrows.contains_key(bounty_id),
    ensures
        step(s, req, now) matches Ok((t, _)) ==> {
            &&& t.escrows.contains_key(bounty_id)
            &&& allowed_transition(s.escrows[bounty_id].status, t.escrows[bounty_id].status)
        },
{
}

/// A released or fully refunded bounty accepts no further movement of
/// funds: releasing, partially releasing, approving a refund and refunding
/// are refused with `FundsNotLocked`, and locking funds under its id again
/// is refused with `BountyExists`.
pub proof fn law_settled_bounty_is_final(
    s: EscrowState,
    bounty_id: u64,
    contributor: Address,
    amount: i128,
    recipient: Address,
    mode: RefundMode,
    depositor: Address,
    deadline: u64,
    now: u64,
)
    requires
        s.wf(),
        s.config is Some,
        s.escrows.contains_key(bounty_id),
        s.escrows[bounty_id].status == EscrowStatus::Released || s.escrows[bounty_id].status
            == EscrowStatus::Refunded,
    ensures
        release_funds_outcome(s, bounty_id, contributor) == Err::<(EscrowState, Effects), Error>(
            Error::FundsNotLocked,
        ),
        partial_release_outcome(s, bounty_id, contributor, amount) == Err::<
            (EscrowState, Effects),
            Error,
        >(Error::FundsNotLocked),
        approve_refund_outcome(s, bounty_id, amount, recipient, mode, now) == Err::<
            (EscrowState, Effects),
            Error,
        >(Error::FundsNotLocked),
        refund_outcome(s, bounty_id, now) == Err::<(EscrowState, Effects), Error>(
            Error::FundsNotLocked,
        ),
        lock_funds_outcome(s, depositor, bounty_id, amount, deadline) == Err::<
            (EscrowState, Effects),
            Error,
        >(Error::BountyExists),
{
}

/// Funds move only together with the record of exactly one bounty: a
/// deposit creates a bounty that holds exactly the deposit, a payout takes
/// exactly the paid amount off one bounty, every transfer is of a positive
/// amount, all other bounties are left as they were, and a request without
/// a transfer changes no bounty.
pub proof fn law_funds_follow_transfers(s: EscrowState, req: Request, now: u64)
    requires
        s.wf(),
    ensures
        step(s, req, now) matches Ok((t, e)) ==> match e.transfer {
            None => t.escrows == s.escrows,
            Some(Transfer::Deposit { from, amount }) => exists|id: u64|
                {
                    &&& !s.escrows.contains_key(id)
                    &&& #[trigger] t.escrows.contains_key(id)
                    &&& t.escrows == s.escrows.insert(id, t.escrows[id])
                    &&& t.escrows[id].remaining_amount == amount
                    &&& t.escrows[id].depositor == from
                    &&& amount > 0
                },
            Some(Transfer::Payout { to, amount }) => exists|id: u64|
                {
                    &&& #[trigger] s.escrows.contains_key(id)
                    &&& t.escrows == s.escrows.insert(id, t.escrows[id])
                    &&& t.escrows[id].remaining_amount + amount == s.escrows[id].remaining_amount
                    &&& t.escrows[id].amount == s.escrows[id].amount
                    &&& t.escrows[id].depositor == s.escrows[id].depositor
                    &&& amount > 0
                },
        },
{
    match req {
        Request::Init { admin, token } => {
            if let Ok((t, e)) = step(s, req, now) {
                assert(t.escrows =~= s.escrows);
            }
        },
        Request::LockFunds { depositor, bounty_id, amount, deadline } => {
            if let Ok((t, e)) = step(s, req, now) {
                assert(t.escrows.contains_key(bounty_id));
                assert(t.escrows =~= s.escrows.insert(bounty_id, t.escrows[bounty_id]));
            }
        },
        Request::ReleaseFunds { bounty_id, contributor } => {
            if let Ok((t, e)) = step(s, req, now) {
                assert(s.escrows.contains_key(bounty_id));
                assert(t.escrows =~= s.escrows.insert(bounty_id, t.escrows[bounty_id]));
            }
        },
        Request::PartialRelease { bounty_id, contributor, amount } => {
            if let Ok((t, e)) = step(s, req, now) {
                assert(s.escrows.contains_key(bounty_id));
                assert(t.escrows =~= s.escrows.insert(bounty_id, t.escrows[bounty_id]));
            }
        },
        Request::Refund { bounty_id } => {
            if let Ok((t, e)) = step(s, req, now) {
                assert(s.escrows.contains_key(bounty_id));
                assert(t.escrows =~= s.escrows.insert(bounty_id, t.escrows[bounty_id]));
            }
        },
        _ => {},
    }
}

/// The admin changes only by accepting a pending rotation, only once its
/// timelock has run out, and then becomes the proposed admin with nothing
/// pending any more.
pub proof fn law_admin_changes_only_by_accepted_rotation(s: EscrowState, req: Request, now: u64)
    requires
        s.wf(),
        s.config is Some,
    ensures
        step(s, req, now) matches Ok((t, _)) ==> {
            ||| admin_of(t) == admin_of(s)
            ||| {
                &&& req is AcceptAdminRotation
                &&& s.pending_rotation matches Some(p)
                &&& now >= p.executable_after
                &&& admin_of(t) == Some(p.proposed_admin)
                &&& t.pending_rotation is None
            }
        },
{
}

/// Cancelling right after a successful proposal gives back the state from
/// before the proposal.
pub proof fn law_cancel_undoes_propose(s: EscrowState, new_admin: Address, delay: u64, now: u64)
    requires
        s.wf(),
        propose_rotation_outcome(s, new_admin, delay, now) is Ok,
    ensures
        cancel_rotation_outcome(committed(propose_rotation_outcome(s, new_admin, delay, now))) matches Ok(
            (u, _),
        ) && u == s,
{
    let t = committed(propose_rotation_outcome(s, new_admin, delay, now));
    assert(committed(cancel_rotation_outcome(t)) =~= s);
}

/// A proposed rotation can be accepted exactly when its timelock has run
/// out: before `executable_after` it is refused with
/// `AdminRotationTimelockActive`, from then on it succeeds.
pub proof fn law_timelock(s: EscrowState, new_admin: Address, delay: u64, now: u64, later: u64)
    requires
        s.wf(),
        propose_rotation_outcome(s, new_admin, delay, now) is Ok,
    ensures
        ({
            let t = committed(propose_rotation_outcome(s, new_admin, delay, now));
            &&& later < now + delay ==> accept_rotation_outcome(t, later) == Err::<
                (EscrowState, Effects),
                Error,
            >(Error::AdminRotationTimelockActive)
            &&& later >= now + delay ==> (accept_rotation_outcome(t, later) matches Ok((u, _))
                && admin_of(u) == Some(new_admin) && u.pending_rotation is None)
        }),
{
}

/// Locking funds records the bounty as given, with everything still held.
pub proof fn law_lock_records_bounty(
    s: EscrowState,
    depositor: Address,
    bounty_id: u64,
    amount: i128,
    deadline: u64,
)
    requires
        s.wf(),
        s.config is Some,
        !s.escrows.contains_key(bounty_id),
        amount > 0,
    ensures
        lock_funds_outcome(s, depositor, bounty_id, amount, deadline) matches Ok((t, _))
            && t.escrows.contains_key(bounty_id) && t.escrows[bounty_id] == (Escrow {
            depositor,
            amount,
            remaining_amount: amount,
            status: EscrowStatus::Locked,
            deadline,
        }),
{
}

/// How a refund eligibility report relates to the refund it describes.
pub open spec fn eligibility_matches_refund(
    report: Result<RefundEligibilityView, Error>,
    refund: Result<(EscrowState, Effects), Error>,
) -> bool {
    match report {
        Err(x) => refund == Err::<(EscrowState, Effects), Error>(x),
        Ok(v) => {
            &&& v.eligible <==> refund is Ok
            &&& v.eligible ==> (refund matches Ok((_, e)) && v.recipient is Some && e.transfer
                == Some(Transfer::Payout { to: v.recipient->0, amount: v.amount }))
            &&& v.code == RefundEligibilityCode::IneligibleInvalidStatus ==> refund == Err::<
                (EscrowState, Effects),
                Error,
            >(Error::FundsNotLocked)
            &&& v.code == RefundEligibilityCode::IneligibleDeadlineNotPassed ==> refund == Err::<
                (EscrowState, Effects),
                Error,
            >(Error::DeadlineNotPassed)
        },
    }
}

/// The refund eligibility view tells in advance what `refund` does: the
/// bounty is reported eligible exactly when the refund succeeds, and then
/// the refund pays the reported amount to the reported recipient; when it
/// is reported ineligible, the code names the refusal (`IneligibleInvalidStatus`
/// for `FundsNotLocked`, `IneligibleDeadlineNotPassed` for `DeadlineNotPassed`).
pub proof fn law_eligibility_predicts_refund(s: EscrowState, bounty_id: u64, now: u64)
    requires
        s.wf(),
        s.config is Some,
    ensures
        eligibility_matches_refund(refund_eligibility(s, bounty_id, now), refund_outcome(s, bounty_id, now)),
{
}

/// Without an approval, a refund before the deadline is refused, and from
/// the deadline on it gives everything still held back to the depositor and
/// settles the bounty as refunded.
pub proof fn law_deadline_refund(s: EscrowState, bounty_id: u64, now: u64)
    requires
        s.wf(),
        s.config is Some,
        s.escrows.contains_key(bounty_id),
        refundable(s.escrows[bounty_id].status),
        !s.approvals.contains_key(bounty_id),
    ensures
        now < s.escrows[bounty_id].deadline ==> refund_outcome(s, bounty_id, now) == Err::<
            (EscrowState, Effects),
            Error,
        >(Error::DeadlineNotPassed),
        now >= s.escrows[bounty_id].deadline ==> (refund_outcome(s, bounty_id, now) matches Ok(
            (t, e),
        ) && e.transfer == Some(
            Transfer::Payout {
                to: s.escrows[bounty_id].depositor,
                amount: s.escrows[bounty_id].remaining_amount,
            },
        ) && t.escrows[bounty_id].status == EscrowStatus::Refunded
            && t.escrows[bounty_id].remaining_amount == 0 && t.escrows[bounty_id].amount
            == s.escrows[bounty_id].amount && e.event == (Event::FundsRefunded {
            bounty_id,
            recipient: s.escrows[bounty_id].depositor,
            amount: s.escrows[bounty_id].remaining_amount,
            remaining_amount: 0,
        })),
{
}

/// A rotation proposal is judged by its delay, not by the time at which it
/// is made: with nothing pending and a successor other than the admin, a
/// delay inside `MIN_ADMIN_ROTATION_DELAY_SECS ..= MAX_ADMIN_ROTATION_DELAY_SECS`
/// is accepted at every ledger time (as long as `now + delay` fits in a
/// `u64`), the stored proposal names the successor and the current admin and
/// becomes executable exactly `delay` seconds after `now`, the admin must
/// authorize it, and the admin itself stays in place until acceptance; a
/// delay outside that window is refused with `InvalidAdminRotationDelay`.
pub proof fn law_propose_rotation_checks_the_delay(
    s: EscrowState,
    new_admin: Address,
    delay: u64,
    now: u64,
)
    requires
        s.wf(),
        s.config is Some,
        s.pending_rotation is None,
        new_admin != s.config->0.admin,
    ensures
        MIN_ADMIN_ROTATION_DELAY_SECS <= delay <= MAX_ADMIN_ROTATION_DELAY_SECS && now + delay
            <= u64::MAX ==> (propose_rotation_outcome(s, new_admin, delay, now) matches Ok((t, e))
            && t.pending_rotation == Some(
            AdminRotationProposal {
                proposed_admin: new_admin,
                proposed_by: s.config->0.admin,
                proposed_at: now,
                executable_after: (now + delay) as u64,
            },
        ) && t.config == s.config && t.escrows == s.escrows && t.approvals == s.approvals
            && e.auth == Some(s.config->0.admin) && e.transfer is None && e.event == (
        Event::AdminRotationProposed {
            current_admin: s.config->0.admin,
            proposed_admin: new_admin,
            executable_after: (now + delay) as u64,
        })),
        delay < MIN_ADMIN_ROTATION_DELAY_SECS || delay > MAX_ADMIN_ROTATION_DELAY_SECS
            ==> propose_rotation_outcome(s, new_admin, delay, now) == Err::<
            (EscrowState, Effects),
            Error,
        >(Error::InvalidAdminRotationDelay),
{
}

/// A pending refund approval is honoured whenever the bounty can still be
/// refunded, before or after its deadline: the refund pays exactly the
/// approved amount to the approved recipient, takes exactly that amount off
/// what the bounty holds, uses up the approval, and leaves the bounty
/// `Refunded` when nothing is left and `PartiallyRefunded` otherwise.
pub proof fn law_approved_refund_pays_the_approval(s: EscrowState, bounty_id: u64, now: u64)
    requires
        s.wf(),
        s.config is Some,
        s.escrows.contains_key(bounty_id),
        refundable(s.escrows[bounty_id].status),
        s.approvals.contains_key(bounty_id),
    ensures
        ({
            let a = s.approvals[bounty_id];
            let old_e = s.escrows[bounty_id];
            refund_outcome(s, bounty_id, now) matches Ok((t, e)) && e.transfer == Some(
                Transfer::Payout { to: a.recipient, amount: a.amount },
            ) && t.escrows.contains_key(bounty_id) && t.escrows[bounty_id].remaining_amount
                == old_e.remaining_amount - a.amount && t.escrows[bounty_id].amount == old_e.amount
                && t.escrows[bounty_id].depositor == old_e.depositor
                && t.escrows[bounty_id].deadline == old_e.deadline
                && !t.approvals.contains_key(bounty_id) && (t.escrows[bounty_id].status
                == EscrowStatus::Refunded <==> a.amount == old_e.remaining_amount)
                && (t.escrows[bounty_id].status == EscrowStatus::PartiallyRefunded <==> a.amount
                < old_e.remaining_amount) && e.event == (Event::FundsRefunded {
                bounty_id,
                recipient: a.recipient,
                amount: a.amount,
                remaining_amount: (old_e.remaining_amount - a.amount) as i128,
            })
        }),
{
}

/// Releasing a locked bounty always succeeds, whether or not part of it
/// was released before: it pays everything the bounty still holds to the
/// contributor, on the admin's authorization, and settles it as `Released`
/// with nothing left and no refund approval pending.
pub proof fn law_release_pays_all_that_is_locked(
    s: EscrowState,
    bounty_id: u64,
    contributor: Address,
)
    requires
        s.wf(),
        s.config is Some,
        s.escrows.contains_key(bounty_id),
        s.escrows[bounty_id].status == EscrowStatus::Locked,
    ensures
        release_funds_outcome(s, bounty_id, contributor) matches Ok((t, e)) && e.transfer == Some(
            Transfer::Payout { to: contributor, amount: s.escrows[bounty_id].remaining_amount },
        ) && e.auth == Some(s.config->0.admin) && t.escrows.contains_key(bounty_id)
            && t.escrows[bounty_id].status == EscrowStatus::Released
            && t.escrows[bounty_id].remaining_amount == 0 && !t.approvals.contains_key(bounty_id)
            && e.event == (Event::FundsReleased {
            bounty_id,
            recipient: contributor,
            amount: s.escrows[bounty_id].remaining_amount,
            remaining_amount: 0,
        }),
{
}

/// Approving a refund succeeds exactly when the bounty can still be
/// refunded and the amount is positive, at most what the bounty holds, and
/// (for a full refund) all of it; the approval then pending is exactly the
/// one just given, whatever was pending before, signed by the admin at
/// `now`, and no other bounty's approval changes.
pub proof fn law_approve_refund_replaces_the_approval(
    s: EscrowState,
    bounty_id: u64,
    amount: i128,
    recipient: Address,
    mode: RefundMode,
    now: u64,
)
    requires
        s.wf(),
        s.config is Some,
        s.escrows.contains_key(bounty_id),
        refundable(s.escrows[bounty_id].status),
        0 < amount <= s.escrows[bounty_id].remaining_amount,
        mode == RefundMode::Full ==> amount == s.escrows[bounty_id].remaining_amount,
    ensures
        approve_refund_outcome(s, bounty_id, amount, recipient, mode, now) matches Ok((t, e))
            && t.approvals.contains_key(bounty_id) && t.approvals[bounty_id] == (RefundApproval {
            bounty_id,
            amount,
            recipient,
            mode,
            approved_by: s.config->0.admin,
            approved_at: now,
        }) && t.escrows == s.escrows && e.auth == Some(s.config->0.admin) && e.transfer is None
            && e.event == (Event::RefundApproved { bounty_id, recipient, amount, mode }) && (forall|
            id: u64|
            id != bounty_id ==> (#[trigger] t.approvals.contains_key(id) == s.approvals.contains_key(
                id,
            ) && (s.approvals.contains_key(id) ==> t.approvals[id] == s.approvals[id]))),
{
}

/// The eligibility report gives the reason that `refund` will act on: when
/// eligible, the code is `EligibleAdminApproval` exactly when an approval
/// is pending, and `EligibleDeadlinePassed` exactly when none is and the
/// refund gives everything left back to the depositor; `approval_present`
/// tells whether an approval is pending.
pub proof fn law_eligibility_reason(s: EscrowState, bounty_id: u64, now: u64)
    requires
        s.wf(),
        s.config is Some,
        s.escrows.contains_key(bounty_id),
    ensures
        refund_eligibility(s, bounty_id, now) matches Ok(v) && v.approval_present
            == s.approvals.contains_key(bounty_id) && (v.eligible ==> ((v.code
            == RefundEligibilityCode::EligibleAdminApproval <==> s.approvals.contains_key(
            bounty_id,
        )) && (v.code == RefundEligibilityCode::EligibleDeadlinePassed <==> (
        !s.approvals.contains_key(bounty_id) && (refund_outcome(s, bounty_id, now) matches Ok(
            (_, e),
        ) && e.transfer == Some(
            Transfer::Payout {
                to: s.escrows[bounty_id].depositor,
                amount: s.escrows[bounty_id].remaining_amount,
            },
        )))))),
{
}

/// Before `init` every operation is refused with `NotInitialized`; `init`
/// then succeeds once, recording the admin and the token and writing the
/// admin rotation schema version, and is refused with `AlreadyInitialized`
/// ever after.
pub proof fn law_init_once(s: EscrowState, req: Request, now: u64, admin: Address, token: Address)
    requires
        s.wf(),
    ensures
        s.config is None && !(req is Init) ==> step(s, req, now) == Err::<
            (EscrowState, Effects),
            Error,
        >(Error::NotInitialized),
        s.config is None ==> (init_outcome(s, admin, token) matches Ok((t, e)) && t.config == Some(
            Config { admin, token },
        ) && t.schema_version == ADMIN_ROTATION_SCHEMA_VERSION && t.escrows == s.escrows
            && t.pending_rotation is None && e.transfer is None),
        s.config is Some ==> init_outcome(s, admin, token) == Err::<(EscrowState, Effects), Error>(
            Error::AlreadyInitialized,
        ),
{
}

/// An operation on a bounty that was never locked is refused with
/// `BountyNotFound` (once initialized), and so is its eligibility report.
pub proof fn law_unknown_bounty(
    s: EscrowState,
    bounty_id: u64,
    contributor: Address,
    amount: i128,
    recipient: Address,
    mode: RefundMode,
    now: u64,
)
    requires
        s.wf(),
        s.config is Some,
        !s.escrows.contains_key(bounty_id),
    ensures
        release_funds_outcome(s, bounty_id, contributor) == Err::<(EscrowState, Effects), Error>(
            Error::BountyNotFound,
        ),
        partial_release_outcome(s, bounty_id, contributor, amount) == Err::<
            (EscrowState, Effects),
            Error,
        >(Error::BountyNotFound),
        approve_refund_outcome(s, bounty_id, amount, recipient, mode, now) == Err::<
            (EscrowState, Effects),
            Error,
        >(Error::BountyNotFound),
        refund_outcome(s, bounty_id, now) == Err::<(EscrowState, Effects), Error>(
            Error::BountyNotFound,
        ),
        refund_eligibility(s, bounty_id, now) == Err::<RefundEligibilityView, Error>(
            Error::BountyNotFound,
        ),
{
}

/// Locking funds under an id already in use is refused with `BountyExists`
/// whatever the amount; under a new id a non-positive amount is refused
/// with `InvalidAmount`, and a positive one is taken from the depositor, on
/// the depositor's authorization, with every other bounty left as it was.
pub proof fn law_lock_funds(
    s: EscrowState,
    depositor: Address,
    bounty_id: u64,
    amount: i128,
    deadline: u64,
)
    requires
        s.wf(),
        s.config is Some,
    ensures
        s.escrows.contains_key(bounty_id) ==> lock_funds_outcome(
            s,
            depositor,
            bounty_id,
            amount,
            deadline,
        ) == Err::<(EscrowState, Effects), Error>(Error::BountyExists),
        !s.escrows.contains_key(bounty_id) && amount <= 0 ==> lock_funds_outcome(
            s,
            depositor,
            bounty_id,
            amount,
            deadline,
        ) == Err::<(EscrowState, Effects), Error>(Error::InvalidAmount),
        !s.escrows.contains_key(bounty_id) && amount > 0 ==> (lock_funds_outcome(
            s,
            depositor,
            bounty_id,
            amount,
            deadline,
        ) matches Ok((t, e)) && e.auth == Some(depositor) && e.transfer == Some(
            Transfer::Deposit { from: depositor, amount },
        ) && e.event == (Event::FundsLocked { bounty_id, depositor, amount, deadline })
            && t.escrows.remove(bounty_id) == s.escrows && t.approvals == s.approvals
            && t.config == s.config && t.pending_rotation == s.pending_rotation),
{
    if !s.escrows.contains_key(bounty_id) && amount > 0 {
        let t = committed(lock_funds_outcome(s, depositor, bounty_id, amount, deadline));
        assert(t.escrows.remove(bounty_id) =~= s.escrows);
    }
}

/// A partial release of a locked bounty succeeds exactly when the amount is
/// positive and at most what the bounty holds: it pays that amount to the
/// contributor on the admin's authorization, takes exactly that amount off
/// the bounty, withdraws any pending refund approval, and leaves the bounty
/// `Released` when nothing is left and `Locked` otherwise. Any other
/// amount is refused with `InvalidAmount`; a bounty that is not `Locked`
/// refuses with `FundsNotLocked`.
pub proof fn law_partial_release(
    s: EscrowState,
    bounty_id: u64,
    contributor: Address,
    amount: i128,
)
    requires
        s.wf(),
        s.config is Some,
        s.escrows.contains_key(bounty_id),
    ensures
        s.escrows[bounty_id].status != EscrowStatus::Locked ==> partial_release_outcome(
            s,
            bounty_id,
            contributor,
            amount,
        ) == Err::<(EscrowState, Effects), Error>(Error::FundsNotLocked),
        s.escrows[bounty_id].status == EscrowStatus::Locked && (amount <= 0 || amount
            > s.escrows[bounty_id].remaining_amount) ==> partial_release_outcome(
            s,
            bounty_id,
            contributor,
            amount,
        ) == Err::<(EscrowState, Effects), Error>(Error::InvalidAmount),
        s.escrows[bounty_id].status == EscrowStatus::Locked && 0 < amount
            <= s.escrows[bounty_id].remaining_amount ==> (partial_release_outcome(
            s,
            bounty_id,
            contributor,
            amount,
        ) matches Ok((t, e)) && e.auth == Some(s.config->0.admin) && e.transfer == Some(
            Transfer::Payout { to: contributor, amount },
        ) && t.escrows.contains_key(bounty_id) && t.escrows[bounty_id].remaining_amount
            == s.escrows[bounty_id].remaining_amount - amount && t.escrows[bounty_id].amount
            == s.escrows[bounty_id].amount && t.escrows[bounty_id].depositor
            == s.escrows[bounty_id].depositor && t.escrows[bounty_id].deadline
            == s.escrows[bounty_id].deadline && !t.approvals.contains_key(bounty_id) && (
        t.escrows[bounty_id].status == EscrowStatus::Released <==> amount
            == s.escrows[bounty_id].remaining_amount) && (t.escrows[bounty_id].status
            == EscrowStatus::Locked <==> amount < s.escrows[bounty_id].remaining_amount)
            && e.event == (Event::FundsReleased {
            bounty_id,
            recipient: contributor,
            amount,
            remaining_amount: (s.escrows[bounty_id].remaining_amount - amount) as i128,
        })),
{
}

/// A report that a bounty cannot be refunded names neither an amount nor a
/// recipient; a settled bounty is reported with `IneligibleInvalidStatus`,
/// and a refundable one without an approval before its deadline with
/// `IneligibleDeadlineNotPassed`.
pub proof fn law_ineligible_reports(s: EscrowState, bounty_id: u64, now: u64)
    requires
        s.wf(),
        s.escrows.contains_key(bounty_id),
    ensures
        refund_eligibility(s, bounty_id, now) matches Ok(v) && (!v.eligible ==> v.amount == 0
            && v.recipient is None),
        !refundable(s.escrows[bounty_id].status) ==> (refund_eligibility(s, bounty_id, now)
            matches Ok(v) && !v.eligible && v.code
            == RefundEligibilityCode::IneligibleInvalidStatus),
        refundable(s.escrows[bounty_id].status) && !s.approvals.contains_key(bounty_id) && now
            < s.escrows[bounty_id].deadline ==> (refund_eligibility(s, bounty_id, now) matches Ok(
            v,
        ) && !v.eligible && v.code == RefundEligibilityCode::IneligibleDeadlineNotPassed),
{
}

/// Accepting a rotation: with nothing pending it is refused with
/// `AdminRotationNotPending`; before the proposal's `executable_after` it
/// is refused with `AdminRotationTimelockActive`; from then on the
/// proposed admin, who must authorize it, replaces the admin, the token
/// stays, nothing is pending any more and no bounty changes.
pub proof fn law_accept_rotation(s: EscrowState, now: u64)
    requires
        s.wf(),
        s.config is Some,
    ensures
        s.pending_rotation is None ==> accept_rotation_outcome(s, now) == Err::<
            (EscrowState, Effects),
            Error,
        >(Error::AdminRotationNotPending),
        s.pending_rotation matches Some(p) && now < p.executable_after ==> accept_rotation_outcome(
            s,
            now,
        ) == Err::<(EscrowState, Effects), Error>(Error::AdminRotationTimelockActive),
        s.pending_rotation matches Some(p) && now >= p.executable_after ==> (accept_rotation_outcome(
            s,
            now,
        ) matches Ok((t, e)) && t.config == Some(
            Config { admin: s.pending_rotation->0.proposed_admin, token: s.config->0.token },
        ) && t.pending_rotation is None && t.escrows == s.escrows && t.approvals == s.approvals
            && e.auth == Some(s.pending_rotation->0.proposed_admin) && e.event == (
        Event::AdminRotationAccepted {
            previous_admin: s.config->0.admin,
            new_admin: s.pending_rotation->0.proposed_admin,
        })),
{
}

/// Cancelling a rotation: with nothing pending it is refused with
/// `AdminRotationNotPending`; otherwise the admin, who must authorize it,
/// withdraws the proposal and nothing else changes.
pub proof fn law_cancel_rotation(s: EscrowState)
    requires
        s.wf(),
        s.config is Some,
    ensures
        s.pending_rotation is None ==> cancel_rotation_outcome(s) == Err::<
            (EscrowState, Effects),
            Error,
        >(Error::AdminRotationNotPending),
        s.pending_rotation matches Some(p) ==> (cancel_rotation_outcome(s) matches Ok((t, e))
            && t.pending_rotation is None && t.config == s.config && t.escrows == s.escrows
            && t.approvals == s.approvals && e.auth == Some(s.config->0.admin) && e.event == (
        Event::AdminRotationCancelled {
            admin: s.config->0.admin,
            proposed_admin: s.pending_rotation->0.proposed_admin,
        })),
{
}

/// A second proposal while one is pending is refused with
/// `AdminRotationAlreadyPending`; proposing the current admin, with a delay
/// in the window, is refused with `InvalidAdminRotationTarget`.
pub proof fn law_propose_rotation_refusals(s: EscrowState, new_admin: Address, delay: u64, now: u64)
    requires
        s.wf(),
        s.config is Some,
    ensures
        s.pending_rotation is Some ==> propose_rotation_outcome(s, new_admin, delay, now) == Err::<
            (EscrowState, Effects),
            Error,
        >(Error::AdminRotationAlreadyPending),
        s.pending_rotation is None && new_admin == s.config->0.admin
            && MIN_ADMIN_ROTATION_DELAY_SECS <= delay <= MAX_ADMIN_ROTATION_DELAY_SECS && now + delay
            <= u64::MAX ==> propose_rotation_outcome(s, new_admin, delay, now) == Err::<
            (EscrowState, Effects),
            Error,
        >(Error::InvalidAdminRotationTarget),
{
}

} // verus!
