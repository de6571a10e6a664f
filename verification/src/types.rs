//! Plain data of the bounty escrow: accounts, escrow records, refund
//! approvals, admin rotation proposals, errors, and the effects that an
//! operation asks its host to carry out.
use vstd::prelude::*;

verus! {

/// Shortest timelock, in seconds, that an admin rotation may be proposed with.
pub const MIN_ADMIN_ROTATION_DELAY_SECS: u64 = 3600;

/// Longest timelock, in seconds, that an admin rotation may be proposed with (7 days).
pub const MAX_ADMIN_ROTATION_DELAY_SECS: u64 = 604800;

/// Layout version of the admin rotation records, written by `init`.
pub const ADMIN_ROTATION_SCHEMA_VERSION: u32 = 1;

/// An account known to the escrow. The host maps its own account
/// identifiers to these numbers one for one.
#[derive(Clone, Copy, Debug, PartialEq, Eq, Hash, Structural)]
pub struct Address {
    pub id: u64,
}

/// Where the funds of a bounty stand.
#[derive(Clone, Copy, Debug, PartialEq, Eq, Structural)]
pub enum EscrowStatus {
    Locked,
    Released,
    Refunded,
    PartiallyRefunded,
}

/// How much of the remaining funds an admin-approved refund gives back.
#[derive(Clone, Copy, Debug, PartialEq, Eq, Structural)]
pub enum RefundMode {
    /// The approval covers everything that is still locked.
    Full,
    /// The approval covers part of what is still locked.
    Partial,
}

/// Why a bounty can or cannot be refunded right now.
#[derive(Clone, Copy, Debug, PartialEq, Eq, Structural)]
pub enum RefundEligibilityCode {
    EligibleDeadlinePassed,
    EligibleAdminApproval,
    IneligibleDeadlineNotPassed,
    IneligibleInvalidStatus,
}

/// The record kept for one bounty.
#[derive(Clone, Copy, Debug, PartialEq, Eq, Structural)]
pub struct Escrow {
    pub depositor: Address,
    /// What was locked in the first place.
    pub amount: i128,
    /// What the escrow still holds for this bounty.
    pub remaining_amount: i128,
    pub status: EscrowStatus,
    /// Time after which the depositor may take the remaining funds back.
    pub deadline: u64,
}

/// A refund that the admin allowed ahead of the deadline.
#[derive(Clone, Copy, Debug, PartialEq, Eq, Structural)]
pub struct RefundApproval {
    pub bounty_id: u64,
    pub amount: i128,
    pub recipient: Address,
    pub mode: RefundMode,
    pub approved_by: Address,
    pub approved_at: u64,
}

/// A pending hand-over of the admin role.
#[derive(Clone, Copy, Debug, PartialEq, Eq, Structural)]
pub struct AdminRotationProposal {
    pub proposed_admin: Address,
    pub proposed_by: Address,
    pub proposed_at: u64,
    /// Earliest time at which the proposed admin may accept.
    pub executable_after: u64,
}

/// What a refund of a bounty would do at a given time.
#[derive(Clone, Copy, Debug, PartialEq, Eq, Structural)]
pub struct RefundEligibilityView {
    pub eligible: bool,
    pub code: RefundEligibilityCode,
    /// What the refund would pay out (0 when it would be refused).
    pub amount: i128,
    /// Who the refund would pay (None when it would be refused).
    pub recipient: Option<Address>,
    pub approval_present: bool,
}

/// The escrow's settings, fixed by `init` (the admin may later rotate).
#[derive(Clone, Copy, Debug, PartialEq, Eq, Structural)]
pub struct Config {
    pub admin: Address,
    pub token: Address,
}

/// Reasons for which the escrow refuses a request.
#[derive(Clone, Copy, Debug, PartialEq, Eq, Structural)]
pub enum Error {
    AlreadyInitialized,
    NotInitialized,
    BountyExists,
    BountyNotFound,
    FundsNotLocked,
    DeadlineNotPassed,
    InvalidAmount,
    AdminRotationAlreadyPending,
    AdminRotationNotPending,
    AdminRotationTimelockActive,
    InvalidAdminRotationDelay,
    InvalidAdminRotationTarget,
}

/// The number under which the host reports an error.
pub open spec fn error_code(e: Error) -> u32 {
    match e {
        Error::AlreadyInitialized => 1,
        Error::NotInitialized => 2,
        Error::BountyExists => 3,
        Error::BountyNotFound => 4,
        Error::FundsNotLocked => 5,
        Error::DeadlineNotPassed => 6,
        Error::InvalidAmount => 7,
        Error::AdminRotationAlreadyPending => 8,
        Error::AdminRotationNotPending => 9,
        Error::AdminRotationTimelockActive => 10,
        Error::InvalidAdminRotationDelay => 11,
        Error::InvalidAdminRotationTarget => 12,
    }
}

impl Error {
    /// The number under which the host reports this error.
    pub fn code(&self) -> (c: u32)
        ensures
            c == error_code(*self),
    {
        match self {
            Error::AlreadyInitialized => 1,
            Error::NotInitialized => 2,
            Error::BountyExists => 3,
            Error::BountyNotFound => 4,
            Error::FundsNotLocked => 5,
            Error::DeadlineNotPassed => 6,
            Error::InvalidAmount => 7,
            Error::AdminRotationAlreadyPending => 8,
            Error::AdminRotationNotPending => 9,
            Error::AdminRotationTimelockActive => 10,
            Error::InvalidAdminRotationDelay => 11,
            Error::InvalidAdminRotationTarget => 12,
        }
    }
}

/// A token movement that the host must carry out for an operation.
#[derive(Clone, Copy, Debug, PartialEq, Eq, Structural)]
pub enum Transfer {
    /// From the account into the escrow.
    Deposit { from: Address, amount: i128 },
    /// From the escrow to the account.
    Payout { to: Address, amount: i128 },
}

/// What the host publishes when an operation succeeds.
#[derive(Clone, Copy, Debug, PartialEq, Eq, Structural)]
pub enum Event {
    Initialized { admin: Address, token: Address },
    FundsLocked { bounty_id: u64, depositor: Address, amount: i128, deadline: u64 },
    FundsReleased { bounty_id: u64, recipient: Address, amount: i128, remaining_amount: i128 },
    FundsRefunded { bounty_id: u64, recipient: Address, amount: i128, remaining_amount: i128 },
    RefundApproved { bounty_id: u64, recipient: Address, amount: i128, mode: RefundMode },
    AdminRotationProposed { current_admin: Address, proposed_admin: Address, executable_after: u64 },
    AdminRotationAccepted { previous_admin: Address, new_admin: Address },
    AdminRotationCancelled { admin: Address, proposed_admin: Address },
}

/// Everything the host does on behalf of a successful operation: check that
/// `auth` signed the request, move the tokens, publish the event.
#[derive(Clone, Copy, Debug, PartialEq, Eq, Structural)]
pub struct Effects {
    pub auth: Option<Address>,
    pub transfer: Option<Transfer>,
    pub event: Event,
}

} // verus!
