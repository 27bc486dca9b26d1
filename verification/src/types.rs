//! Domain enums and records shared by the pricing and claim logic.
use vstd::prelude::*;

verus! {

/// Upper bound, in bytes, on a claim's free-text description.
pub const DETAILS_MAX_LEN: u32 = 256;

/// Upper bound, in bytes, on one supporting-image URL of a claim.
pub const IMAGE_URL_MAX_LEN: u32 = 128;

/// Upper bound on the number of supporting-image URLs of a claim.
pub const IMAGE_URLS_MAX: u32 = 5;

/// Upper bound, in bytes, on a policy termination reason.
pub const REASON_MAX_LEN: u32 = 128;

/// Coverage category.  A categorical enum keeps policy records bounded and
/// matches the `PolicyType` union used by the backend.
#[derive(Clone, Copy, PartialEq, Eq, Structural, Debug)]
pub enum PolicyType {
    Auto,
    Health,
    Property,
}

/// Geographic risk tier; maps one to one onto the premium multiplier table.
#[derive(Clone, Copy, PartialEq, Eq, Structural, Debug)]
pub enum RegionTier {
    /// rural / low-risk zone
    Low,
    /// suburban
    Medium,
    /// urban / high-risk zone
    High,
}

/// Claim lifecycle state.
///
/// `Processing` moves to `Approved` when a majority of approve votes is
/// reached, and to `Rejected` on a reject majority or when the policy is
/// deactivated.  `Approved` and `Rejected` are terminal.
#[derive(Clone, Copy, PartialEq, Eq, Structural, Debug)]
pub enum ClaimStatus {
    Processing,
    Approved,
    Rejected,
}

impl ClaimStatus {
    /// Whether the status is one of the two terminal states.
    pub open spec fn terminal(self) -> bool {
        self is Approved || self is Rejected
    }

    /// Returns true only for the two terminal states.
    pub fn is_terminal(&self) -> (r: bool)
        ensures
            r == self.terminal(),
            *self == ClaimStatus::Processing ==> !r,
            *self == ClaimStatus::Approved ==> r,
            *self == ClaimStatus::Rejected ==> r,
    {
        match self {
            ClaimStatus::Approved | ClaimStatus::Rejected => true,
            ClaimStatus::Processing => false,
        }
    }
}

/// Ballot option cast by a policyholder during claim voting.
#[derive(Clone, Copy, PartialEq, Eq, Structural, Debug)]
pub enum VoteOption {
    Approve,
    Reject,
}

/// Premium quote line item for display: one pricing component, its factor
/// and the part of the annual premium (in stroops) that it contributes.
#[derive(Clone, Debug)]
pub struct PremiumQuoteLineItem {
    pub component: String,
    pub factor: i128,
    pub amount: i128,
}

/// Structured quote response: the annual premium, an optional breakdown,
/// and the last ledger at which the quote holds.
#[derive(Clone, Debug)]
pub struct PremiumQuote {
    pub total_premium: i128,
    pub line_items: Option<Vec<PremiumQuoteLineItem>>,
    pub valid_until_ledger: u32,
}

/// Kind of data source that may attest a parametric trigger.  No trusted
/// source is defined yet.
#[derive(Clone, Copy, PartialEq, Eq, Structural, Debug)]
pub enum OracleSource {
    Undefined,
}

/// Kind of event that may trigger a parametric claim.  No event type is
/// defined yet.
#[derive(Clone, Copy, PartialEq, Eq, Structural, Debug)]
pub enum TriggerEventType {
    Undefined,
}

/// Status of an oracle trigger in the resolution pipeline.
#[derive(Clone, Copy, PartialEq, Eq, Structural, Debug)]
pub enum TriggerStatus {
    /// Recorded but not yet validated.
    Pending,
    /// Passed all validation checks.
    Validated,
    /// Rejected (invalid signature, replayed, ...).
    Rejected,
    /// Payout initiated.
    Executed,
    /// Time to live exceeded.
    Expired,
}

/// A claim resolved from an oracle trigger rather than filed by hand.
#[derive(Clone, Copy, PartialEq, Eq, Structural, Debug)]
pub struct ParametricClaim {
    /// Claim id in the standard claims system.
    pub claim_id: u64,
    /// Trigger that caused this claim.
    pub trigger_id: u64,
    /// Amount set by the parametric schedule, in stroops.
    pub amount: i128,
    /// Status of the parametric resolution.
    pub status: TriggerStatus,
    /// Ledger sequence at which the resolution occurred.
    pub resolved_ledger: u32,
}

} // verus!
