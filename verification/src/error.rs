//! The errors that the operations of this crate return.

use vstd::prelude::*;

verus! {

/// Why an operation was rejected. A rejected operation changes nothing.
#[derive(Clone, Copy, Debug, PartialEq, Eq, Structural)]
pub enum ErrorCode {
    /// The operation is not allowed in the settlement's current status.
    InvalidStatus,
    /// The caller may not perform this operation.
    Unauthorized,
    /// Finalization was attempted while votes could still be retracted.
    RetractPeriodNotExpired,
    /// Retraction was attempted at or after the retraction deadline.
    RetractExpired,
    /// The stake is zero or differs from the stake of the settlement.
    InvalidAmount,
    /// The match identifier is zero.
    InvalidMatchId,
    /// The game identifier is longer than the limit.
    LichessGameIdTooLong,
    /// The vote does not name a participant, or the recorded votes do not
    /// back the winner that was named.
    InvalidVote,
    /// The participant has already voted.
    AlreadyVoted,
    /// The named winner is not a participant, or the payee is not the winner.
    InvalidWinner,
    /// A participant or payee is not who the settlement expects.
    InvalidPlayer,
    /// A participant is banned.
    PlayerBanned,
    /// The participant has no recorded vote to retract.
    NothingToRetract,
    /// Force-close was attempted before the settlement reached its minimum age.
    CloseTooEarly,
    /// A bounded quantity would overflow.
    Overflow,
    /// The achievement has already been claimed by this participant.
    AlreadyClaimed,
    /// The last achievement claim is too recent.
    ClaimCooldown,
    /// The profile does not meet the achievement's thresholds.
    NotEligible,
}

} // verus!
