//! The named failures with which an operation is rejected.

use vstd::prelude::*;

verus! {

/// Why an operation was rejected. A rejected operation changes nothing.
#[derive(Clone, Copy, Debug, PartialEq, Eq, Structural)]
pub enum ErrorCode {
    /// A donation arrived before the campaign's start time.
    CampaignNotStarted,
    /// A donation arrived after the campaign's end time.
    CampaignHasEnded,
    /// A claim or refund arrived before the campaign's end time.
    CampaignStillActive,
    /// The running total of pledges would exceed what a `u64` holds.
    IntegerOverflow,
    /// A claim was attempted on a campaign that missed its target.
    TargetNotMet,
    /// A refund was attempted on a campaign that met its target.
    CampaignMetTarget,
    /// The campaign's pool was already paid out to its creator.
    CampaignClaimed,
    /// The donor's pledge was already returned.
    CampaignRefunded,
    /// The paying balance does not hold the amount to move.
    InsufficientFundsForTransfer,
    /// A balance, or the pledge total on its way down, would leave the range of a `u64`.
    OverflowError,
}

impl ErrorCode {
    /// The message shown to a caller for this failure.
    pub fn message(&self) -> (text: &'static str)
        ensures
            text@ == self.message_text(),
    {
        match self {
            ErrorCode::CampaignNotStarted => "The campaign is not started yet.",
            ErrorCode::CampaignHasEnded => "The campaign has ended.",
            ErrorCode::CampaignStillActive => "The campaign is still active.",
            ErrorCode::IntegerOverflow => "Integer overflow occurred.",
            ErrorCode::TargetNotMet => "Target amount not met.",
            ErrorCode::CampaignMetTarget => "Campaign has met target amount.",
            ErrorCode::CampaignClaimed => "Campaign has already been claimed.",
            ErrorCode::CampaignRefunded => "Campaign has already been refunded.",
            ErrorCode::InsufficientFundsForTransfer => "Insufficient funds for transfer.",
            ErrorCode::OverflowError => "Overflow error occurred.",
        }
    }

    /// The text of each failure's message.
    pub open spec fn message_text(&self) -> Seq<char> {
        match self {
            ErrorCode::CampaignNotStarted => "The campaign is not started yet."@,
            ErrorCode::CampaignHasEnded => "The campaign has ended."@,
            ErrorCode::CampaignStillActive => "The campaign is still active."@,
            ErrorCode::IntegerOverflow => "Integer overflow occurred."@,
            ErrorCode::TargetNotMet => "Target amount not met."@,
            ErrorCode::CampaignMetTarget => "Campaign has met target amount."@,
            ErrorCode::CampaignClaimed => "Campaign has already been claimed."@,
            ErrorCode::CampaignRefunded => "Campaign has already been refunded."@,
            ErrorCode::InsufficientFundsForTransfer => "Insufficient funds for transfer."@,
            ErrorCode::OverflowError => "Overflow error occurred."@,
        }
    }
}

} // verus!
