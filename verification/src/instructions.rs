//! The four operations: create a campaign, donate to it, claim its pool,
//! refund a pledge.
//!
//! Each operation is described by two spec functions: one that names the
//! failure with which a call is rejected, if it is, and one that gives the
//! setting after a call that is not. The executable function checks every
//! condition before it changes anything, so a rejected call has no effect.

use crate::accounts::{Claim, CreateCampaign, Donate, Refund, Wallet};
use crate::error::ErrorCode;
use crate::state::{Campaign, CampaignStatus, Donation, DonationStatus};
use vstd::prelude::*;

verus! {

/// The campaign record that creation writes.
pub open spec fn new_campaign(
    creator: Wallet,
    name: String,
    description: String,
    target_amount: u64,
    start_time: i64,
    end_time: i64,
) -> Campaign {
    Campaign {
        creator: creator.key,
        amount_pledged: 0,
        target_amount,
        start_time,
        end_time,
        name,
        description,
        status: CampaignStatus::Active,
    }
}

/// Opens a campaign for the calling creator: nothing pledged yet, status
/// `Active`, the other fields as given. No funds move. The time stamp only
/// tells apart the campaigns of one creator where records are addressed; it
/// is not recorded.
///
/// The record slot must be vacant, and the texts must fit the record's fixed
/// storage (`Campaign::check_text` tests that).
pub fn create_campaign(
    ctx: &mut CreateCampaign,
    name: String,
    description: String,
    target_amount: u64,
    start_time: i64,
    end_time: i64,
    _timestamp: i64,
) -> (result: Result<(), ErrorCode>)
    requires
        old(ctx).campaign is None,
        Campaign::text_fits(name@, description@),
    ensures
        result == Ok::<(), ErrorCode>(()),
        final(ctx).creator == old(ctx).creator,
        final(ctx).campaign == Some(
            new_campaign(old(ctx).creator, name, description, target_amount, start_time, end_time),
        ),
        final(ctx).campaign.unwrap().fits_storage(),
{
    ctx.campaign = Some(
        Campaign {
            creator: ctx.creator.key,
            amount_pledged: 0,
            target_amount,
            start_time,
            end_time,
            name,
            description,
            status: CampaignStatus::Active,
        },
    );
    Ok(())
}

/// The failure with which a donation of `amount` at time `now` is rejected,
/// or `None` where it goes through. The time window is tested first, then the
/// pledge total, then the two balances.
pub open spec fn donate_error(ctx: Donate, amount: u64, now: i64) -> Option<ErrorCode> {
    if now < ctx.campaign.start_time {
        Some(ErrorCode::CampaignNotStarted)
    } else if now > ctx.campaign.end_time {
        Some(ErrorCode::CampaignHasEnded)
    } else if ctx.campaign.amount_pledged + amount > u64::MAX {
        Some(ErrorCode::IntegerOverflow)
    } else if ctx.donator.balance < amount {
        Some(ErrorCode::InsufficientFundsForTransfer)
    } else if ctx.pool_balance + amount > u64::MAX {
        Some(ErrorCode::OverflowError)
    } else {
        None
    }
}

/// The setting after a donation of `amount` that went through: the amount has
/// moved from the donor to the pool, the pledge total has grown by it, and
/// the donor's pledge record holds it, active. A record that was there before
/// is overwritten: it holds the latest amount, not a sum.
pub open spec fn donated(ctx: Donate, amount: u64) -> Donate {
    Donate {
        campaign: Campaign {
            amount_pledged: (ctx.campaign.amount_pledged + amount) as u64,
            ..ctx.campaign
        },
        campaign_key: ctx.campaign_key,
        pool_balance: (ctx.pool_balance + amount) as u64,
        donator: Wallet { key: ctx.donator.key, balance: (ctx.donator.balance - amount) as u64 },
        donation: Some(
            Donation {
                donator: ctx.donator.key,
                campaign: ctx.campaign_key,
                amount,
                status: DonationStatus::Active,
            },
        ),
    }
}

/// Pledges `amount` from the calling donor to the campaign at time `now`.
pub fn donate(ctx: &mut Donate, amount: u64, now: i64) -> (result: Result<(), ErrorCode>)
    ensures
        match donate_error(*old(ctx), amount, now) {
            Some(e) => result == Err::<(), ErrorCode>(e) && *final(ctx) == *old(ctx),
            None => result == Ok::<(), ErrorCode>(()) && *final(ctx) == donated(*old(ctx), amount),
        },
{
    if now < ctx.campaign.start_time {
        return Err(ErrorCode::CampaignNotStarted);
    }
    if now > ctx.campaign.end_time {
        return Err(ErrorCode::CampaignHasEnded);
    }
    let pledged: u64 = match ctx.campaign.amount_pledged.checked_add(amount) {
        Some(total) => total,
        None => {
            return Err(ErrorCode::IntegerOverflow);
        },
    };
    if ctx.donator.balance < amount {
        return Err(ErrorCode::InsufficientFundsForTransfer);
    }
    let pool: u64 = match ctx.pool_balance.checked_add(amount) {
        Some(total) => total,
        None => {
            return Err(ErrorCode::OverflowError);
        },
    };
    ctx.donator.balance = ctx.donator.balance - amount;
    ctx.pool_balance = pool;
    ctx.campaign.amount_pledged = pledged;
    ctx.donation = Some(
        Donation {
            donator: ctx.donator.key,
            campaign: ctx.campaign_key,
            amount,
            status: DonationStatus::Active,
        },
    );
    Ok(())
}

/// What a claim pays the creator: the pool without the reserved minimum that
/// the campaign record must keep.
pub open spec fn claim_payout(ctx: Claim, reserved_minimum: u64) -> int {
    ctx.pool_balance - reserved_minimum
}

/// The failure with which a claim at time `now` is rejected, or `None` where
/// it goes through.
pub open spec fn claim_error(ctx: Claim, now: i64, reserved_minimum: u64) -> Option<ErrorCode> {
    if now < ctx.campaign.end_time {
        Some(ErrorCode::CampaignStillActive)
    } else if ctx.campaign.amount_pledged < ctx.campaign.target_amount {
        Some(ErrorCode::TargetNotMet)
    } else if ctx.campaign.status == CampaignStatus::Claimed {
        Some(ErrorCode::CampaignClaimed)
    } else if ctx.pool_balance < reserved_minimum {
        Some(ErrorCode::InsufficientFundsForTransfer)
    } else if ctx.creator.balance + claim_payout(ctx, reserved_minimum) > u64::MAX {
        Some(ErrorCode::OverflowError)
    } else {
        None
    }
}

/// The setting after a claim that went through: the pool is down to the
/// reserved minimum, the rest is with the creator, and the campaign is
/// `Claimed`.
pub open spec fn claimed(ctx: Claim, reserved_minimum: u64) -> Claim {
    Claim {
        campaign: Campaign { status: CampaignStatus::Claimed, ..ctx.campaign },
        pool_balance: reserved_minimum,
        creator: Wallet {
            key: ctx.creator.key,
            balance: (ctx.creator.balance + claim_payout(ctx, reserved_minimum)) as u64,
        },
    }
}

/// Releases the pool of a campaign that met its target to its creator, at
/// time `now`. The pool keeps `reserved_minimum`.
///
/// The caller must be the campaign's recorded creator.
pub fn claim(ctx: &mut Claim, now: i64, reserved_minimum: u64) -> (result: Result<(), ErrorCode>)
    requires
        old(ctx).creator.key == old(ctx).campaign.creator,
    ensures
        match claim_error(*old(ctx), now, reserved_minimum) {
            Some(e) => result == Err::<(), ErrorCode>(e) && *final(ctx) == *old(ctx),
            None => result == Ok::<(), ErrorCode>(()) && *final(ctx) == claimed(
                *old(ctx),
                reserved_minimum,
            ),
        },
{
    if now < ctx.campaign.end_time {
        return Err(ErrorCode::CampaignStillActive);
    }
    if ctx.campaign.amount_pledged < ctx.campaign.target_amount {
        return Err(ErrorCode::TargetNotMet);
    }
    if ctx.campaign.status == CampaignStatus::Claimed {
        return Err(ErrorCode::CampaignClaimed);
    }
    if ctx.pool_balance < reserved_minimum {
        return Err(ErrorCode::InsufficientFundsForTransfer);
    }
    let payout: u64 = ctx.pool_balance - reserved_minimum;
    let paid: u64 = match ctx.creator.balance.checked_add(payout) {
        Some(total) => total,
        None => {
            return Err(ErrorCode::OverflowError);
        },
    };
    ctx.pool_balance = reserved_minimum;
    ctx.creator.balance = paid;
    ctx.campaign.status = CampaignStatus::Claimed;
    Ok(())
}

/// The failure with which a refund at time `now` is rejected, or `None` where
/// it goes through.
pub open spec fn refund_error(ctx: Refund, now: i64) -> Option<ErrorCode> {
    if now < ctx.campaign.end_time {
        Some(ErrorCode::CampaignStillActive)
    } else if ctx.campaign.amount_pledged >= ctx.campaign.target_amount {
        Some(ErrorCode::CampaignMetTarget)
    } else if ctx.campaign.status == CampaignStatus::Claimed {
        Some(ErrorCode::CampaignClaimed)
    } else if ctx.donation.status == DonationStatus::Refunded {
        Some(ErrorCode::CampaignRefunded)
    } else if ctx.pool_balance < ctx.donation.amount {
        Some(ErrorCode::InsufficientFundsForTransfer)
    } else if ctx.campaign.amount_pledged < ctx.donation.amount {
        Some(ErrorCode::OverflowError)
    } else if ctx.donator.balance + ctx.donation.amount > u64::MAX {
        Some(ErrorCode::OverflowError)
    } else {
        None
    }
}

/// The setting after a refund that went through: the pledge's amount has
/// moved from the pool to the donor, the pledge total is down by it, the
/// campaign is `Failed`, and the pledge is `Refunded` with nothing
/// outstanding.
pub open spec fn refunded(ctx: Refund) -> Refund {
    Refund {
        campaign: Campaign {
            amount_pledged: (ctx.campaign.amount_pledged - ctx.donation.amount) as u64,
            status: CampaignStatus::Failed,
            ..ctx.campaign
        },
        pool_balance: (ctx.pool_balance - ctx.donation.amount) as u64,
        donator: Wallet {
            key: ctx.donator.key,
            balance: (ctx.donator.balance + ctx.donation.amount) as u64,
        },
        donation: Donation { amount: 0, status: DonationStatus::Refunded, ..ctx.donation },
    }
}

/// Returns the calling donor's pledge from the pool of a campaign that
/// missed its target, at time `now`.
///
/// The caller must be the owner of the pledge record.
pub fn refund(ctx: &mut Refund, now: i64) -> (result: Result<(), ErrorCode>)
    requires
        old(ctx).donator.key == old(ctx).donation.donator,
    ensures
        match refund_error(*old(ctx), now) {
            Some(e) => result == Err::<(), ErrorCode>(e) && *final(ctx) == *old(ctx),
            None => result == Ok::<(), ErrorCode>(()) && *final(ctx) == refunded(*old(ctx)),
        },
{
    if now < ctx.campaign.end_time {
        return Err(ErrorCode::CampaignStillActive);
    }
    if ctx.campaign.amount_pledged >= ctx.campaign.target_amount {
        return Err(ErrorCode::CampaignMetTarget);
    }
    if ctx.campaign.status == CampaignStatus::Claimed {
        return Err(ErrorCode::CampaignClaimed);
    }
    if ctx.donation.status == DonationStatus::Refunded {
        return Err(ErrorCode::CampaignRefunded);
    }
    let payout: u64 = ctx.donation.amount;
    if ctx.pool_balance < payout {
        return Err(ErrorCode::InsufficientFundsForTransfer);
    }
    if ctx.campaign.amount_pledged < payout {
        return Err(ErrorCode::OverflowError);
    }
    let paid: u64 = match ctx.donator.balance.checked_add(payout) {
        Some(total) => total,
        None => {
            return Err(ErrorCode::OverflowError);
        },
    };
    ctx.pool_balance = ctx.pool_balance - payout;
    ctx.donator.balance = paid;
    ctx.campaign.amount_pledged = ctx.campaign.amount_pledged - payout;
    ctx.campaign.status = CampaignStatus::Failed;
    ctx.donation.amount = 0;
    ctx.donation.status = DonationStatus::Refunded;
    Ok(())
}

} // verus!
