//! What holds of the operations taken together: that a resolution happens
//! once, that the two resolutions exclude each other, that time gates every
//! operation, and that the pledge total follows the active pledges.
//!
//! The laws are stated over the spec functions by which the operations'
//! contracts describe them, so each law holds of the executable operations.

use crate::accounts::{Claim, Donate, Refund};
use crate::error::ErrorCode;
use crate::instructions::{
    claim_error, claim_payout, claimed, donate_error, donated, refund_error, refunded,
};
use crate::state::{Campaign, CampaignStatus, Donation, DonationStatus};
use vstd::prelude::*;

verus! {

/// The sum of what the pledges of a campaign contribute while active.
pub open spec fn active_total(donations: Seq<Donation>) -> nat
    decreases donations.len(),
{
    if donations.len() == 0 {
        0
    } else {
        active_total(donations.drop_last()) + donations.last().active_amount()
    }
}

/// The pledge total of the campaign equals the sum of its active pledges.
pub open spec fn conserved(campaign: Campaign, donations: Seq<Donation>) -> bool {
    campaign.amount_pledged == active_total(donations)
}

/// The pledge records of a campaign after one of them was written: at the
/// given place, or as a new last record where the donor had none.
pub open spec fn stored(donations: Seq<Donation>, place: Option<int>, record: Donation) -> Seq<
    Donation,
> {
    match place {
        Some(i) => donations.update(i, record),
        None => donations.push(record),
    }
}

/// Whether `place` is where the donor's record of a donation's setting lies
/// among the campaign's pledge records: an index of that record, or nothing
/// where the donor has none yet.
pub open spec fn placed(donations: Seq<Donation>, place: Option<int>, record: Option<Donation>) -> bool {
    match place {
        Some(i) => 0 <= i < donations.len() && record == Some(donations[i]),
        None => record is None,
    }
}

/// Writing one record changes the sum by what the new record has
/// outstanding less what the old one had.
pub(crate) proof fn total_after_update(donations: Seq<Donation>, i: int, record: Donation)
    requires
        0 <= i < donations.len(),
    ensures
        active_total(donations.update(i, record)) + donations[i].active_amount() == active_total(
            donations,
        ) + record.active_amount(),
    decreases donations.len(),
{
    let written = donations.update(i, record);
    if i == donations.len() - 1 {
        assert(written.drop_last() =~= donations.drop_last());
    } else {
        total_after_update(donations.drop_last(), i, record);
        assert(written.drop_last() =~= donations.drop_last().update(i, record));
    }
}

/// A new record adds what it has outstanding to the sum.
pub(crate) proof fn total_after_push(donations: Seq<Donation>, record: Donation)
    ensures
        active_total(donations.push(record)) == active_total(donations) + record.active_amount(),
{
    assert(donations.push(record).drop_last() =~= donations);
}

/// Once a claim went through, every later claim on the campaign is rejected,
/// whatever the time and the reserve; from the end time on the failure is
/// `CampaignClaimed`.
pub proof fn no_double_claim(ctx: Claim, now: i64, reserved: u64, later: i64, later_reserved: u64)
    requires
        claim_error(ctx, now, reserved) is None,
    ensures
        claim_error(claimed(ctx, reserved), later, later_reserved) is Some,
        later >= ctx.campaign.end_time ==> claim_error(claimed(ctx, reserved), later, later_reserved)
            == Some(ErrorCode::CampaignClaimed),
{
}

/// A campaign that is `Claimed` stays so: no claim and no refund goes
/// through on it, a donation leaves its status alone, and after its end time
/// no donation goes through either, so that neither its pledge total nor its
/// pool changes again.
pub proof fn claimed_is_terminal(
    claim_ctx: Claim,
    refund_ctx: Refund,
    donate_ctx: Donate,
    now: i64,
    reserved: u64,
    amount: u64,
)
    requires
        claim_ctx.campaign.status == CampaignStatus::Claimed,
        refund_ctx.campaign.status == CampaignStatus::Claimed,
        donate_ctx.campaign.status == CampaignStatus::Claimed,
    ensures
        claim_error(claim_ctx, now, reserved) is Some,
        refund_error(refund_ctx, now) is Some,
        donated(donate_ctx, amount).campaign.status == CampaignStatus::Claimed,
        now > donate_ctx.campaign.end_time ==> donate_error(donate_ctx, amount, now) is Some,
{
}

/// Once a refund went through, every later refund of the same pledge is
/// rejected, whatever the time; from the end time on the failure is
/// `CampaignRefunded`.
pub proof fn no_double_refund(ctx: Refund, now: i64, later: i64)
    requires
        refund_error(ctx, now) is None,
    ensures
        refund_error(refunded(ctx), later) is Some,
        later >= ctx.campaign.end_time ==> refund_error(refunded(ctx), later) == Some(
            ErrorCode::CampaignRefunded,
        ),
{
}

/// A pledge that is `Refunded` is never refunded again, whatever the state of
/// its campaign; and a refund that goes through leaves the pledge `Refunded`
/// with nothing outstanding.
pub proof fn refunded_pledge_is_inert(ctx: Refund, now: i64)
    ensures
        ctx.donation.status == DonationStatus::Refunded ==> refund_error(ctx, now) is Some,
        refunded(ctx).donation.status == DonationStatus::Refunded,
        refunded(ctx).donation.active_amount() == 0,
{
}

/// A donation that goes through keeps the pledge total equal to the sum of
/// the active pledges, where the donor had no record or one with nothing
/// outstanding. In every case the total grows by the amount while the sum
/// loses what the overwritten record had outstanding.
pub proof fn donate_conserves(
    ctx: Donate,
    amount: u64,
    now: i64,
    donations: Seq<Donation>,
    place: Option<int>,
)
    requires
        donate_error(ctx, amount, now) is None,
        placed(donations, place, ctx.donation),
    ensures
        active_total(stored(donations, place, donated(ctx, amount).donation.unwrap())) + (
        match ctx.donation {
            Some(earlier) => earlier.active_amount(),
            None => 0,
        }) == active_total(donations) + amount,
        donated(ctx, amount).campaign.amount_pledged == ctx.campaign.amount_pledged + amount,
        conserved(ctx.campaign, donations) && (match ctx.donation {
            Some(earlier) => earlier.active_amount() == 0,
            None => true,
        }) ==> conserved(
            donated(ctx, amount).campaign,
            stored(donations, place, donated(ctx, amount).donation.unwrap()),
        ),
{
    let record = donated(ctx, amount).donation.unwrap();
    match place {
        Some(i) => {
            total_after_update(donations, i, record);
        },
        None => {
            total_after_push(donations, record);
        },
    }
}

/// A claim that goes through changes neither the pledge total nor any
/// pledge, so the total stays equal to the sum of the active pledges.
pub proof fn claim_conserves(ctx: Claim, now: i64, reserved: u64, donations: Seq<Donation>)
    requires
        claim_error(ctx, now, reserved) is None,
        conserved(ctx.campaign, donations),
    ensures
        conserved(claimed(ctx, reserved).campaign, donations),
{
}

/// A refund of an active pledge that goes through keeps the pledge total
/// equal to the sum of the active pledges.
pub proof fn refund_conserves(ctx: Refund, now: i64, donations: Seq<Donation>, i: int)
    requires
        refund_error(ctx, now) is None,
        0 <= i < donations.len(),
        donations[i] == ctx.donation,
        ctx.donation.status == DonationStatus::Active,
        conserved(ctx.campaign, donations),
    ensures
        conserved(refunded(ctx).campaign, donations.update(i, refunded(ctx).donation)),
{
    total_after_update(donations, i, refunded(ctx).donation);
}

/// No pledge has more outstanding than all active pledges together. So
/// while the pledge total covers that sum, a refund never fails for want of
/// pledged funds to take off.
pub proof fn pledge_within_total(donations: Seq<Donation>, i: int)
    requires
        0 <= i < donations.len(),
    ensures
        donations[i].active_amount() <= active_total(donations),
    decreases donations.len(),
{
    if i < donations.len() - 1 {
        pledge_within_total(donations.drop_last(), i);
    }
}

/// Time gates every operation. After the end time of a campaign that has
/// started, a donation fails with `CampaignHasEnded`, whatever was pledged;
/// before the start time it fails with `CampaignNotStarted`; before the end
/// time a claim and a refund fail with `CampaignStillActive`.
pub proof fn time_gating(
    donate_ctx: Donate,
    claim_ctx: Claim,
    refund_ctx: Refund,
    amount: u64,
    reserved: u64,
    now: i64,
)
    ensures
        now < donate_ctx.campaign.start_time ==> donate_error(donate_ctx, amount, now) == Some(
            ErrorCode::CampaignNotStarted,
        ),
        now > donate_ctx.campaign.end_time ==> donate_error(donate_ctx, amount, now) is Some,
        now > donate_ctx.campaign.end_time && now >= donate_ctx.campaign.start_time
            ==> donate_error(donate_ctx, amount, now) == Some(ErrorCode::CampaignHasEnded),
        now < claim_ctx.campaign.end_time ==> claim_error(claim_ctx, now, reserved) == Some(
            ErrorCode::CampaignStillActive,
        ),
        now < refund_ctx.campaign.end_time ==> refund_error(refund_ctx, now) == Some(
            ErrorCode::CampaignStillActive,
        ),
{
}

/// The two resolutions exclude each other: a claim goes through only where
/// the target is met, a refund only where it is not, so on one state of a
/// campaign at most one of them goes through.
pub proof fn resolutions_exclude(
    claim_ctx: Claim,
    refund_ctx: Refund,
    claim_time: i64,
    refund_time: i64,
    reserved: u64,
)
    ensures
        claim_error(claim_ctx, claim_time, reserved) is None ==> claim_ctx.campaign.target_met(),
        refund_error(refund_ctx, refund_time) is None ==> !refund_ctx.campaign.target_met(),
        claim_ctx.campaign == refund_ctx.campaign ==> !(claim_error(
            claim_ctx,
            claim_time,
            reserved,
        ) is None && refund_error(refund_ctx, refund_time) is None),
{
}

/// A donation that would take the pledge total past what a `u64` holds never
/// goes through; within the campaign's window the failure is
/// `IntegerOverflow`.
pub proof fn overflow_is_rejected(ctx: Donate, amount: u64, now: i64)
    requires
        ctx.campaign.amount_pledged + amount > u64::MAX,
    ensures
        donate_error(ctx, amount, now) is Some,
        ctx.campaign.open_at(now) ==> donate_error(ctx, amount, now) == Some(
            ErrorCode::IntegerOverflow,
        ),
{
}

/// Funds are moved, never made or lost: what the pool and the caller hold
/// together is the same after each operation that goes through, and a claim
/// leaves the pool exactly its reserve.
pub proof fn funds_are_moved(
    donate_ctx: Donate,
    claim_ctx: Claim,
    refund_ctx: Refund,
    amount: u64,
    reserved: u64,
    now: i64,
)
    ensures
        donate_error(donate_ctx, amount, now) is None ==> donated(donate_ctx, amount).pool_balance
            + donated(donate_ctx, amount).donator.balance == donate_ctx.pool_balance
            + donate_ctx.donator.balance,
        claim_error(claim_ctx, now, reserved) is None ==> claimed(claim_ctx, reserved).pool_balance
            + claimed(claim_ctx, reserved).creator.balance == claim_ctx.pool_balance
            + claim_ctx.creator.balance && claimed(claim_ctx, reserved).creator.balance
            == claim_ctx.creator.balance + claim_payout(claim_ctx, reserved),
        refund_error(refund_ctx, now) is None ==> refunded(refund_ctx).pool_balance + refunded(
            refund_ctx,
        ).donator.balance == refund_ctx.pool_balance + refund_ctx.donator.balance,
{
}

} // verus!
