//! Single calls: each failure, each formula, each edge.

use crowdfunding::{
    claim, donate, refund, Campaign, CampaignStatus, Claim, Donate, Donation, DonationStatus,
    ErrorCode, Identity, Refund, Wallet,
};

fn key(tag: u8) -> Identity {
    Identity::new([tag; 32])
}

fn campaign(pledged: u64, target: u64, status: CampaignStatus) -> Campaign {
    Campaign {
        creator: key(1),
        amount_pledged: pledged,
        target_amount: target,
        start_time: 100,
        end_time: 200,
        name: String::from("n"),
        description: String::from("d"),
        status,
    }
}

fn pledge(amount: u64, status: DonationStatus) -> Donation {
    Donation { donator: key(2), campaign: key(9), amount, status }
}

fn donating(pledged: u64, pool: u64, donor: u64, record: Option<Donation>) -> Donate {
    Donate {
        campaign: campaign(pledged, 1_000, CampaignStatus::Active),
        campaign_key: key(9),
        pool_balance: pool,
        donator: Wallet { key: key(2), balance: donor },
        donation: record,
    }
}

fn claiming(pledged: u64, status: CampaignStatus, pool: u64, creator: u64) -> Claim {
    Claim {
        campaign: campaign(pledged, 1_000, status),
        pool_balance: pool,
        creator: Wallet { key: key(1), balance: creator },
    }
}

fn refunding(pledged: u64, status: CampaignStatus, pool: u64, donor: u64, record: Donation) -> Refund {
    Refund {
        campaign: campaign(pledged, 1_000, status),
        pool_balance: pool,
        donator: Wallet { key: key(2), balance: donor },
        donation: record,
    }
}

#[test]
fn identities_compare_by_their_bytes() {
    let mut bytes = [7u8; 32];
    let a = Identity::new(bytes);
    assert!(a.same(&Identity::new([7u8; 32])));
    assert!(a == Identity::new([7u8; 32]));
    bytes[31] = 8;
    assert!(!a.same(&Identity::new(bytes)));
    assert!(a != Identity::new(bytes));
    assert_eq!(a.bytes, [7u8; 32]);
}

#[test]
fn statuses_start_active() {
    assert_eq!(CampaignStatus::default(), CampaignStatus::Active);
    assert_eq!(DonationStatus::default(), DonationStatus::Active);
}

#[test]
fn texts_are_measured_in_bytes() {
    let forty = "a".repeat(40);
    let long = "b".repeat(160);
    assert!(Campaign::check_text(&forty, &long));
    assert!(Campaign::check_text("", ""));
    assert!(!Campaign::check_text(&"a".repeat(41), &long));
    assert!(!Campaign::check_text(&forty, &"b".repeat(161)));
    // twenty two-byte letters fill the name; twenty-one do not fit
    assert!(Campaign::check_text(&"é".repeat(20), ""));
    assert!(!Campaign::check_text(&"é".repeat(21), ""));
}

#[test]
fn donation_overflowing_the_total_changes_nothing() {
    let mut ctx = donating(u64::MAX - 5, 10, 1_000, None);
    assert_eq!(donate(&mut ctx, 6, 150), Err(ErrorCode::IntegerOverflow));
    assert_eq!(ctx.campaign.amount_pledged, u64::MAX - 5);
    assert_eq!(ctx.pool_balance, 10);
    assert_eq!(ctx.donator.balance, 1_000);
    assert!(ctx.donation.is_none());
    assert_eq!(donate(&mut ctx, 5, 150), Ok(()));
    assert_eq!(ctx.campaign.amount_pledged, u64::MAX);
    assert_eq!(ctx.pool_balance, 15);
}

#[test]
fn overflow_is_named_before_a_short_balance() {
    let mut ctx = donating(u64::MAX, 10, 0, None);
    assert_eq!(donate(&mut ctx, 1, 150), Err(ErrorCode::IntegerOverflow));
    assert_eq!(donate(&mut ctx, 1, 201), Err(ErrorCode::CampaignHasEnded));
    assert_eq!(donate(&mut ctx, 1, 99), Err(ErrorCode::CampaignNotStarted));
}

#[test]
fn donation_needs_the_funds() {
    let mut ctx = donating(0, 10, 99, None);
    assert_eq!(donate(&mut ctx, 100, 150), Err(ErrorCode::InsufficientFundsForTransfer));
    assert_eq!(ctx.donator.balance, 99);
    assert_eq!(ctx.pool_balance, 10);
    assert_eq!(ctx.campaign.amount_pledged, 0);
    assert_eq!(donate(&mut ctx, 99, 150), Ok(()));
    assert_eq!(ctx.donator.balance, 0);
    assert_eq!(ctx.pool_balance, 109);
}

#[test]
fn donation_overflowing_the_pool_changes_nothing() {
    let mut ctx = donating(0, u64::MAX - 1, 100, None);
    assert_eq!(donate(&mut ctx, 2, 150), Err(ErrorCode::OverflowError));
    assert_eq!(ctx.pool_balance, u64::MAX - 1);
    assert_eq!(ctx.donator.balance, 100);
    assert_eq!(ctx.campaign.amount_pledged, 0);
}

#[test]
fn a_second_donation_overwrites_the_record() {
    let mut ctx = donating(0, 0, 1_000, None);
    assert_eq!(donate(&mut ctx, 400, 110), Ok(()));
    assert_eq!(donate(&mut ctx, 100, 120), Ok(()));
    assert_eq!(ctx.campaign.amount_pledged, 500);
    assert_eq!(ctx.pool_balance, 500);
    assert_eq!(ctx.donator.balance, 500);
    let record = ctx.donation.unwrap();
    assert_eq!(record.amount, 100);
    assert_eq!(record.status, DonationStatus::Active);
}

#[test]
fn a_refunded_record_is_active_again_after_a_donation() {
    let mut ctx = donating(0, 0, 1_000, Some(pledge(0, DonationStatus::Refunded)));
    assert_eq!(donate(&mut ctx, 50, 200), Ok(()));
    let record = ctx.donation.unwrap();
    assert_eq!(record.amount, 50);
    assert_eq!(record.status, DonationStatus::Active);
    assert_eq!(ctx.campaign.amount_pledged, 50);
}

#[test]
fn claim_needs_the_target() {
    let mut ctx = claiming(999, CampaignStatus::Active, 5_000, 0);
    assert_eq!(claim(&mut ctx, 200, 100), Err(ErrorCode::TargetNotMet));
    assert_eq!(ctx.pool_balance, 5_000);
    assert_eq!(ctx.creator.balance, 0);
    let mut met = claiming(1_000, CampaignStatus::Active, 5_000, 0);
    assert_eq!(claim(&mut met, 200, 100), Ok(()));
    assert_eq!(met.creator.balance, 4_900);
    assert_eq!(met.pool_balance, 100);
    assert_eq!(met.campaign.status, CampaignStatus::Claimed);
}

#[test]
fn claim_checks_time_then_target_then_status() {
    let mut ctx = claiming(10, CampaignStatus::Claimed, 5_000, 0);
    assert_eq!(claim(&mut ctx, 199, 100), Err(ErrorCode::CampaignStillActive));
    assert_eq!(claim(&mut ctx, 200, 100), Err(ErrorCode::TargetNotMet));
    let mut met = claiming(1_000, CampaignStatus::Claimed, 5_000, 0);
    assert_eq!(claim(&mut met, 200, 100), Err(ErrorCode::CampaignClaimed));
}

#[test]
fn claim_keeps_the_reserve() {
    let mut ctx = claiming(1_000, CampaignStatus::Active, 99, 7);
    assert_eq!(claim(&mut ctx, 300, 100), Err(ErrorCode::InsufficientFundsForTransfer));
    assert_eq!(ctx.pool_balance, 99);
    assert_eq!(ctx.creator.balance, 7);
    assert_eq!(ctx.campaign.status, CampaignStatus::Active);
    let mut bare = claiming(1_000, CampaignStatus::Active, 100, 7);
    assert_eq!(claim(&mut bare, 300, 100), Ok(()));
    assert_eq!(bare.pool_balance, 100);
    assert_eq!(bare.creator.balance, 7);
}

#[test]
fn claim_overflowing_the_creator_changes_nothing() {
    let mut ctx = claiming(1_000, CampaignStatus::Active, 1_100, u64::MAX - 999);
    assert_eq!(claim(&mut ctx, 300, 100), Err(ErrorCode::OverflowError));
    assert_eq!(ctx.pool_balance, 1_100);
    assert_eq!(ctx.creator.balance, u64::MAX - 999);
    assert_eq!(ctx.campaign.status, CampaignStatus::Active);
}

#[test]
fn claim_of_a_successful_or_failed_campaign_goes_by_the_target() {
    let mut marked = claiming(1_000, CampaignStatus::Successful, 1_000, 0);
    assert_eq!(claim(&mut marked, 200, 0), Ok(()));
    assert_eq!(marked.creator.balance, 1_000);
    let mut failed = claiming(1_000, CampaignStatus::Failed, 1_000, 0);
    assert_eq!(claim(&mut failed, 200, 0), Ok(()));
    assert_eq!(failed.campaign.status, CampaignStatus::Claimed);
}

#[test]
fn refund_checks_in_order() {
    let gone = pledge(0, DonationStatus::Refunded);
    let mut early = refunding(1_000, CampaignStatus::Claimed, 500, 0, gone);
    assert_eq!(refund(&mut early, 199), Err(ErrorCode::CampaignStillActive));
    assert_eq!(refund(&mut early, 200), Err(ErrorCode::CampaignMetTarget));
    let mut paid = refunding(999, CampaignStatus::Claimed, 500, 0, gone);
    assert_eq!(refund(&mut paid, 200), Err(ErrorCode::CampaignClaimed));
    let mut failed = refunding(999, CampaignStatus::Failed, 500, 0, gone);
    assert_eq!(refund(&mut failed, 200), Err(ErrorCode::CampaignRefunded));
}

#[test]
fn refund_needs_the_pool() {
    let mut ctx = refunding(300, CampaignStatus::Active, 299, 0, pledge(300, DonationStatus::Active));
    assert_eq!(refund(&mut ctx, 200), Err(ErrorCode::InsufficientFundsForTransfer));
    assert_eq!(ctx.pool_balance, 299);
    assert_eq!(ctx.campaign.amount_pledged, 300);
    assert_eq!(ctx.donation.amount, 300);
    assert_eq!(ctx.campaign.status, CampaignStatus::Active);
}

#[test]
fn refund_never_wraps() {
    let mut low = refunding(299, CampaignStatus::Active, 500, 0, pledge(300, DonationStatus::Active));
    assert_eq!(refund(&mut low, 200), Err(ErrorCode::OverflowError));
    assert_eq!(low.campaign.amount_pledged, 299);
    assert_eq!(low.pool_balance, 500);
    let mut rich =
        refunding(300, CampaignStatus::Active, 500, u64::MAX - 299, pledge(300, DonationStatus::Active));
    assert_eq!(refund(&mut rich, 200), Err(ErrorCode::OverflowError));
    assert_eq!(rich.donator.balance, u64::MAX - 299);
    assert_eq!(rich.donation.status, DonationStatus::Active);
}

#[test]
fn refund_moves_exactly_the_pledge() {
    let mut ctx = refunding(800, CampaignStatus::Failed, 900, 11, pledge(300, DonationStatus::Active));
    assert_eq!(refund(&mut ctx, 200), Ok(()));
    assert_eq!(ctx.campaign.amount_pledged, 500);
    assert_eq!(ctx.pool_balance, 600);
    assert_eq!(ctx.donator.balance, 311);
    assert_eq!(ctx.donation.amount, 0);
    assert_eq!(ctx.donation.status, DonationStatus::Refunded);
    assert_eq!(ctx.donation.campaign, key(9));
    assert_eq!(ctx.campaign.status, CampaignStatus::Failed);
    assert_eq!(ctx.campaign.target_amount, 1_000);
    assert_eq!(ctx.campaign.name, "n");
}

#[test]
fn claim_and_refund_never_both_go_through() {
    for pledged in [0u64, 999, 1_000, 1_001] {
        let mut c = claiming(pledged, CampaignStatus::Active, 5_000, 0);
        let mut r =
            refunding(pledged, CampaignStatus::Active, 5_000, 0, pledge(0, DonationStatus::Active));
        let claim_ok = claim(&mut c, 250, 0).is_ok();
        let refund_ok = refund(&mut r, 250).is_ok();
        assert_eq!(claim_ok, pledged >= 1_000);
        assert_eq!(refund_ok, pledged < 1_000);
    }
}

#[test]
fn every_failure_has_its_message() {
    assert_eq!(ErrorCode::CampaignNotStarted.message(), "The campaign is not started yet.");
    assert_eq!(ErrorCode::CampaignHasEnded.message(), "The campaign has ended.");
    assert_eq!(ErrorCode::CampaignStillActive.message(), "The campaign is still active.");
    assert_eq!(ErrorCode::IntegerOverflow.message(), "Integer overflow occurred.");
    assert_eq!(ErrorCode::TargetNotMet.message(), "Target amount not met.");
    assert_eq!(ErrorCode::CampaignMetTarget.message(), "Campaign has met target amount.");
    assert_eq!(ErrorCode::CampaignClaimed.message(), "Campaign has already been claimed.");
    assert_eq!(ErrorCode::CampaignRefunded.message(), "Campaign has already been refunded.");
    assert_eq!(ErrorCode::InsufficientFundsForTransfer.message(), "Insufficient funds for transfer.");
    assert_eq!(ErrorCode::OverflowError.message(), "Overflow error occurred.");
}

#[test]
fn records_start_empty() {
    assert_eq!(Identity::default().bytes, [0u8; 32]);
    let campaign = Campaign::default();
    assert_eq!(campaign.creator, Identity::new([0u8; 32]));
    assert_eq!(campaign.amount_pledged, 0);
    assert_eq!(campaign.target_amount, 0);
    assert_eq!(campaign.start_time, 0);
    assert_eq!(campaign.end_time, 0);
    assert_eq!(campaign.name, "");
    assert_eq!(campaign.description, "");
    assert_eq!(campaign.status, CampaignStatus::Active);
    let record = Donation::default();
    assert_eq!(record.donator, Identity::new([0u8; 32]));
    assert_eq!(record.campaign, Identity::new([0u8; 32]));
    assert_eq!(record.amount, 0);
    assert_eq!(record.status, DonationStatus::Active);
}
