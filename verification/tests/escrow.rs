//! A campaign with several donors, run through its escrow.

use crowdfunding::{
    Campaign, CampaignStatus, Donation, DonationStatus, ErrorCode, Escrow, Identity, Wallet,
};

fn who(tag: u8) -> Identity {
    Identity::new([tag; 32])
}

fn purse(tag: u8, balance: u64) -> Wallet {
    Wallet { key: who(tag), balance }
}

fn fresh(target: u64, pool: u64) -> Escrow {
    let campaign = Campaign {
        creator: who(1),
        amount_pledged: 0,
        target_amount: target,
        start_time: 1_000,
        end_time: 2_000,
        name: String::from("Bridge"),
        description: String::from("A footbridge"),
        status: CampaignStatus::Active,
    };
    Escrow::open(campaign, who(77), pool)
}

fn active_sum(records: &[Donation]) -> u64 {
    records.iter().filter(|r| r.status == DonationStatus::Active).map(|r| r.amount).sum()
}

#[test]
fn an_open_escrow_is_empty() {
    let escrow = fresh(500, 10);
    assert!(escrow.donations.is_empty());
    assert_eq!(escrow.pool_balance, 10);
    assert_eq!(escrow.campaign_key, who(77));
    assert_eq!(escrow.campaign.amount_pledged, 0);
    assert_eq!(escrow.find(&who(2)), None);
}

#[test]
fn each_donor_gets_one_record() {
    let mut escrow = fresh(500, 10);
    let mut a = purse(2, 1_000);
    let mut b = purse(3, 1_000);
    assert_eq!(escrow.donate(&mut a, 100, 1_000), Ok(()));
    assert_eq!(escrow.donate(&mut b, 250, 1_500), Ok(()));
    assert_eq!(escrow.donations.len(), 2);
    assert_eq!(escrow.find(&who(2)), Some(0));
    assert_eq!(escrow.find(&who(3)), Some(1));
    assert_eq!(escrow.find(&who(4)), None);
    assert_eq!(escrow.donations[1].donator, who(3));
    assert_eq!(escrow.donations[1].campaign, who(77));
    assert_eq!(escrow.donations[1].amount, 250);
    assert_eq!(escrow.campaign.amount_pledged, 350);
    assert_eq!(escrow.pool_balance, 360);
    assert_eq!(a.balance, 900);
    assert_eq!(b.balance, 750);
    assert_eq!(active_sum(&escrow.donations), escrow.campaign.amount_pledged);
}

#[test]
fn the_total_follows_the_active_pledges() {
    let mut escrow = fresh(1_000, 0);
    let mut a = purse(2, 1_000);
    let mut b = purse(3, 1_000);
    let mut c = purse(4, 1_000);
    assert_eq!(escrow.donate(&mut a, 100, 1_100), Ok(()));
    assert_eq!(active_sum(&escrow.donations), escrow.campaign.amount_pledged);
    assert_eq!(escrow.donate(&mut b, 200, 1_200), Ok(()));
    assert_eq!(active_sum(&escrow.donations), escrow.campaign.amount_pledged);
    assert_eq!(escrow.donate(&mut c, 300, 1_300), Ok(()));
    assert_eq!(escrow.campaign.amount_pledged, 600);
    assert_eq!(active_sum(&escrow.donations), 600);

    assert_eq!(escrow.refund(&mut b, 2_000), Ok(()));
    assert_eq!(escrow.campaign.amount_pledged, 400);
    assert_eq!(active_sum(&escrow.donations), 400);
    assert_eq!(escrow.campaign.status, CampaignStatus::Failed);
    assert_eq!(b.balance, 1_000);
    assert_eq!(escrow.donations[1].status, DonationStatus::Refunded);
    assert_eq!(escrow.donations[1].amount, 0);

    assert_eq!(escrow.refund(&mut b, 2_001), Err(ErrorCode::CampaignRefunded));
    assert_eq!(escrow.campaign.amount_pledged, 400);
    assert_eq!(b.balance, 1_000);

    assert_eq!(escrow.refund(&mut a, 2_500), Ok(()));
    assert_eq!(escrow.refund(&mut c, 2_500), Ok(()));
    assert_eq!(escrow.campaign.amount_pledged, 0);
    assert_eq!(active_sum(&escrow.donations), 0);
    assert_eq!(escrow.pool_balance, 0);
    assert_eq!(a.balance, 1_000);
    assert_eq!(c.balance, 1_000);
}

#[test]
fn a_rejected_call_leaves_the_escrow_alone() {
    let mut escrow = fresh(1_000, 5);
    let mut a = purse(2, 50);
    assert_eq!(escrow.donate(&mut a, 51, 1_500), Err(ErrorCode::InsufficientFundsForTransfer));
    assert_eq!(escrow.donate(&mut a, 10, 999), Err(ErrorCode::CampaignNotStarted));
    assert_eq!(escrow.donate(&mut a, 10, 2_001), Err(ErrorCode::CampaignHasEnded));
    assert!(escrow.donations.is_empty());
    assert_eq!(escrow.pool_balance, 5);
    assert_eq!(escrow.campaign.amount_pledged, 0);
    assert_eq!(a.balance, 50);

    assert_eq!(escrow.donate(&mut a, 10, 1_500), Ok(()));
    assert_eq!(escrow.refund(&mut a, 1_999), Err(ErrorCode::CampaignStillActive));
    let mut creator = purse(1, 0);
    assert_eq!(escrow.claim(&mut creator, 1_999, 5), Err(ErrorCode::CampaignStillActive));
    assert_eq!(escrow.claim(&mut creator, 2_000, 5), Err(ErrorCode::TargetNotMet));
    assert_eq!(escrow.donations[0].amount, 10);
    assert_eq!(escrow.donations[0].status, DonationStatus::Active);
    assert_eq!(escrow.pool_balance, 15);
    assert_eq!(creator.balance, 0);
}

#[test]
fn a_met_target_is_claimed_once_and_never_refunded() {
    let mut escrow = fresh(300, 20);
    let mut a = purse(2, 1_000);
    let mut b = purse(3, 1_000);
    let mut creator = purse(1, 7);
    assert_eq!(escrow.donate(&mut a, 100, 1_100), Ok(()));
    assert_eq!(escrow.donate(&mut b, 200, 1_200), Ok(()));
    assert_eq!(escrow.refund(&mut a, 2_000), Err(ErrorCode::CampaignMetTarget));
    assert_eq!(escrow.claim(&mut creator, 2_000, 20), Ok(()));
    assert_eq!(creator.balance, 307);
    assert_eq!(escrow.pool_balance, 20);
    assert_eq!(escrow.campaign.status, CampaignStatus::Claimed);
    assert_eq!(escrow.campaign.amount_pledged, 300);
    assert_eq!(active_sum(&escrow.donations), 300);
    assert_eq!(escrow.claim(&mut creator, 2_001, 20), Err(ErrorCode::CampaignClaimed));
    assert_eq!(escrow.refund(&mut b, 2_001), Err(ErrorCode::CampaignMetTarget));
    assert_eq!(escrow.donate(&mut a, 1, 2_001), Err(ErrorCode::CampaignHasEnded));
    assert_eq!(creator.balance, 307);
    assert_eq!(escrow.pool_balance, 20);
}

#[test]
fn a_returning_donor_overwrites_the_pledge() {
    let mut escrow = fresh(1_000, 0);
    let mut a = purse(2, 1_000);
    assert_eq!(escrow.donate(&mut a, 400, 1_100), Ok(()));
    assert_eq!(escrow.donate(&mut a, 100, 1_200), Ok(()));
    assert_eq!(escrow.donations.len(), 1);
    assert_eq!(escrow.donations[0].amount, 100);
    assert_eq!(escrow.campaign.amount_pledged, 500);
    assert_eq!(escrow.pool_balance, 500);
    // only the latest pledge comes back
    assert_eq!(escrow.refund(&mut a, 2_000), Ok(()));
    assert_eq!(a.balance, 600);
    assert_eq!(escrow.campaign.amount_pledged, 400);
    assert_eq!(escrow.pool_balance, 400);
}

#[test]
fn a_refunded_donor_may_give_again_at_the_last_moment() {
    let mut escrow = fresh(1_000, 0);
    let mut a = purse(2, 1_000);
    assert_eq!(escrow.donate(&mut a, 400, 2_000), Ok(()));
    assert_eq!(escrow.refund(&mut a, 2_000), Ok(()));
    assert_eq!(escrow.donate(&mut a, 150, 2_000), Ok(()));
    assert_eq!(escrow.donations.len(), 1);
    assert_eq!(escrow.donations[0].status, DonationStatus::Active);
    assert_eq!(escrow.campaign.amount_pledged, 150);
    assert_eq!(active_sum(&escrow.donations), 150);
    assert_eq!(escrow.campaign.status, CampaignStatus::Failed);
}
