//! The two stored records: a campaign, and one donor's pledge to it.

use crate::identity::Identity;
use vstd::prelude::*;
use vstd::utf8::encode_utf8;

verus! {

/// The most bytes a campaign's name may take in storage.
pub const MAX_NAME_BYTES: usize = 40;

/// The most bytes a campaign's description may take in storage.
pub const MAX_DESCRIPTION_BYTES: usize = 160;

/// Where a campaign stands in its life.
#[derive(Clone, Copy, Debug, PartialEq, Eq, Structural)]
pub enum CampaignStatus {
    /// Open, or ended and not yet resolved.
    Active,
    /// Reserved: no operation sets it.
    Successful,
    /// At least one pledge was returned; the pool can no longer be claimed.
    Failed,
    /// The pool was paid out to the creator.
    Claimed,
}

impl Default for CampaignStatus {
    fn default() -> (status: CampaignStatus)
        ensures
            status == CampaignStatus::Active,
    {
        CampaignStatus::Active
    }
}

/// Where one donor's pledge stands.
#[derive(Clone, Copy, Debug, PartialEq, Eq, Structural)]
pub enum DonationStatus {
    /// The pledge is outstanding.
    Active,
    /// Reserved: no operation sets it.
    Claimed,
    /// The pledge was returned to the donor.
    Refunded,
}

impl Default for DonationStatus {
    fn default() -> (status: DonationStatus)
        ensures
            status == DonationStatus::Active,
    {
        DonationStatus::Active
    }
}

/// A campaign's parameters and its aggregate funding state.
#[derive(Clone, Debug)]
pub struct Campaign {
    /// The principal entitled to the pool when the target is met.
    pub creator: Identity,
    /// The running total of pledges that were not returned.
    pub amount_pledged: u64,
    /// The funding goal.
    pub target_amount: u64,
    /// Epoch seconds before which donations are rejected.
    pub start_time: i64,
    /// Epoch seconds after which donations are rejected, and from which on
    /// the campaign can be resolved.
    pub end_time: i64,
    /// Display name, at most `MAX_NAME_BYTES` bytes.
    pub name: String,
    /// Display text, at most `MAX_DESCRIPTION_BYTES` bytes.
    pub description: String,
    /// Lifecycle marker.
    pub status: CampaignStatus,
}

impl Default for Campaign {
    /// The record as storage holds it before creation: every number zero,
    /// every text empty, the status `Active`.
    fn default() -> (record: Campaign)
        ensures
            record.creator.is_zero(),
            record.amount_pledged == 0,
            record.target_amount == 0,
            record.start_time == 0,
            record.end_time == 0,
            record.name@ == Seq::<char>::empty(),
            record.description@ == Seq::<char>::empty(),
            record.status == CampaignStatus::Active,
    {
        Campaign {
            creator: Identity::default(),
            amount_pledged: 0,
            target_amount: 0,
            start_time: 0,
            end_time: 0,
            name: String::new(),
            description: String::new(),
            status: CampaignStatus::Active,
        }
    }
}

impl Campaign {
    /// Whether a name and a description fit the record's fixed storage.
    pub open spec fn text_fits(name: Seq<char>, description: Seq<char>) -> bool {
        encode_utf8(name).len() <= MAX_NAME_BYTES && encode_utf8(description).len()
            <= MAX_DESCRIPTION_BYTES
    }

    /// Whether the record fits the storage that was allotted at creation.
    pub open spec fn fits_storage(&self) -> bool {
        Campaign::text_fits(self.name@, self.description@)
    }

    /// Tests whether a name and a description fit the record's fixed storage.
    pub fn check_text(name: &str, description: &str) -> (fits: bool)
        ensures
            fits == Campaign::text_fits(name@, description@),
    {
        name.as_bytes().len() <= MAX_NAME_BYTES && description.as_bytes().len()
            <= MAX_DESCRIPTION_BYTES
    }

    /// Whether the funding goal is reached.
    pub open spec fn target_met(&self) -> bool {
        self.amount_pledged >= self.target_amount
    }

    /// Whether the campaign's window has closed at the given time.
    pub open spec fn ended_at(&self, now: i64) -> bool {
        now >= self.end_time
    }

    /// Whether the given time lies in the window in which donations are taken.
    pub open spec fn open_at(&self, now: i64) -> bool {
        self.start_time <= now <= self.end_time
    }
}

/// One donor's pledge against one campaign.
#[derive(Clone, Copy, Debug)]
pub struct Donation {
    /// The owner of the pledge.
    pub donator: Identity,
    /// The campaign that the pledge was made to.
    pub campaign: Identity,
    /// The outstanding amount; zero once returned.
    pub amount: u64,
    /// Lifecycle marker.
    pub status: DonationStatus,
}

impl Default for Donation {
    /// The record as storage holds it before the first pledge: bound to
    /// nobody, nothing outstanding, the status `Active`.
    fn default() -> (record: Donation)
        ensures
            record.donator.is_zero(),
            record.campaign.is_zero(),
            record.amount == 0,
            record.status == DonationStatus::Active,
    {
        Donation {
            donator: Identity::default(),
            campaign: Identity::default(),
            amount: 0,
            status: DonationStatus::Active,
        }
    }
}

impl Donation {
    /// What the pledge contributes to its campaign's total: its amount while
    /// it is active, nothing otherwise.
    pub open spec fn active_amount(&self) -> nat {
        if self.status == DonationStatus::Active {
            self.amount as nat
        } else {
            0
        }
    }
}

} // verus!
