//! A campaign together with its pool and all of its pledge records, one per
//! donor: the state that the four operations act on as a whole.

use crate::accounts::{Claim, Donate, Refund, Wallet};
use crate::error::ErrorCode;
use crate::history::{follows, Call};
use crate::identity::Identity;
use crate::instructions::{
    claim, claim_error, claimed, donate, donate_error, donated, refund, refund_error, refunded,
};
use crate::laws::{
    active_total, conserved, pledge_within_total, stored, total_after_push, total_after_update,
};
use crate::state::{Campaign, Donation, DonationStatus};
use vstd::pervasive::unreached;
use vstd::prelude::*;

verus! {

/// A campaign, the funds pooled with it, and the pledges made to it.
#[derive(Clone, Debug)]
pub struct Escrow {
    /// The campaign record.
    pub campaign: Campaign,
    /// Where the campaign record is stored.
    pub campaign_key: Identity,
    /// The funds pooled with the campaign record.
    pub pool_balance: u64,
    /// The pledge records, in the order in which their donors first gave.
    pub donations: Vec<Donation>,
}

impl Escrow {
    /// Whether the donor has a pledge record.
    pub open spec fn holds(&self, donor: Identity) -> bool {
        exists|i: int|
            0 <= i < self.donations@.len() && (#[trigger] self.donations@[i]).donator == donor
    }

    /// Where the donor's pledge record lies, if there is one.
    pub open spec fn place_of(&self, donor: Identity) -> Option<int> {
        if self.holds(donor) {
            Some(
                choose|i: int|
                    0 <= i < self.donations@.len() && (#[trigger] self.donations@[i]).donator
                        == donor,
            )
        } else {
            None
        }
    }

    /// The donor's pledge record, if there is one.
    pub open spec fn record_of(&self, donor: Identity) -> Option<Donation> {
        match self.place_of(donor) {
            Some(i) => Some(self.donations@[i]),
            None => None,
        }
    }

    /// What the donor has outstanding.
    pub open spec fn outstanding(&self, donor: Identity) -> nat {
        match self.record_of(donor) {
            Some(record) => record.active_amount(),
            None => 0,
        }
    }

    /// Every pledge record belongs to this campaign, none is in the reserved
    /// state `Claimed`, no donor has two records, and the active pledges
    /// together do not exceed the pledge total.
    pub open spec fn well_formed(&self) -> bool {
        &&& forall|i: int|
            0 <= i < self.donations@.len() ==> (#[trigger] self.donations@[i]).campaign
                == self.campaign_key
        &&& forall|i: int|
            0 <= i < self.donations@.len() ==> (#[trigger] self.donations@[i]).status
                != DonationStatus::Claimed
        &&& forall|i: int, j: int|
            0 <= i < j < self.donations@.len() ==> (#[trigger] self.donations@[i]).donator != (
            #[trigger] self.donations@[j]).donator
        &&& active_total(self.donations@) <= self.campaign.amount_pledged
    }

    /// The pledge total equals the sum of the active pledges.
    pub open spec fn conserved(&self) -> bool {
        conserved(self.campaign, self.donations@)
    }

    /// The setting in which the donor gives.
    pub open spec fn donate_setting(&self, donor: Wallet) -> Donate {
        Donate {
            campaign: self.campaign,
            campaign_key: self.campaign_key,
            pool_balance: self.pool_balance,
            donator: donor,
            donation: self.record_of(donor.key),
        }
    }

    /// The setting in which the creator claims.
    pub open spec fn claim_setting(&self, creator: Wallet) -> Claim {
        Claim { campaign: self.campaign, pool_balance: self.pool_balance, creator }
    }

    /// The setting in which the donor, who has a record, is paid back.
    pub open spec fn refund_setting(&self, donor: Wallet) -> Refund
        recommends
            self.holds(donor.key),
    {
        Refund {
            campaign: self.campaign,
            pool_balance: self.pool_balance,
            donator: donor,
            donation: self.record_of(donor.key).unwrap(),
        }
    }

    /// The escrow of a campaign to which nobody has pledged yet.
    pub fn open(campaign: Campaign, campaign_key: Identity, pool_balance: u64) -> (escrow: Escrow)
        ensures
            escrow.campaign == campaign,
            escrow.campaign_key == campaign_key,
            escrow.pool_balance == pool_balance,
            escrow.donations@ == Seq::<Donation>::empty(),
            escrow.well_formed(),
            escrow.conserved() <==> campaign.amount_pledged == 0,
    {
        Escrow { campaign, campaign_key, pool_balance, donations: Vec::new() }
    }

    /// Finds the donor's pledge record.
    pub fn find(&self, donor: &Identity) -> (place: Option<usize>)
        requires
            self.well_formed(),
        ensures
            match place {
                Some(i) => self.place_of(*donor) == Some(i as int) && i < self.donations@.len(),
                None => self.place_of(*donor) is None,
            },
    {
        let mut i: usize = 0;
        while i < self.donations.len()
            invariant
                self.well_formed(),
                i <= self.donations@.len(),
                forall|j: int| 0 <= j < i ==> (#[trigger] self.donations@[j]).donator != *donor,
            decreases self.donations@.len() - i,
        {
            if self.donations[i].donator.same(donor) {
                proof {
                    assert(self.donations@[i as int].donator == *donor);
                    assert(self.holds(*donor));
                    let k = self.place_of(*donor).unwrap();
                    assert(self.donations@[k].donator == *donor);
                    assert(k == i);
                }
                return Some(i);
            }
            i += 1;
        }
        None
    }

    /// Pledges `amount` from the donor at time `now`, in the donor's record:
    /// a new one where the donor had none.
    pub fn donate(&mut self, donor: &mut Wallet, amount: u64, now: i64) -> (result: Result<
        (),
        ErrorCode,
    >)
        requires
            old(self).well_formed(),
        ensures
            final(self).well_formed(),
            final(self).campaign_key == old(self).campaign_key,
            match donate_error(old(self).donate_setting(*old(donor)), amount, now) {
                Some(e) => result == Err::<(), ErrorCode>(e) && *final(self) == *old(self)
                    && *final(donor) == *old(donor),
                None => {
                    let after = donated(old(self).donate_setting(*old(donor)), amount);
                    &&& result == Ok::<(), ErrorCode>(())
                    &&& final(self).campaign == after.campaign
                    &&& final(self).pool_balance == after.pool_balance
                    &&& *final(donor) == after.donator
                    &&& final(self).donations@ == stored(
                        old(self).donations@,
                        old(self).place_of(old(donor).key),
                        after.donation.unwrap(),
                    )
                },
            },
            result is Ok ==> follows(
                *old(self),
                (Call::Donate { donor: *old(donor), amount, now }),
                *final(self),
            ),
            result is Ok && old(self).conserved() && old(self).outstanding(old(donor).key) == 0
                ==> final(self).conserved(),
    {
        let place = self.find(&donor.key);
        let existing: Option<Donation> = match place {
            Some(i) => Some(self.donations[i]),
            None => None,
        };
        let mut ctx = Donate {
            campaign: Campaign::default(),
            campaign_key: self.campaign_key,
            pool_balance: self.pool_balance,
            donator: *donor,
            donation: existing,
        };
        core::mem::swap(&mut self.campaign, &mut ctx.campaign);
        let result = donate(&mut ctx, amount, now);
        core::mem::swap(&mut self.campaign, &mut ctx.campaign);
        if let Some(record) = ctx.donation {
            if result.is_ok() {
                self.pool_balance = ctx.pool_balance;
                *donor = ctx.donator;
                match place {
                    Some(i) => {
                        proof {
                            total_after_update(old(self).donations@, i as int, record);
                        }
                        self.donations[i] = record;
                    },
                    None => {
                        proof {
                            total_after_push(old(self).donations@, record);
                        }
                        self.donations.push(record);
                    },
                }
            }
        }
        result
    }

    /// Releases the pool to the creator at time `now`; the pool keeps
    /// `reserved_minimum`. No pledge record changes.
    ///
    /// The caller must be the campaign's recorded creator.
    pub fn claim(&mut self, creator: &mut Wallet, now: i64, reserved_minimum: u64) -> (result:
        Result<(), ErrorCode>)
        requires
            old(self).well_formed(),
            old(creator).key == old(self).campaign.creator,
        ensures
            final(self).well_formed(),
            final(self).campaign_key == old(self).campaign_key,
            final(self).donations@ == old(self).donations@,
            match claim_error(old(self).claim_setting(*old(creator)), now, reserved_minimum) {
                Some(e) => result == Err::<(), ErrorCode>(e) && *final(self) == *old(self)
                    && *final(creator) == *old(creator),
                None => {
                    let after = claimed(old(self).claim_setting(*old(creator)), reserved_minimum);
                    &&& result == Ok::<(), ErrorCode>(())
                    &&& final(self).campaign == after.campaign
                    &&& final(self).pool_balance == after.pool_balance
                    &&& *final(creator) == after.creator
                },
            },
            result is Ok ==> follows(
                *old(self),
                (Call::Claim { creator: *old(creator), now, reserved: reserved_minimum }),
                *final(self),
            ),
            old(self).conserved() ==> final(self).conserved(),
    {
        let mut ctx = Claim {
            campaign: Campaign::default(),
            pool_balance: self.pool_balance,
            creator: *creator,
        };
        core::mem::swap(&mut self.campaign, &mut ctx.campaign);
        let result = claim(&mut ctx, now, reserved_minimum);
        core::mem::swap(&mut self.campaign, &mut ctx.campaign);
        self.pool_balance = ctx.pool_balance;
        *creator = ctx.creator;
        result
    }

    /// Returns the donor's pledge at time `now`. With the records well
    /// formed the pledge total always covers the pledge, so the failure
    /// `OverflowError` can only come from the donor's own balance.
    ///
    /// The donor must have a pledge record.
    pub fn refund(&mut self, donor: &mut Wallet, now: i64) -> (result: Result<(), ErrorCode>)
        requires
            old(self).well_formed(),
            old(self).holds(old(donor).key),
        ensures
            final(self).well_formed(),
            final(self).campaign_key == old(self).campaign_key,
            match refund_error(old(self).refund_setting(*old(donor)), now) {
                Some(e) => result == Err::<(), ErrorCode>(e) && *final(self) == *old(self)
                    && *final(donor) == *old(donor),
                None => {
                    let after = refunded(old(self).refund_setting(*old(donor)));
                    &&& result == Ok::<(), ErrorCode>(())
                    &&& final(self).campaign == after.campaign
                    &&& final(self).pool_balance == after.pool_balance
                    &&& *final(donor) == after.donator
                    &&& final(self).donations@ == old(self).donations@.update(
                        old(self).place_of(old(donor).key).unwrap(),
                        after.donation,
                    )
                },
            },
            result is Ok ==> follows(
                *old(self),
                (Call::Refund { donor: *old(donor), now }),
                *final(self),
            ),
            result == Err::<(), ErrorCode>(ErrorCode::OverflowError) ==> old(donor).balance + old(
                self,
            ).outstanding(old(donor).key) > u64::MAX,
            old(self).conserved() ==> final(self).conserved(),
    {
        let place = self.find(&donor.key);
        match place {
            Some(i) => {
                let mut ctx = Refund {
                    campaign: Campaign::default(),
                    pool_balance: self.pool_balance,
                    donator: *donor,
                    donation: self.donations[i],
                };
                proof {
                    pledge_within_total(old(self).donations@, i as int);
                }
                core::mem::swap(&mut self.campaign, &mut ctx.campaign);
                let result = refund(&mut ctx, now);
                core::mem::swap(&mut self.campaign, &mut ctx.campaign);
                self.pool_balance = ctx.pool_balance;
                *donor = ctx.donator;
                if result.is_ok() {
                    proof {
                        total_after_update(old(self).donations@, i as int, ctx.donation);
                    }
                    self.donations[i] = ctx.donation;
                }
                result
            },
            None => unreached(),
        }
    }
}

} // verus!
