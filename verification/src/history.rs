//! Whole histories of a campaign: the states it goes through and the calls
//! that went through between them, and what holds of every such history.

use crate::accounts::Wallet;
use crate::escrow::Escrow;
use crate::identity::Identity;
use crate::instructions::{
    claim_error, claimed, donate_error, donated, refund_error, refunded,
};
use crate::laws::{pledge_within_total, stored, total_after_push, total_after_update};
use crate::state::{CampaignStatus, DonationStatus};
use vstd::prelude::*;

verus! {

/// A call that went through, with what it was given.
pub enum Call {
    /// A donation of `amount` by `donor` at time `now`.
    Donate { donor: Wallet, amount: u64, now: i64 },
    /// A claim by `creator` at time `now`, the pool keeping `reserved`.
    Claim { creator: Wallet, now: i64, reserved: u64 },
    /// A refund to `donor` at time `now`.
    Refund { donor: Wallet, now: i64 },
}

/// The escrow `after` is what the call, going through, makes of `before`.
pub open spec fn follows(before: Escrow, call: Call, after: Escrow) -> bool {
    &&& after.campaign_key == before.campaign_key
    &&& match call {
        Call::Donate { donor, amount, now } => {
            let setting = before.donate_setting(donor);
            &&& donate_error(setting, amount, now) is None
            &&& after.campaign == donated(setting, amount).campaign
            &&& after.pool_balance == donated(setting, amount).pool_balance
            &&& after.donations@ == stored(
                before.donations@,
                before.place_of(donor.key),
                donated(setting, amount).donation.unwrap(),
            )
        },
        Call::Claim { creator, now, reserved } => {
            let setting = before.claim_setting(creator);
            &&& creator.key == before.campaign.creator
            &&& claim_error(setting, now, reserved) is None
            &&& after.campaign == claimed(setting, reserved).campaign
            &&& after.pool_balance == claimed(setting, reserved).pool_balance
            &&& after.donations@ == before.donations@
        },
        Call::Refund { donor, now } => {
            let setting = before.refund_setting(donor);
            &&& before.holds(donor.key)
            &&& refund_error(setting, now) is None
            &&& after.campaign == refunded(setting).campaign
            &&& after.pool_balance == refunded(setting).pool_balance
            &&& after.donations@ == before.donations@.update(
                before.place_of(donor.key).unwrap(),
                refunded(setting).donation,
            )
        },
    }
}

/// Whether the call is a donation on top of a pledge that is still
/// outstanding: the one call after which the pledge total is more than the
/// sum of the active pledges, since the record keeps the latest amount only.
pub open spec fn overwrites(before: Escrow, call: Call) -> bool {
    match call {
        Call::Donate { donor, amount, now } => before.outstanding(donor.key) > 0,
        _ => false,
    }
}

/// A history: a first state, and after each call that went through the
/// state that it left.
pub open spec fn history(states: Seq<Escrow>, calls: Seq<Call>) -> bool {
    &&& states.len() == calls.len() + 1
    &&& states[0].well_formed()
    &&& forall|i: int|
        0 <= i < calls.len() ==> follows(#[trigger] states[i], calls[i], states[i + 1])
}

/// One call that goes through keeps the records well formed, and keeps the
/// pledge total equal to the sum of the active pledges unless it overwrites
/// an outstanding pledge.
pub proof fn step_keeps(before: Escrow, call: Call, after: Escrow)
    requires
        before.well_formed(),
        follows(before, call, after),
    ensures
        after.well_formed(),
        before.conserved() && !overwrites(before, call) ==> after.conserved(),
{
    match call {
        Call::Donate { donor, amount, now } => {
            let record = donated(before.donate_setting(donor), amount).donation.unwrap();
            match before.place_of(donor.key) {
                Some(k) => {
                    total_after_update(before.donations@, k, record);
                },
                None => {
                    total_after_push(before.donations@, record);
                },
            }
        },
        Call::Claim { creator, now, reserved } => {},
        Call::Refund { donor, now } => {
            let k = before.place_of(donor.key).unwrap();
            pledge_within_total(before.donations@, k);
            total_after_update(
                before.donations@,
                k,
                refunded(before.refund_setting(donor)).donation,
            );
        },
    }
}

/// In every history the records stay well formed; and the pledge total
/// equals the sum of the active pledges in every state, if it does in the
/// first and no donation overwrote an outstanding pledge.
pub proof fn conservation(states: Seq<Escrow>, calls: Seq<Call>, at: int)
    requires
        history(states, calls),
        0 <= at < states.len(),
    ensures
        states[at].well_formed(),
        states[0].conserved() && (forall|i: int|
            0 <= i < at ==> !overwrites(#[trigger] states[i], calls[i])) ==> states[at].conserved(),
    decreases at,
{
    if at > 0 {
        conservation(states, calls, at - 1);
        assert(follows(states[at - 1], calls[at - 1], states[at - 1 + 1]));
        step_keeps(states[at - 1], calls[at - 1], states[at]);
    }
}

/// In every history a campaign that is `Claimed` in one state is `Claimed`
/// in every later one.
pub proof fn claimed_forever(states: Seq<Escrow>, calls: Seq<Call>, from: int, to: int)
    requires
        history(states, calls),
        0 <= from <= to < states.len(),
        states[from].campaign.status == CampaignStatus::Claimed,
    ensures
        states[to].campaign.status == CampaignStatus::Claimed,
    decreases to - from,
{
    if from < to {
        claimed_forever(states, calls, from, to - 1);
        assert(follows(states[to - 1], calls[to - 1], states[to - 1 + 1]));
    }
}

/// In every history at most one claim goes through, and no refund goes
/// through after it: whatever goes through after a claim is a donation.
pub proof fn claim_resolves(states: Seq<Escrow>, calls: Seq<Call>, claim_at: int, later: int)
    requires
        history(states, calls),
        0 <= claim_at < later < calls.len(),
        calls[claim_at] is Claim,
    ensures
        calls[later] is Donate,
{
    assert(follows(states[claim_at], calls[claim_at], states[claim_at + 1]));
    claimed_forever(states, calls, claim_at + 1, later);
    assert(follows(states[later], calls[later], states[later + 1]));
}

/// Whether the call writes the pledge record of `donor`: a donation by that
/// donor, or a refund to that donor.
pub open spec fn writes_record(call: Call, donor: Identity) -> bool {
    match call {
        Call::Donate { donor: giver, amount, now } => giver.key == donor,
        Call::Refund { donor: taker, now } => taker.key == donor,
        Call::Claim { creator, now, reserved } => false,
    }
}

/// Whether the donor's pledge was returned and not renewed.
pub open spec fn pledge_refunded(escrow: Escrow, donor: Identity) -> bool {
    match escrow.record_of(donor) {
        Some(record) => record.status == DonationStatus::Refunded,
        None => false,
    }
}

proof fn record_kept_among(before: Escrow, after: Escrow, donor: Identity)
    requires
        before.well_formed(),
        after.well_formed(),
        before.donations@.len() <= after.donations@.len(),
        forall|i: int|
            0 <= i < before.donations@.len() ==> (#[trigger] after.donations@[i]).donator
                == before.donations@[i].donator,
        forall|i: int|
            0 <= i < before.donations@.len() && before.donations@[i].donator == donor
                ==> #[trigger] after.donations@[i] == before.donations@[i],
        forall|i: int|
            before.donations@.len() <= i < after.donations@.len() ==> (
            #[trigger] after.donations@[i]).donator != donor,
    ensures
        after.record_of(donor) == before.record_of(donor),
{
    if before.holds(donor) {
        let p = before.place_of(donor).unwrap();
        assert(before.donations@[p].donator == donor);
        assert(after.donations@[p].donator == donor);
        assert(after.holds(donor));
        let q = after.place_of(donor).unwrap();
        assert(after.donations@[q].donator == donor);
        assert(q == p);
    } else if after.holds(donor) {
        let q = after.place_of(donor).unwrap();
        assert(after.donations@[q].donator == donor);
        if q < before.donations@.len() {
            assert(before.donations@[q].donator == donor);
        }
    }
}

/// A call that goes through changes no pledge record but the one it writes.
pub proof fn other_records_kept(before: Escrow, call: Call, after: Escrow, donor: Identity)
    requires
        before.well_formed(),
        follows(before, call, after),
        !writes_record(call, donor),
    ensures
        after.record_of(donor) == before.record_of(donor),
{
    step_keeps(before, call, after);
    match call {
        Call::Donate { donor: giver, amount, now } => {
            match before.place_of(giver.key) {
                Some(k) => {
                    assert(before.donations@[k].donator == giver.key);
                },
                None => {
                    assert(!before.holds(giver.key));
                },
            }
            record_kept_among(before, after, donor);
        },
        Call::Claim { creator, now, reserved } => {
            record_kept_among(before, after, donor);
        },
        Call::Refund { donor: taker, now } => {
            let k = before.place_of(taker.key).unwrap();
            assert(before.donations@[k].donator == taker.key);
            record_kept_among(before, after, donor);
        },
    }
}

/// In every history a pledge that was returned stays so until its donor
/// gives again.
pub proof fn refunded_until_renewed(
    states: Seq<Escrow>,
    calls: Seq<Call>,
    donor: Identity,
    from: int,
    to: int,
)
    requires
        history(states, calls),
        0 <= from <= to < states.len(),
        pledge_refunded(states[from], donor),
        forall|i: int|
            from <= i < to ==> !(#[trigger] calls[i] is Donate && writes_record(calls[i], donor)),
    ensures
        pledge_refunded(states[to], donor),
    decreases to - from,
{
    if from < to {
        refunded_until_renewed(states, calls, donor, from, to - 1);
        conservation(states, calls, to - 1);
        assert(follows(states[to - 1], calls[to - 1], states[to - 1 + 1]));
        assert(!(calls[to - 1] is Donate && writes_record(calls[to - 1], donor)));
        other_records_kept(states[to - 1], calls[to - 1], states[to], donor);
    }
}

/// In every history a donor is refunded at most once for each pledge: after
/// a refund to a donor no other goes through unless the donor gave again in
/// between.
pub proof fn no_second_refund(states: Seq<Escrow>, calls: Seq<Call>, first: int, second: int)
    requires
        history(states, calls),
        0 <= first < second < calls.len(),
        calls[first] is Refund,
        forall|i: int|
            first < i < second ==> !(#[trigger] calls[i] is Donate && writes_record(
                calls[i],
                calls[first]->Refund_donor.key,
            )),
    ensures
        !(calls[second] is Refund && writes_record(calls[second], calls[first]->Refund_donor.key)),
{
    let donor = calls[first]->Refund_donor.key;
    conservation(states, calls, first);
    assert(follows(states[first], calls[first], states[first + 1]));
    step_keeps(states[first], calls[first], states[first + 1]);
    let k = states[first].place_of(donor).unwrap();
    assert(states[first].donations@[k].donator == donor);
    assert(states[first + 1].donations@[k].donator == donor);
    assert(states[first + 1].holds(donor));
    let q = states[first + 1].place_of(donor).unwrap();
    assert(states[first + 1].donations@[q].donator == donor);
    assert(q == k);
    assert(pledge_refunded(states[first + 1], donor));
    refunded_until_renewed(states, calls, donor, first + 1, second);
    assert(follows(states[second], calls[second], states[second + 1]));
}

} // verus!
