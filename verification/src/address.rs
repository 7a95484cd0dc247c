//! Where records are stored: the address of a campaign record follows from
//! its creator and a time stamp, that of a pledge record from its campaign
//! and its donor.
//!
//! The seeds are built and proved here. The search for the address that
//! belongs to a list of seeds is the ledger's own and is called, not proved.

use crate::identity::Identity;
use anchor_lang::prelude::Pubkey;
use vstd::bytes::{spec_u64_to_le_bytes, u64_to_le_bytes};
use vstd::prelude::*;

verus! {

/// The address and bump seed that the ledger derives from a list of seeds
/// for the program with the given identity, if it finds one.
pub uninterp spec fn program_address(seeds: Seq<Seq<u8>>, program: Seq<u8>) -> Option<
    (Seq<u8>, u8),
>;

/// A derived address and its bump seed as plain values.
pub open spec fn address_view(found: Option<(Identity, u8)>) -> Option<(Seq<u8>, u8)> {
    match found {
        Some((address, bump)) => Some((address@, bump)),
        None => None,
    }
}

/// Calls `Pubkey::try_find_program_address` of `anchor_lang`. Nothing is
/// proved of the search; the contract only gives its result a name,
/// `program_address`, as a function of the seeds and the program's identity.
#[verifier::external_body]
fn find_program_address(seeds: &Vec<Vec<u8>>, program: &Identity) -> (found: Option<(Identity, u8)>)
    ensures
        address_view(found) == program_address(seeds.deep_view(), program@),
{
    let parts: Vec<&[u8]> = seeds.iter().map(|seed| seed.as_slice()).collect();
    match Pubkey::try_find_program_address(&parts, &Pubkey::new_from_array(program.bytes)) {
        Some((address, bump)) => Some((Identity { bytes: address.to_bytes() }, bump)),
        None => None,
    }
}

/// The bytes of the word `campaign`, the first seed of a campaign record.
pub open spec fn campaign_tag() -> Seq<u8> {
    seq![99u8, 97u8, 109u8, 112u8, 97u8, 105u8, 103u8, 110u8]
}

/// The bytes of the word `donation`, the first seed of a pledge record.
pub open spec fn donation_tag() -> Seq<u8> {
    seq![100u8, 111u8, 110u8, 97u8, 116u8, 105u8, 111u8, 110u8]
}

/// The seeds of a campaign record: the tag, the creator, and the time stamp
/// as eight bytes, lowest first.
pub open spec fn campaign_seeds(creator: Identity, timestamp: i64) -> Seq<Seq<u8>> {
    seq![campaign_tag(), creator@, spec_u64_to_le_bytes(timestamp as u64)]
}

/// The seeds of a pledge record: the tag, the campaign's address, the donor.
pub open spec fn donation_seeds(campaign: Identity, donator: Identity) -> Seq<Seq<u8>> {
    seq![donation_tag(), campaign@, donator@]
}

fn identity_seed(id: &Identity) -> (seed: Vec<u8>)
    ensures
        seed@ == id@,
{
    let mut seed: Vec<u8> = Vec::new();
    let mut i: usize = 0;
    while i < 32
        invariant
            i <= 32,
            seed@ == id@.subrange(0, i as int),
        decreases 32 - i,
    {
        seed.push(id.bytes[i]);
        i += 1;
        assert(seed@ =~= id@.subrange(0, i as int));
    }
    assert(seed@ =~= id@);
    seed
}

fn seed_list(tag: Vec<u8>, second: Vec<u8>, third: Vec<u8>) -> (seeds: Vec<Vec<u8>>)
    ensures
        seeds.deep_view() == seq![tag@, second@, third@],
{
    let ghost parts = seq![tag@, second@, third@];
    let mut seeds: Vec<Vec<u8>> = Vec::new();
    seeds.push(tag);
    seeds.push(second);
    seeds.push(third);
    assert(seeds.deep_view() =~~= parts);
    seeds
}

/// The address of the campaign record of `creator` with the given time
/// stamp, under the program with the identity `program`, with its bump seed;
/// `None` where the ledger finds no address for these seeds.
pub fn derive_campaign_address(creator: &Identity, timestamp: i64, program: &Identity) -> (found:
    Option<(Identity, u8)>)
    ensures
        address_view(found) == program_address(campaign_seeds(*creator, timestamp), program@),
{
    let tag: Vec<u8> = vec![99u8, 97u8, 109u8, 112u8, 97u8, 105u8, 103u8, 110u8];
    assert(tag@ =~= campaign_tag());
    let seeds = seed_list(tag, identity_seed(creator), u64_to_le_bytes(timestamp as u64));
    find_program_address(&seeds, program)
}

/// The address of the pledge record of `donator` for the campaign stored at
/// `campaign`, under the program with the identity `program`, with its bump
/// seed; `None` where the ledger finds no address for these seeds.
pub fn derive_donation_address(campaign: &Identity, donator: &Identity, program: &Identity) -> (found:
    Option<(Identity, u8)>)
    ensures
        address_view(found) == program_address(donation_seeds(*campaign, *donator), program@),
{
    let tag: Vec<u8> = vec![100u8, 111u8, 110u8, 97u8, 116u8, 105u8, 111u8, 110u8];
    assert(tag@ =~= donation_tag());
    let seeds = seed_list(tag, identity_seed(campaign), identity_seed(donator));
    find_program_address(&seeds, program)
}

} // verus!
