//! Deterministic address and authority derivation.
//!
//! Every campaign lives at a location computed from the campaign tag and its
//! identifier; every donation at one computed from the donation tag, the
//! owning campaign's address and the donor's address. The campaign's signing
//! authority derives from the same campaign seed, so the engine can authorize
//! outbound transfers on the campaign's behalf without holding a private key.
//! Re-deriving a seed from the same values always yields the same bytes, and
//! distinct values yield distinct seeds, so a lookup by formula replaces an
//! index.

use crate::state::AccountId;
use vstd::bytes::*;
use vstd::prelude::*;

verus! {

/// The tag under which campaign addresses and authorities derive: the bytes
/// of "campaign".
pub open spec fn spec_campaign_tag() -> Seq<u8> {
    seq![99u8, 97u8, 109u8, 112u8, 97u8, 105u8, 103u8, 110u8]
}

/// The tag under which donation addresses derive: the bytes of "donation".
pub open spec fn spec_donation_tag() -> Seq<u8> {
    seq![100u8, 111u8, 110u8, 97u8, 116u8, 105u8, 111u8, 110u8]
}

/// An identity as 32 bytes: each word little-endian, lowest word first.
pub open spec fn spec_account_id_bytes(a: AccountId) -> Seq<u8> {
    spec_u64_to_le_bytes(a.w0) + spec_u64_to_le_bytes(a.w1) + spec_u64_to_le_bytes(a.w2)
        + spec_u64_to_le_bytes(a.w3)
}

/// The seed from which a campaign's address and its signing authority both
/// derive: the campaign tag, then the identifier's eight little-endian bytes.
pub open spec fn spec_campaign_seed(campaign_id: u64) -> Seq<u8> {
    spec_campaign_tag() + spec_u64_to_le_bytes(campaign_id)
}

/// The seed from which a donation's address derives: the donation tag, then
/// the owning campaign's address, then the donor's address.
pub open spec fn spec_donation_seed(campaign_address: AccountId, donor: AccountId) -> Seq<u8> {
    spec_donation_tag() + spec_account_id_bytes(campaign_address) + spec_account_id_bytes(donor)
}

/// An identity serialized to its 32 seed bytes.
pub fn account_id_bytes(a: &AccountId) -> (s: Vec<u8>)
    ensures
        s@ == spec_account_id_bytes(*a),
{
    let mut s = u64_to_le_bytes(a.w0);
    let mut b1 = u64_to_le_bytes(a.w1);
    let mut b2 = u64_to_le_bytes(a.w2);
    let mut b3 = u64_to_le_bytes(a.w3);
    s.append(&mut b1);
    s.append(&mut b2);
    s.append(&mut b3);
    s
}

/// Build the seed of the campaign with this identifier.
pub fn campaign_seed(campaign_id: u64) -> (s: Vec<u8>)
    ensures
        s@ == spec_campaign_seed(campaign_id),
{
    let mut s: Vec<u8> = Vec::new();
    s.push(99u8);
    s.push(97u8);
    s.push(109u8);
    s.push(112u8);
    s.push(97u8);
    s.push(105u8);
    s.push(103u8);
    s.push(110u8);
    proof {
        assert(s@ =~= spec_campaign_tag());
    }
    let mut id_bytes = u64_to_le_bytes(campaign_id);
    s.append(&mut id_bytes);
    s
}

/// Build the seed of the donation owned by this campaign and donor.
pub fn donation_seed(campaign_address: &AccountId, donor: &AccountId) -> (s: Vec<u8>)
    ensures
        s@ == spec_donation_seed(*campaign_address, *donor),
{
    let mut s: Vec<u8> = Vec::new();
    s.push(100u8);
    s.push(111u8);
    s.push(110u8);
    s.push(97u8);
    s.push(116u8);
    s.push(105u8);
    s.push(111u8);
    s.push(110u8);
    proof {
        assert(s@ =~= spec_donation_tag());
    }
    let mut campaign_bytes = account_id_bytes(campaign_address);
    let mut donor_bytes = account_id_bytes(donor);
    s.append(&mut campaign_bytes);
    s.append(&mut donor_bytes);
    s
}

/// The campaign seed pins the campaign: distinct identifiers give distinct
/// seeds, so an address or authority derived from the seed is scoped to
/// exactly one campaign.
pub proof fn lemma_campaign_seed_injective(a: u64, b: u64)
    requires
        spec_campaign_seed(a) == spec_campaign_seed(b),
    ensures
        a == b,
{
    lemma_auto_spec_u64_to_from_le_bytes();
    assert(spec_campaign_seed(a).subrange(8, 16) =~= spec_u64_to_le_bytes(a));
    assert(spec_campaign_seed(b).subrange(8, 16) =~= spec_u64_to_le_bytes(b));
    assert(spec_u64_from_le_bytes(spec_u64_to_le_bytes(a)) == a);
    assert(spec_u64_from_le_bytes(spec_u64_to_le_bytes(b)) == b);
}

/// An identity's 32 seed bytes pin the identity.
pub proof fn lemma_account_id_bytes_injective(x: AccountId, y: AccountId)
    requires
        spec_account_id_bytes(x) == spec_account_id_bytes(y),
    ensures
        x == y,
{
    lemma_auto_spec_u64_to_from_le_bytes();
    assert(spec_account_id_bytes(x).subrange(0, 8) =~= spec_u64_to_le_bytes(x.w0));
    assert(spec_account_id_bytes(x).subrange(8, 16) =~= spec_u64_to_le_bytes(x.w1));
    assert(spec_account_id_bytes(x).subrange(16, 24) =~= spec_u64_to_le_bytes(x.w2));
    assert(spec_account_id_bytes(x).subrange(24, 32) =~= spec_u64_to_le_bytes(x.w3));
    assert(spec_account_id_bytes(y).subrange(0, 8) =~= spec_u64_to_le_bytes(y.w0));
    assert(spec_account_id_bytes(y).subrange(8, 16) =~= spec_u64_to_le_bytes(y.w1));
    assert(spec_account_id_bytes(y).subrange(16, 24) =~= spec_u64_to_le_bytes(y.w2));
    assert(spec_account_id_bytes(y).subrange(24, 32) =~= spec_u64_to_le_bytes(y.w3));
    assert(spec_u64_from_le_bytes(spec_u64_to_le_bytes(x.w0)) == x.w0);
    assert(spec_u64_from_le_bytes(spec_u64_to_le_bytes(x.w1)) == x.w1);
    assert(spec_u64_from_le_bytes(spec_u64_to_le_bytes(x.w2)) == x.w2);
    assert(spec_u64_from_le_bytes(spec_u64_to_le_bytes(x.w3)) == x.w3);
}

/// The donation seed pins its (campaign, donor) pair: one donation record
/// location per pair.
pub proof fn lemma_donation_seed_injective(
    campaign_a: AccountId,
    donor_a: AccountId,
    campaign_b: AccountId,
    donor_b: AccountId,
)
    requires
        spec_donation_seed(campaign_a, donor_a) == spec_donation_seed(campaign_b, donor_b),
    ensures
        campaign_a == campaign_b,
        donor_a == donor_b,
{
    lemma_auto_spec_u64_to_from_le_bytes();
    assert(spec_donation_seed(campaign_a, donor_a).subrange(8, 40) =~= spec_account_id_bytes(
        campaign_a,
    ));
    assert(spec_donation_seed(campaign_a, donor_a).subrange(40, 72) =~= spec_account_id_bytes(
        donor_a,
    ));
    assert(spec_donation_seed(campaign_b, donor_b).subrange(8, 40) =~= spec_account_id_bytes(
        campaign_b,
    ));
    assert(spec_donation_seed(campaign_b, donor_b).subrange(40, 72) =~= spec_account_id_bytes(
        donor_b,
    ));
    lemma_account_id_bytes_injective(campaign_a, campaign_b);
    lemma_account_id_bytes_injective(donor_a, donor_b);
}

} // verus!
