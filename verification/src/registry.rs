//! An in-memory realization of the public operation surface: campaigns and
//! donations located by their content-addressed keys, with the engine
//! deciding every transition.
//!
//! Each campaign lives under the address computed from its identifier, each
//! donation under its (campaign address, donor) pair, so a lookup by formula
//! replaces an index. Token balances stay with the token-transfer
//! collaborator: every operation that moves funds returns the instruction
//! for the host to perform (`execute_transfer` settles it over in-memory
//! holdings).

use crate::engine;
use crate::engine::{donate_outcome, donate_update, finalize_outcome, finalize_payout,
    finalize_update, refund_outcome, refund_update};
use crate::seeds::spec_campaign_tag;
use crate::state::{AccountId, Campaign, Donation, ErrorCode, TokenTransfer, TransferAuthority};
use vstd::bytes::{spec_u64_from_le_bytes, u64_from_le_bytes};
use vstd::pervasive::VecAdditionalExecFns;
use vstd::prelude::*;

verus! {

/// The content-addressed location of a campaign: the campaign tag as the
/// identity's first word, the identifier as its second.
pub open spec fn spec_campaign_address(campaign_id: u64) -> AccountId {
    AccountId { w0: spec_u64_from_le_bytes(spec_campaign_tag()), w1: campaign_id, w2: 0, w3: 0 }
}

/// Whether some campaign in `s` carries this identifier.
pub open spec fn spec_has_campaign(s: Seq<Campaign>, campaign_id: u64) -> bool {
    exists|i: int| 0 <= i < s.len() && s[i].id == campaign_id
}

/// The index of the campaign with this identifier (unique under `wf`).
pub open spec fn spec_campaign_index(s: Seq<Campaign>, campaign_id: u64) -> int {
    choose|i: int| 0 <= i < s.len() && s[i].id == campaign_id
}

/// The campaign with this identifier (meaningful under `spec_has_campaign`).
pub open spec fn spec_campaign_of(s: Seq<Campaign>, campaign_id: u64) -> Campaign {
    s[spec_campaign_index(s, campaign_id)]
}

/// Whether some donation in `s` belongs to this (campaign, donor) pair.
pub open spec fn spec_has_donation(s: Seq<Donation>, campaign_address: AccountId, donor: AccountId) -> bool {
    exists|i: int| 0 <= i < s.len() && s[i].campaign == campaign_address && s[i].donor == donor
}

/// The index of the pair's donation (unique under `wf`).
pub open spec fn spec_donation_index(s: Seq<Donation>, campaign_address: AccountId, donor: AccountId) -> int {
    choose|i: int| 0 <= i < s.len() && s[i].campaign == campaign_address && s[i].donor == donor
}

/// The pair's donation (meaningful under `spec_has_donation`).
pub open spec fn spec_donation_of(s: Seq<Donation>, campaign_address: AccountId, donor: AccountId) -> Donation {
    s[spec_donation_index(s, campaign_address, donor)]
}

/// The durable records, in creation order.
pub struct Registry {
    /// Every campaign created so far; identifiers are unique.
    pub campaigns: Vec<Campaign>,
    /// Every donation accepted so far; one per (campaign, donor) pair.
    pub donations: Vec<Donation>,
}

impl Registry {
    /// Each campaign identifier, and each (campaign, donor) pair, addresses
    /// at most one record: what the content-addressed store enforces by
    /// construction.
    pub open spec fn wf(self) -> bool {
        &&& forall|i: int, j: int|
            0 <= i < j < self.campaigns@.len() ==> self.campaigns@[i].id != self.campaigns@[j].id
        &&& forall|i: int, j: int|
            0 <= i < j < self.donations@.len() ==> !(self.donations@[i].campaign
                == self.donations@[j].campaign && self.donations@[i].donor
                == self.donations@[j].donor)
    }

    /// An empty store.
    pub fn new() -> (r: Registry)
        ensures
            r.wf(),
            r.campaigns@.len() == 0,
            r.donations@.len() == 0,
    {
        Registry { campaigns: Vec::new(), donations: Vec::new() }
    }

    fn find_campaign(&self, campaign_id: u64) -> (r: Option<usize>)
        ensures
            match r {
                Some(i) => i < self.campaigns@.len() && self.campaigns@[i as int].id
                    == campaign_id,
                None => !spec_has_campaign(self.campaigns@, campaign_id),
            },
    {
        let mut i: usize = 0;
        while i < self.campaigns.len()
            invariant
                i <= self.campaigns@.len(),
                forall|j: int| 0 <= j < i ==> self.campaigns@[j].id != campaign_id,
            decreases self.campaigns@.len() - i,
        {
            if self.campaigns[i].id == campaign_id {
                return Some(i);
            }
            i = i + 1;
        }
        None
    }

    fn find_donation(&self, campaign_address: AccountId, donor: AccountId) -> (r: Option<usize>)
        ensures
            match r {
                Some(i) => i < self.donations@.len() && self.donations@[i as int].campaign
                    == campaign_address && self.donations@[i as int].donor == donor,
                None => !spec_has_donation(self.donations@, campaign_address, donor),
            },
    {
        let mut i: usize = 0;
        while i < self.donations.len()
            invariant
                i <= self.donations@.len(),
                forall|j: int|
                    0 <= j < i ==> !(self.donations@[j].campaign == campaign_address
                        && self.donations@[j].donor == donor),
            decreases self.donations@.len() - i,
        {
            if self.donations[i].campaign == campaign_address && self.donations[i].donor == donor {
                return Some(i);
            }
            i = i + 1;
        }
        None
    }

    /// Create a campaign under `campaign_id`, rejecting a duplicate: the
    /// content-addressed creation fails with `AlreadyExists` when a record
    /// already sits at the derived address.
    pub fn initialize_campaign(
        &mut self,
        creator: AccountId,
        campaign_id: u64,
        goal_amount: u64,
        duration: i64,
        now: i64,
        bump: u8,
    ) -> (r: Result<Campaign, ErrorCode>)
        requires
            old(self).wf(),
            i64::MIN <= now + duration <= i64::MAX,
        ensures
            final(self).wf(),
            match r {
                Result::Ok(c) => {
                    &&& !spec_has_campaign(old(self).campaigns@, campaign_id)
                    &&& c == (Campaign {
                        creator,
                        id: campaign_id,
                        goal_amount,
                        end_time: (now + duration) as i64,
                        total_funded: 0,
                        is_active: true,
                        bump,
                    })
                    &&& final(self).campaigns@ == old(self).campaigns@.push(c)
                    &&& final(self).donations@ == old(self).donations@
                },
                Result::Err(e) => {
                    &&& e == ErrorCode::AlreadyExists
                    &&& spec_has_campaign(old(self).campaigns@, campaign_id)
                    &&& *final(self) == *old(self)
                },
            },
    {
        if self.find_campaign(campaign_id).is_some() {
            return Err(ErrorCode::AlreadyExists);
        }
        let c = engine::initialize_campaign(creator, campaign_id, goal_amount, duration, now, bump);
        self.campaigns.push(c);
        Ok(c)
    }

    /// Accept or reject a donation of `amount` from `donor` to the campaign
    /// under `campaign_id`, at time `now`: `NotFound` without such a
    /// campaign, the engine's guards otherwise, with the duplicate-donation
    /// check answered by the store itself. On success, the raised total and
    /// the new donation record are committed and the transfer instruction is
    /// returned for the host to perform.
    pub fn donate(
        &mut self,
        campaign_id: u64,
        donor: AccountId,
        donor_token_account: AccountId,
        campaign_token_account: AccountId,
        amount: u64,
        now: i64,
        bump: u8,
    ) -> (r: Result<TokenTransfer, ErrorCode>)
        requires
            old(self).wf(),
            spec_has_campaign(old(self).campaigns@, campaign_id) ==> spec_campaign_of(
                old(self).campaigns@,
                campaign_id,
            ).total_funded + amount <= u64::MAX,
        ensures
            final(self).wf(),
            ({
                let s0 = old(self).campaigns@;
                let addr = spec_campaign_address(campaign_id);
                let existed = spec_has_donation(old(self).donations@, addr, donor);
                match r {
                    Result::Ok(t) => {
                        &&& spec_has_campaign(s0, campaign_id)
                        &&& donate_outcome(spec_campaign_of(s0, campaign_id), now, existed)
                            is None
                        &&& final(self).campaigns@ == s0.update(
                            spec_campaign_index(s0, campaign_id),
                            donate_update(spec_campaign_of(s0, campaign_id), amount),
                        )
                        &&& final(self).donations@ == old(self).donations@.push(
                            Donation { donor, campaign: addr, amount, refunded: false, bump },
                        )
                        &&& t == (TokenTransfer {
                            from: donor_token_account,
                            to: campaign_token_account,
                            amount,
                            authority: TransferAuthority::Signer(donor),
                        })
                    },
                    Result::Err(e) => {
                        &&& *final(self) == *old(self)
                        &&& if !spec_has_campaign(s0, campaign_id) {
                            e == ErrorCode::NotFound
                        } else {
                            donate_outcome(spec_campaign_of(s0, campaign_id), now, existed)
                                == Some(e)
                        }
                    },
                }
            }),
    {
        let i = match self.find_campaign(campaign_id) {
            Some(i) => i,
            None => {
                return Err(ErrorCode::NotFound);
            },
        };
        proof {
            lemma_campaign_index_agrees(self.campaigns@, campaign_id, i as int);
        }
        let addr = campaign_address(campaign_id);
        let donation_exists = self.find_donation(addr, donor).is_some();
        let (updated, donation, transfer) = match engine::donate(
            &self.campaigns[i],
            addr,
            donor,
            donor_token_account,
            campaign_token_account,
            amount,
            now,
            donation_exists,
            bump,
        ) {
            Ok(out) => out,
            Err(e) => {
                return Err(e);
            },
        };
        self.campaigns.set(i, updated);
        self.donations.push(donation);
        proof {
            assert forall|p: int, q: int|
                0 <= p < q < self.campaigns@.len() implies self.campaigns@[p].id
                != self.campaigns@[q].id by {
                assert(old(self).campaigns@[p].id != old(self).campaigns@[q].id);
            }
        }
        Ok(transfer)
    }

    /// Close the campaign under `campaign_id` once its deadline has passed:
    /// `NotFound` without such a campaign, `CampaignNotEnded` before the
    /// deadline. On success the record is committed inactive, and when the
    /// goal was met the payout instruction (the whole raised total to the
    /// creator's holding) is returned for the host to perform.
    pub fn finalize_campaign(
        &mut self,
        campaign_id: u64,
        now: i64,
        campaign_token_account: AccountId,
        creator_token_account: AccountId,
    ) -> (r: Result<Option<TokenTransfer>, ErrorCode>)
        requires
            old(self).wf(),
        ensures
            final(self).wf(),
            ({
                let s0 = old(self).campaigns@;
                match r {
                    Result::Ok(payout) => {
                        &&& spec_has_campaign(s0, campaign_id)
                        &&& finalize_outcome(spec_campaign_of(s0, campaign_id), now) is None
                        &&& final(self).campaigns@ == s0.update(
                            spec_campaign_index(s0, campaign_id),
                            finalize_update(spec_campaign_of(s0, campaign_id)),
                        )
                        &&& final(self).donations@ == old(self).donations@
                        &&& payout == finalize_payout(
                            spec_campaign_of(s0, campaign_id),
                            campaign_token_account,
                            creator_token_account,
                        )
                    },
                    Result::Err(e) => {
                        &&& *final(self) == *old(self)
                        &&& if !spec_has_campaign(s0, campaign_id) {
                            e == ErrorCode::NotFound
                        } else {
                            finalize_outcome(spec_campaign_of(s0, campaign_id), now) == Some(e)
                        }
                    },
                }
            }),
    {
        let i = match self.find_campaign(campaign_id) {
            Some(i) => i,
            None => {
                return Err(ErrorCode::NotFound);
            },
        };
        proof {
            lemma_campaign_index_agrees(self.campaigns@, campaign_id, i as int);
        }
        let (closed, payout) = match engine::finalize_campaign(
            &self.campaigns[i],
            now,
            campaign_token_account,
            creator_token_account,
        ) {
            Ok(out) => out,
            Err(e) => {
                return Err(e);
            },
        };
        self.campaigns.set(i, closed);
        proof {
            assert forall|p: int, q: int|
                0 <= p < q < self.campaigns@.len() implies self.campaigns@[p].id
                != self.campaigns@[q].id by {
                assert(old(self).campaigns@[p].id != old(self).campaigns@[q].id);
            }
        }
        Ok(payout)
    }

    /// Pay the donation of `caller` to the campaign under `campaign_id`
    /// back, at most once, after a failed campaign: `NotFound` without such
    /// a campaign or donation, the engine's guards otherwise. On success the
    /// record is committed refunded, and the instruction moving its amount
    /// back to the donor's holding is returned for the host to perform.
    pub fn refund(
        &mut self,
        campaign_id: u64,
        caller: AccountId,
        campaign_token_account: AccountId,
        donor_token_account: AccountId,
    ) -> (r: Result<TokenTransfer, ErrorCode>)
        requires
            old(self).wf(),
        ensures
            final(self).wf(),
            ({
                let s0 = old(self).campaigns@;
                let d0 = old(self).donations@;
                let addr = spec_campaign_address(campaign_id);
                match r {
                    Result::Ok(t) => {
                        &&& spec_has_campaign(s0, campaign_id)
                        &&& spec_has_donation(d0, addr, caller)
                        &&& refund_outcome(
                            spec_campaign_of(s0, campaign_id),
                            spec_donation_of(d0, addr, caller),
                            caller,
                        ) is None
                        &&& final(self).campaigns@ == s0
                        &&& final(self).donations@ == d0.update(
                            spec_donation_index(d0, addr, caller),
                            refund_update(spec_donation_of(d0, addr, caller)),
                        )
                        &&& t == (TokenTransfer {
                            from: campaign_token_account,
                            to: donor_token_account,
                            amount: spec_donation_of(d0, addr, caller).amount,
                            authority: TransferAuthority::CampaignAuthority(
                                spec_campaign_of(s0, campaign_id).id,
                            ),
                        })
                    },
                    Result::Err(e) => {
                        &&& *final(self) == *old(self)
                        &&& if !spec_has_campaign(s0, campaign_id) {
                            e == ErrorCode::NotFound
                        } else if !spec_has_donation(d0, addr, caller) {
                            e == ErrorCode::NotFound
                        } else {
                            refund_outcome(
                                spec_campaign_of(s0, campaign_id),
                                spec_donation_of(d0, addr, caller),
                                caller,
                            ) == Some(e)
                        }
                    },
                }
            }),
    {
        let i = match self.find_campaign(campaign_id) {
            Some(i) => i,
            None => {
                return Err(ErrorCode::NotFound);
            },
        };
        proof {
            lemma_campaign_index_agrees(self.campaigns@, campaign_id, i as int);
        }
        let addr = campaign_address(campaign_id);
        let j = match self.find_donation(addr, caller) {
            Some(j) => j,
            None => {
                return Err(ErrorCode::NotFound);
            },
        };
        proof {
            lemma_donation_index_agrees(self.donations@, addr, caller, j as int);
        }
        let (paid, transfer) = match engine::refund(
            &self.campaigns[i],
            &self.donations[j],
            caller,
            campaign_token_account,
            donor_token_account,
        ) {
            Ok(out) => out,
            Err(e) => {
                return Err(e);
            },
        };
        self.donations.set(j, paid);
        proof {
            assert forall|p: int, q: int|
                0 <= p < q < self.donations@.len() implies !(self.donations@[p].campaign
                == self.donations@[q].campaign && self.donations@[p].donor
                == self.donations@[q].donor) by {
                assert(!(old(self).donations@[p].campaign == old(self).donations@[q].campaign
                    && old(self).donations@[p].donor == old(self).donations@[q].donor));
            }
        }
        Ok(transfer)
    }

    /// The campaign stored under this identifier, if any.
    pub fn get_campaign(&self, campaign_id: u64) -> (r: Option<Campaign>)
        requires
            self.wf(),
        ensures
            match r {
                Some(c) => spec_has_campaign(self.campaigns@, campaign_id) && c
                    == spec_campaign_of(self.campaigns@, campaign_id),
                None => !spec_has_campaign(self.campaigns@, campaign_id),
            },
    {
        match self.find_campaign(campaign_id) {
            Some(i) => {
                proof {
                    lemma_campaign_index_agrees(self.campaigns@, campaign_id, i as int);
                }
                Some(self.campaigns[i])
            },
            None => None,
        }
    }

    /// The donation stored under this (campaign, donor) pair, if any.
    pub fn get_donation(&self, campaign_id: u64, donor: AccountId) -> (r: Option<Donation>)
        requires
            self.wf(),
        ensures
            ({
                let addr = spec_campaign_address(campaign_id);
                match r {
                    Some(d) => spec_has_donation(self.donations@, addr, donor) && d
                        == spec_donation_of(self.donations@, addr, donor),
                    None => !spec_has_donation(self.donations@, addr, donor),
                }
            }),
    {
        let addr = campaign_address(campaign_id);
        match self.find_donation(addr, donor) {
            Some(i) => {
                proof {
                    lemma_donation_index_agrees(self.donations@, addr, donor, i as int);
                }
                Some(self.donations[i])
            },
            None => None,
        }
    }
}

/// Build a campaign's content-addressed location.
pub fn campaign_address(campaign_id: u64) -> (a: AccountId)
    ensures
        a == spec_campaign_address(campaign_id),
{
    let mut tag: Vec<u8> = Vec::new();
    tag.push(99u8);
    tag.push(97u8);
    tag.push(109u8);
    tag.push(112u8);
    tag.push(97u8);
    tag.push(105u8);
    tag.push(103u8);
    tag.push(110u8);
    proof {
        assert(tag@ =~= spec_campaign_tag());
    }
    let w0 = u64_from_le_bytes(tag.as_slice());
    AccountId { w0, w1: campaign_id, w2: 0, w3: 0 }
}

/// Under uniqueness of identifiers, the index the store found is the index
/// the specification chooses.
proof fn lemma_campaign_index_agrees(s: Seq<Campaign>, campaign_id: u64, i: int)
    requires
        forall|p: int, q: int| 0 <= p < q < s.len() ==> s[p].id != s[q].id,
        0 <= i < s.len(),
        s[i].id == campaign_id,
    ensures
        spec_has_campaign(s, campaign_id),
        spec_campaign_index(s, campaign_id) == i,
        spec_campaign_of(s, campaign_id) == s[i],
{
    assert(spec_has_campaign(s, campaign_id));
    let j = spec_campaign_index(s, campaign_id);
    assert(0 <= j < s.len() && s[j].id == campaign_id);
    if j < i {
        assert(s[j].id != s[i].id);
    } else if i < j {
        assert(s[i].id != s[j].id);
    }
}

/// Under uniqueness of (campaign, donor) pairs, the index the store found is
/// the index the specification chooses.
proof fn lemma_donation_index_agrees(s: Seq<Donation>, campaign_address: AccountId, donor: AccountId, i: int)
    requires
        forall|p: int, q: int|
            0 <= p < q < s.len() ==> !(s[p].campaign == s[q].campaign && s[p].donor == s[q].donor),
        0 <= i < s.len(),
        s[i].campaign == campaign_address,
        s[i].donor == donor,
    ensures
        spec_has_donation(s, campaign_address, donor),
        spec_donation_index(s, campaign_address, donor) == i,
        spec_donation_of(s, campaign_address, donor) == s[i],
{
    assert(spec_has_donation(s, campaign_address, donor));
    let j = spec_donation_index(s, campaign_address, donor);
    assert(0 <= j < s.len() && s[j].campaign == campaign_address && s[j].donor == donor);
    if j < i {
        assert(!(s[j].campaign == s[i].campaign && s[j].donor == s[i].donor));
    } else if i < j {
        assert(!(s[i].campaign == s[j].campaign && s[i].donor == s[j].donor));
    }
}

} // verus!
