//! The escrow engine: four pure transitions, each from (current records,
//! validated inputs, current time) to (new records, transfer instruction).
//!
//! The host commits the returned records and performs the returned transfer
//! atomically: on any error, and on a failed transfer, it writes nothing, so
//! no partial effect is ever observable.

use crate::state::{AccountId, Campaign, Donation, ErrorCode, TokenTransfer, TransferAuthority};
use vstd::prelude::*;

verus! {

/// The donation-time guard: the first failing precondition, in the order the
/// engine checks them, or `None` when the donation is allowed.
///
/// `donation_exists` is the record store's answer to whether a donation
/// record for this (campaign, donor) pair is already present.
pub open spec fn donate_outcome(c: Campaign, now: i64, donation_exists: bool) -> Option<ErrorCode> {
    if !c.is_active {
        Some(ErrorCode::CampaignInactive)
    } else if now >= c.end_time {
        Some(ErrorCode::CampaignEnded)
    } else if donation_exists {
        Some(ErrorCode::DonationAlreadyExists)
    } else {
        None
    }
}

/// The campaign after one accepted donation of `amount`: only the running
/// total moves.
pub open spec fn donate_update(c: Campaign, amount: u64) -> Campaign {
    Campaign {
        creator: c.creator,
        id: c.id,
        goal_amount: c.goal_amount,
        end_time: c.end_time,
        total_funded: (c.total_funded + amount) as u64,
        is_active: c.is_active,
        bump: c.bump,
    }
}

/// The finalize-time guard: the deadline must have passed.
pub open spec fn finalize_outcome(c: Campaign, now: i64) -> Option<ErrorCode> {
    if now < c.end_time {
        Some(ErrorCode::CampaignNotEnded)
    } else {
        None
    }
}

/// The campaign after finalization: only the active flag moves, one way.
pub open spec fn finalize_update(c: Campaign) -> Campaign {
    Campaign {
        creator: c.creator,
        id: c.id,
        goal_amount: c.goal_amount,
        end_time: c.end_time,
        total_funded: c.total_funded,
        is_active: false,
        bump: c.bump,
    }
}

/// The payout that finalization decides: the whole escrowed balance to the
/// creator's holding when the goal was met, under the derived campaign
/// authority; nothing otherwise (donors then refund individually).
pub open spec fn finalize_payout(
    c: Campaign,
    campaign_token_account: AccountId,
    creator_token_account: AccountId,
) -> Option<TokenTransfer> {
    if c.total_funded >= c.goal_amount {
        Some(
            TokenTransfer {
                from: campaign_token_account,
                to: creator_token_account,
                amount: c.total_funded,
                authority: TransferAuthority::CampaignAuthority(c.id),
            },
        )
    } else {
        None
    }
}

/// The refund-time guard: the first failing precondition, in the order the
/// engine checks them, or `None` when the refund is owed.
pub open spec fn refund_outcome(c: Campaign, d: Donation, caller: AccountId) -> Option<
    ErrorCode,
> {
    if c.is_active {
        Some(ErrorCode::CampaignStillActive)
    } else if c.total_funded >= c.goal_amount {
        Some(ErrorCode::CampaignSuccessful)
    } else if d.donor != caller {
        Some(ErrorCode::InvalidDonor)
    } else if d.refunded {
        Some(ErrorCode::AlreadyRefunded)
    } else {
        None
    }
}

/// The donation after its refund has been paid: only the flag moves, one way.
pub open spec fn refund_update(d: Donation) -> Donation {
    Donation {
        donor: d.donor,
        campaign: d.campaign,
        amount: d.amount,
        refunded: true,
        bump: d.bump,
    }
}

/// Create a new campaign record.
///
/// The record store, not the engine, rejects a duplicate `campaign_id` (with
/// `AlreadyExists`): the engine is handed a creation that the store accepted.
/// A zero `goal_amount` is not rejected; such a campaign is trivially
/// successful.
pub fn initialize_campaign(
    creator: AccountId,
    campaign_id: u64,
    goal_amount: u64,
    duration: i64,
    now: i64,
    bump: u8,
) -> (c: Campaign)
    requires
        i64::MIN <= now + duration <= i64::MAX,
    ensures
        c == (Campaign {
            creator,
            id: campaign_id,
            goal_amount,
            end_time: (now + duration) as i64,
            total_funded: 0,
            is_active: true,
            bump,
        }),
{
    Campaign {
        creator,
        id: campaign_id,
        goal_amount,
        end_time: now + duration,
        total_funded: 0,
        is_active: true,
        bump,
    }
}

/// Accept or reject a donation of `amount` from `donor` at time `now`.
///
/// On success, returns the campaign with its total raised, the new donation
/// record (addressed under the pair of `campaign_address` and the donor), and
/// the instruction moving `amount` from the donor's holding into the
/// campaign's, signed by the donor directly. The first failing guard wins:
/// an inactive campaign, then a passed deadline, then an existing donation
/// record for this pair.
pub fn donate(
    campaign: &Campaign,
    campaign_address: AccountId,
    donor: AccountId,
    donor_token_account: AccountId,
    campaign_token_account: AccountId,
    amount: u64,
    now: i64,
    donation_exists: bool,
    bump: u8,
) -> (r: Result<(Campaign, Donation, TokenTransfer), ErrorCode>)
    requires
        donate_outcome(*campaign, now, donation_exists) is None ==> campaign.total_funded + amount
            <= u64::MAX,
    ensures
        match r {
            Result::Ok(out) => {
                &&& donate_outcome(*campaign, now, donation_exists) is None
                &&& out.0 == donate_update(*campaign, amount)
                &&& out.1 == (Donation {
                    donor,
                    campaign: campaign_address,
                    amount,
                    refunded: false,
                    bump,
                })
                &&& out.2 == (TokenTransfer {
                    from: donor_token_account,
                    to: campaign_token_account,
                    amount,
                    authority: TransferAuthority::Signer(donor),
                })
            },
            Result::Err(e) => donate_outcome(*campaign, now, donation_exists) == Some(e),
        },
{
    if !campaign.is_active {
        return Err(ErrorCode::CampaignInactive);
    }
    if now >= campaign.end_time {
        return Err(ErrorCode::CampaignEnded);
    }
    if donation_exists {
        return Err(ErrorCode::DonationAlreadyExists);
    }
    let updated = Campaign {
        creator: campaign.creator,
        id: campaign.id,
        goal_amount: campaign.goal_amount,
        end_time: campaign.end_time,
        total_funded: campaign.total_funded + amount,
        is_active: campaign.is_active,
        bump: campaign.bump,
    };
    let donation = Donation { donor, campaign: campaign_address, amount, refunded: false, bump };
    let transfer = TokenTransfer {
        from: donor_token_account,
        to: campaign_token_account,
        amount,
        authority: TransferAuthority::Signer(donor),
    };
    Ok((updated, donation, transfer))
}

/// Close a campaign once its deadline has passed.
///
/// On success, returns the campaign with `is_active` false and, when the
/// goal was met, the instruction moving the whole escrowed balance
/// (`total_funded`) to the creator's holding under the derived campaign
/// authority. When the goal was missed, no transfer happens here: each donor
/// claims a refund individually.
///
/// The deadline is the only guard: a second call after the deadline is
/// accepted again and, when the goal was met, instructs the same payout
/// again. A host that must rule the repeat out checks `is_active` before
/// calling.
pub fn finalize_campaign(
    campaign: &Campaign,
    now: i64,
    campaign_token_account: AccountId,
    creator_token_account: AccountId,
) -> (r: Result<(Campaign, Option<TokenTransfer>), ErrorCode>)
    ensures
        match r {
            Result::Ok(out) => {
                &&& finalize_outcome(*campaign, now) is None
                &&& out.0 == finalize_update(*campaign)
                &&& out.1 == finalize_payout(
                    *campaign,
                    campaign_token_account,
                    creator_token_account,
                )
            },
            Result::Err(e) => finalize_outcome(*campaign, now) == Some(e),
        },
{
    if now < campaign.end_time {
        return Err(ErrorCode::CampaignNotEnded);
    }
    let closed = Campaign {
        creator: campaign.creator,
        id: campaign.id,
        goal_amount: campaign.goal_amount,
        end_time: campaign.end_time,
        total_funded: campaign.total_funded,
        is_active: false,
        bump: campaign.bump,
    };
    let payout = if campaign.total_funded >= campaign.goal_amount {
        Some(
            TokenTransfer {
                from: campaign_token_account,
                to: creator_token_account,
                amount: campaign.total_funded,
                authority: TransferAuthority::CampaignAuthority(campaign.id),
            },
        )
    } else {
        None
    };
    Ok((closed, payout))
}

/// Pay a donation back to its donor, at most once, after a failed campaign.
///
/// On success, returns the donation marked refunded and the instruction
/// moving `donation.amount` from the campaign's holding back to the donor's,
/// under the derived campaign authority. The first failing guard wins: a
/// still-active campaign, then a met goal, then a caller who is not this
/// donation's donor, then an already-paid refund.
pub fn refund(
    campaign: &Campaign,
    donation: &Donation,
    caller: AccountId,
    campaign_token_account: AccountId,
    donor_token_account: AccountId,
) -> (r: Result<(Donation, TokenTransfer), ErrorCode>)
    ensures
        match r {
            Result::Ok(out) => {
                &&& refund_outcome(*campaign, *donation, caller) is None
                &&& out.0 == refund_update(*donation)
                &&& out.1 == (TokenTransfer {
                    from: campaign_token_account,
                    to: donor_token_account,
                    amount: donation.amount,
                    authority: TransferAuthority::CampaignAuthority(campaign.id),
                })
            },
            Result::Err(e) => refund_outcome(*campaign, *donation, caller) == Some(e),
        },
{
    if campaign.is_active {
        return Err(ErrorCode::CampaignStillActive);
    }
    if campaign.total_funded >= campaign.goal_amount {
        return Err(ErrorCode::CampaignSuccessful);
    }
    if donation.donor != caller {
        return Err(ErrorCode::InvalidDonor);
    }
    if donation.refunded {
        return Err(ErrorCode::AlreadyRefunded);
    }
    let paid = Donation {
        donor: donation.donor,
        campaign: donation.campaign,
        amount: donation.amount,
        refunded: true,
        bump: donation.bump,
    };
    let transfer = TokenTransfer {
        from: campaign_token_account,
        to: donor_token_account,
        amount: donation.amount,
        authority: TransferAuthority::CampaignAuthority(campaign.id),
    };
    Ok((paid, transfer))
}

/// The token-transfer collaborator's balance arithmetic, for in-memory hosts
/// and tests: move `amount` from one holding to another, or fail with
/// `TransferFailed`, changing nothing, when the source holds less than
/// `amount`. Authorization is the host's concern: only the engine's
/// transitions may instruct a movement of campaign-held funds.
pub fn execute_transfer(from: &mut u64, to: &mut u64, amount: u64) -> (r: Result<
    (),
    ErrorCode,
>)
    requires
        *old(from) >= amount ==> *old(to) + amount <= u64::MAX,
    ensures
        match r {
            Result::Ok(_) => {
                &&& *old(from) >= amount
                &&& *final(from) == *old(from) - amount
                &&& *final(to) == *old(to) + amount
            },
            Result::Err(e) => {
                &&& e == ErrorCode::TransferFailed
                &&& *old(from) < amount
                &&& *final(from) == *old(from)
                &&& *final(to) == *old(to)
            },
        },
{
    if *from < amount {
        return Err(ErrorCode::TransferFailed);
    }
    *from = *from - amount;
    *to = *to + amount;
    Ok(())
}

} // verus!
