//! The engine's cross-operation guarantees, stated over the same spec
//! functions that the transitions' contracts use, and proved once for every
//! input.

use crate::engine::{
    donate_outcome, donate_update, finalize_outcome, finalize_payout, finalize_update,
    refund_outcome, refund_update,
};
use crate::registry::spec_has_donation;
use crate::state::{AccountId, Campaign, Donation, ErrorCode, TokenTransfer, TransferAuthority};
use vstd::prelude::*;

verus! {

/// The sum of a sequence of donation amounts.
pub open spec fn sum_of(amounts: Seq<u64>) -> int
    decreases amounts.len(),
{
    if amounts.len() == 0 {
        0
    } else {
        sum_of(amounts.drop_last()) + amounts.last()
    }
}

/// The campaign after a sequence of accepted donations, in order.
pub open spec fn donate_all(c: Campaign, amounts: Seq<u64>) -> Campaign
    decreases amounts.len(),
{
    if amounts.len() == 0 {
        c
    } else {
        donate_update(donate_all(c, amounts.drop_last()), amounts.last())
    }
}

/// After any sequence of accepted donations, `total_funded` is the starting
/// total plus the sum of the donated amounts, and no other campaign field
/// moves.
pub proof fn lemma_total_funded_is_sum(c: Campaign, amounts: Seq<u64>)
    requires
        c.total_funded + sum_of(amounts) <= u64::MAX,
    ensures
        donate_all(c, amounts).total_funded == c.total_funded + sum_of(amounts),
        donate_all(c, amounts).creator == c.creator,
        donate_all(c, amounts).id == c.id,
        donate_all(c, amounts).goal_amount == c.goal_amount,
        donate_all(c, amounts).end_time == c.end_time,
        donate_all(c, amounts).is_active == c.is_active,
        donate_all(c, amounts).bump == c.bump,
    decreases amounts.len(),
{
    if amounts.len() > 0 {
        lemma_total_funded_is_sum(c, amounts.drop_last());
    }
}

/// A second donation from the same donor to the same campaign is always
/// rejected with `DonationAlreadyExists`, whatever its amount: once the
/// donation record for the pair exists, an otherwise-acceptable donation
/// fails on that record alone. (Against a finalized or expired campaign the
/// earlier guards fire first, with their own errors.)
pub proof fn lemma_second_donation_rejected(c: Campaign, now: i64)
    requires
        c.is_active,
        now < c.end_time,
    ensures
        donate_outcome(c, now, true) == Some(ErrorCode::DonationAlreadyExists),
{
}

/// At the store, the first accepted donation itself arms the rejection of
/// the second: once its record is committed, the store answers the duplicate
/// check for the pair, whatever donations were committed before.
pub proof fn lemma_committed_donation_arms_duplicate_check(
    donations: Seq<Donation>,
    record: Donation,
    c: Campaign,
    now: i64,
)
    requires
        c.is_active,
        now < c.end_time,
    ensures
        spec_has_donation(donations.push(record), record.campaign, record.donor),
        donate_outcome(
            c,
            now,
            spec_has_donation(donations.push(record), record.campaign, record.donor),
        ) == Some(ErrorCode::DonationAlreadyExists),
{
    assert(donations.push(record)[donations.len() as int] == record);
}

/// A donation against an inactive campaign fails with `CampaignInactive`,
/// whatever the time; one at or after the deadline fails with
/// `CampaignEnded`.
pub proof fn lemma_donation_guards(c: Campaign, now: i64, donation_exists: bool)
    ensures
        !c.is_active ==> donate_outcome(c, now, donation_exists) == Some(
            ErrorCode::CampaignInactive,
        ),
        c.is_active && now >= c.end_time ==> donate_outcome(c, now, donation_exists) == Some(
            ErrorCode::CampaignEnded,
        ),
{
}

/// Finalization fails with `CampaignNotEnded` exactly when the deadline has
/// not been reached; from the deadline on it is owed, and the campaign it
/// writes is inactive with every other field unchanged.
pub proof fn lemma_finalize_guard(c: Campaign, now: i64)
    ensures
        finalize_outcome(c, now) == Some(ErrorCode::CampaignNotEnded) <==> now < c.end_time,
        finalize_outcome(c, now) is None <==> now >= c.end_time,
        !finalize_update(c).is_active,
        finalize_update(c).creator == c.creator,
        finalize_update(c).id == c.id,
        finalize_update(c).goal_amount == c.goal_amount,
        finalize_update(c).end_time == c.end_time,
        finalize_update(c).total_funded == c.total_funded,
        finalize_update(c).bump == c.bump,
{
}

/// When the goal was met at finalize time, the payout moves exactly
/// `total_funded` to the creator's holding under the derived campaign
/// authority, and no refund against the finalized campaign can ever succeed:
/// every attempt, by any caller against any donation, fails with
/// `CampaignSuccessful`.
pub proof fn lemma_success_pays_creator_and_blocks_refunds(
    c: Campaign,
    campaign_token_account: AccountId,
    creator_token_account: AccountId,
    d: Donation,
    caller: AccountId,
)
    requires
        c.total_funded >= c.goal_amount,
    ensures
        finalize_payout(c, campaign_token_account, creator_token_account) == Some(
            TokenTransfer {
                from: campaign_token_account,
                to: creator_token_account,
                amount: c.total_funded,
                authority: TransferAuthority::CampaignAuthority(c.id),
            },
        ),
        refund_outcome(finalize_update(c), d, caller) == Some(ErrorCode::CampaignSuccessful),
{
}

/// When the goal was missed at finalize time, nothing is paid out at
/// finalization, and each donation is then refundable exactly once: the
/// refund is owed to the donor while the record is unrefunded, the paid
/// record differs from it only in the flag, and every later attempt fails
/// with `AlreadyRefunded`.
pub proof fn lemma_failed_campaign_refunds_exactly_once(
    c: Campaign,
    campaign_token_account: AccountId,
    creator_token_account: AccountId,
    d: Donation,
)
    requires
        c.total_funded < c.goal_amount,
        !d.refunded,
    ensures
        finalize_payout(c, campaign_token_account, creator_token_account) is None,
        refund_outcome(finalize_update(c), d, d.donor) is None,
        refund_update(d).refunded,
        refund_update(d).donor == d.donor,
        refund_update(d).campaign == d.campaign,
        refund_update(d).amount == d.amount,
        refund_update(d).bump == d.bump,
        refund_outcome(finalize_update(c), refund_update(d), d.donor) == Some(
            ErrorCode::AlreadyRefunded,
        ),
{
}

/// The campaign record's standing invariants: the running total never
/// decreases and only a donation moves it; the active flag moves one way,
/// from true to false, and only finalization moves it; the deadline, target,
/// creator and identifier are fixed at creation and never move.
pub proof fn lemma_campaign_invariants(c: Campaign, amount: u64, now: i64)
    requires
        c.total_funded + amount <= u64::MAX,
    ensures
        donate_update(c, amount).total_funded >= c.total_funded,
        donate_update(c, amount).is_active == c.is_active,
        donate_update(c, amount).end_time == c.end_time,
        donate_update(c, amount).goal_amount == c.goal_amount,
        donate_update(c, amount).creator == c.creator,
        donate_update(c, amount).id == c.id,
        finalize_update(c).total_funded == c.total_funded,
        !finalize_update(c).is_active,
        finalize_update(c).end_time == c.end_time,
{
}

} // verus!
