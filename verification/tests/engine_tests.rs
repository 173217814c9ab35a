//! Each operation's guards, one input per error, and the exact record each
//! operation writes.

use crowdfunding_escrow::engine::{
    donate, execute_transfer, finalize_campaign, initialize_campaign, refund,
};
use crowdfunding_escrow::state::{
    AccountId, Campaign, CampaignStatus, Donation, ErrorCode, TransferAuthority,
};

fn sample_campaign() -> Campaign {
    Campaign {
        creator: AccountId::from_u64(1),
        id: 42,
        goal_amount: 1000,
        end_time: 100,
        total_funded: 0,
        is_active: true,
        bump: 255,
    }
}

#[test]
fn initialize_writes_a_fresh_active_campaign() {
    let creator = AccountId::from_u64(9);
    let c = initialize_campaign(creator, 7, 2500, 3600, 1000, 251);
    assert_eq!(c.creator, creator);
    assert_eq!(c.id, 7);
    assert_eq!(c.goal_amount, 2500);
    assert_eq!(c.end_time, 4600);
    assert_eq!(c.total_funded, 0);
    assert!(c.is_active);
    assert_eq!(c.bump, 251);
}

#[test]
fn initialize_accepts_a_negative_duration() {
    let c = initialize_campaign(AccountId::from_u64(9), 7, 2500, -50, 1000, 251);
    assert_eq!(c.end_time, 950);
}

#[test]
fn donate_writes_the_donation_record_and_instruction() {
    let campaign = sample_campaign();
    let donor = AccountId::from_u64(2);
    let campaign_address = AccountId::from_u64(100);
    let (c2, d, t) = donate(
        &campaign,
        campaign_address,
        donor,
        AccountId::from_u64(103),
        AccountId::from_u64(101),
        400,
        99,
        false,
        254,
    )
    .unwrap();
    assert_eq!(c2.total_funded, 400);
    assert!(c2.is_active);
    assert_eq!(c2.end_time, 100);
    assert_eq!(d.donor, donor);
    assert_eq!(d.campaign, campaign_address);
    assert_eq!(d.amount, 400);
    assert!(!d.refunded);
    assert_eq!(d.bump, 254);
    assert_eq!(t.from, AccountId::from_u64(103));
    assert_eq!(t.to, AccountId::from_u64(101));
    assert_eq!(t.amount, 400);
    assert_eq!(t.authority, TransferAuthority::Signer(donor));
}

#[test]
fn donate_rejects_an_inactive_campaign_whatever_the_time() {
    let mut campaign = sample_campaign();
    campaign.is_active = false;
    // Well before the deadline: the inactive guard fires first.
    let err = donate(
        &campaign,
        AccountId::from_u64(100),
        AccountId::from_u64(2),
        AccountId::from_u64(103),
        AccountId::from_u64(101),
        400,
        5,
        false,
        254,
    )
    .unwrap_err();
    assert_eq!(err, ErrorCode::CampaignInactive);
}

#[test]
fn donate_rejects_at_the_deadline_instant() {
    let campaign = sample_campaign();
    let err = donate(
        &campaign,
        AccountId::from_u64(100),
        AccountId::from_u64(2),
        AccountId::from_u64(103),
        AccountId::from_u64(101),
        400,
        100,
        false,
        254,
    )
    .unwrap_err();
    assert_eq!(err, ErrorCode::CampaignEnded);
}

#[test]
fn second_donation_rejected_regardless_of_amount() {
    let campaign = sample_campaign();
    for amount in [1u64, 400, 1_000_000] {
        let err = donate(
            &campaign,
            AccountId::from_u64(100),
            AccountId::from_u64(2),
            AccountId::from_u64(103),
            AccountId::from_u64(101),
            amount,
            50,
            true,
            254,
        )
        .unwrap_err();
        assert_eq!(err, ErrorCode::DonationAlreadyExists);
    }
}

#[test]
fn finalize_rejects_before_the_deadline() {
    let campaign = sample_campaign();
    let err = finalize_campaign(&campaign, 99, AccountId::from_u64(101), AccountId::from_u64(102))
        .unwrap_err();
    assert_eq!(err, ErrorCode::CampaignNotEnded);
}

#[test]
fn finalize_at_the_deadline_instant_succeeds() {
    let mut campaign = sample_campaign();
    campaign.total_funded = 1000;
    let (c2, payout) = finalize_campaign(
        &campaign,
        100,
        AccountId::from_u64(101),
        AccountId::from_u64(102),
    )
    .unwrap();
    assert!(!c2.is_active);
    let payout = payout.unwrap();
    assert_eq!(payout.amount, 1000);
    assert_eq!(payout.authority, TransferAuthority::CampaignAuthority(42));
}

#[test]
fn second_finalize_after_the_deadline_instructs_the_payout_again() {
    // The deadline is the only finalize guard, so a repeat call is accepted
    // and re-instructs the payout: the latent double-payout a host guards
    // against by checking `is_active` first.
    let mut campaign = sample_campaign();
    campaign.total_funded = 1000;
    let (c2, payout) = finalize_campaign(
        &campaign,
        150,
        AccountId::from_u64(101),
        AccountId::from_u64(102),
    )
    .unwrap();
    assert_eq!(payout.unwrap().amount, 1000);
    let (c3, payout) = finalize_campaign(&c2, 151, AccountId::from_u64(101), AccountId::from_u64(102))
        .unwrap();
    assert!(!c3.is_active);
    assert_eq!(payout.unwrap().amount, 1000);
}

#[test]
fn finalize_of_a_zero_goal_campaign_pays_out() {
    // A zero goal is not rejected at creation; such a campaign is trivially
    // successful, even with nothing raised.
    let c = initialize_campaign(AccountId::from_u64(1), 7, 0, 100, 0, 255);
    let (_, payout) = finalize_campaign(&c, 100, AccountId::from_u64(101), AccountId::from_u64(102))
        .unwrap();
    assert_eq!(payout.unwrap().amount, 0);
}

fn sample_donation() -> Donation {
    Donation {
        donor: AccountId::from_u64(2),
        campaign: AccountId::from_u64(100),
        amount: 300,
        refunded: false,
        bump: 254,
    }
}

#[test]
fn refund_rejects_while_the_campaign_is_active() {
    let campaign = sample_campaign();
    let donation = sample_donation();
    let err = refund(
        &campaign,
        &donation,
        AccountId::from_u64(2),
        AccountId::from_u64(101),
        AccountId::from_u64(103),
    )
    .unwrap_err();
    assert_eq!(err, ErrorCode::CampaignStillActive);
}

#[test]
fn refund_rejects_a_successful_campaign() {
    let mut campaign = sample_campaign();
    campaign.is_active = false;
    campaign.total_funded = 1000;
    let donation = sample_donation();
    let err = refund(
        &campaign,
        &donation,
        AccountId::from_u64(2),
        AccountId::from_u64(101),
        AccountId::from_u64(103),
    )
    .unwrap_err();
    assert_eq!(err, ErrorCode::CampaignSuccessful);
}

#[test]
fn refund_rejects_a_caller_who_is_not_the_donor() {
    let mut campaign = sample_campaign();
    campaign.is_active = false;
    campaign.total_funded = 300;
    let donation = sample_donation();
    let err = refund(
        &campaign,
        &donation,
        AccountId::from_u64(5),
        AccountId::from_u64(101),
        AccountId::from_u64(103),
    )
    .unwrap_err();
    assert_eq!(err, ErrorCode::InvalidDonor);
}

#[test]
fn refund_rejects_an_already_refunded_donation() {
    let mut campaign = sample_campaign();
    campaign.is_active = false;
    campaign.total_funded = 300;
    let mut donation = sample_donation();
    donation.refunded = true;
    let err = refund(
        &campaign,
        &donation,
        AccountId::from_u64(2),
        AccountId::from_u64(101),
        AccountId::from_u64(103),
    )
    .unwrap_err();
    assert_eq!(err, ErrorCode::AlreadyRefunded);
}

#[test]
fn refund_marks_the_donation_and_instructs_the_payback() {
    let mut campaign = sample_campaign();
    campaign.is_active = false;
    campaign.total_funded = 300;
    let donation = sample_donation();
    let (d2, t) = refund(
        &campaign,
        &donation,
        AccountId::from_u64(2),
        AccountId::from_u64(101),
        AccountId::from_u64(103),
    )
    .unwrap();
    assert!(d2.refunded);
    assert_eq!(d2.amount, 300);
    assert_eq!(d2.donor, AccountId::from_u64(2));
    assert_eq!(t.from, AccountId::from_u64(101));
    assert_eq!(t.to, AccountId::from_u64(103));
    assert_eq!(t.amount, 300);
    assert_eq!(t.authority, TransferAuthority::CampaignAuthority(42));
}

#[test]
fn transfer_fails_on_insufficient_balance_and_moves_nothing() {
    let mut from: u64 = 100;
    let mut to: u64 = 7;
    let err = execute_transfer(&mut from, &mut to, 101).unwrap_err();
    assert_eq!(err, ErrorCode::TransferFailed);
    assert_eq!(from, 100);
    assert_eq!(to, 7);
}

#[test]
fn transfer_moves_the_exact_amount() {
    let mut from: u64 = 100;
    let mut to: u64 = 7;
    execute_transfer(&mut from, &mut to, 100).unwrap();
    assert_eq!(from, 0);
    assert_eq!(to, 107);
}

#[test]
fn campaign_status_defaults_to_active() {
    assert_eq!(CampaignStatus::default(), CampaignStatus::Active);
}
