//! The in-memory store: lookup by formula, the store-raised errors, and a
//! full campaign lifecycle with holdings settled through the returned
//! instructions.

use crowdfunding_escrow::engine::execute_transfer;
use crowdfunding_escrow::registry::{campaign_address, Registry};
use crowdfunding_escrow::state::{AccountId, ErrorCode};

#[test]
fn duplicate_campaign_creation_fails_with_already_exists() {
    let mut store = Registry::new();
    store
        .initialize_campaign(AccountId::from_u64(1), 42, 1000, 100, 0, 255)
        .unwrap();
    let err = store
        .initialize_campaign(AccountId::from_u64(9), 42, 5, 10, 0, 255)
        .unwrap_err();
    assert_eq!(err, ErrorCode::AlreadyExists);
    // A different identifier is a different address: creation succeeds.
    store
        .initialize_campaign(AccountId::from_u64(9), 43, 5, 10, 0, 255)
        .unwrap();
}

#[test]
fn operations_on_a_missing_campaign_fail_with_not_found() {
    let mut store = Registry::new();
    let donor = AccountId::from_u64(2);
    let err = store
        .donate(42, donor, AccountId::from_u64(103), AccountId::from_u64(101), 10, 0, 254)
        .unwrap_err();
    assert_eq!(err, ErrorCode::NotFound);
    let err = store
        .finalize_campaign(42, 0, AccountId::from_u64(101), AccountId::from_u64(102))
        .unwrap_err();
    assert_eq!(err, ErrorCode::NotFound);
    let err = store
        .refund(42, donor, AccountId::from_u64(101), AccountId::from_u64(103))
        .unwrap_err();
    assert_eq!(err, ErrorCode::NotFound);
}

#[test]
fn refund_without_a_donation_record_fails_with_not_found() {
    let mut store = Registry::new();
    store
        .initialize_campaign(AccountId::from_u64(1), 42, 1000, 100, 0, 255)
        .unwrap();
    store
        .finalize_campaign(42, 150, AccountId::from_u64(101), AccountId::from_u64(102))
        .unwrap();
    let err = store
        .refund(42, AccountId::from_u64(2), AccountId::from_u64(101), AccountId::from_u64(103))
        .unwrap_err();
    assert_eq!(err, ErrorCode::NotFound);
}

#[test]
fn the_store_itself_rejects_a_second_donation() {
    let mut store = Registry::new();
    let donor = AccountId::from_u64(2);
    store
        .initialize_campaign(AccountId::from_u64(1), 42, 1000, 100, 0, 255)
        .unwrap();
    store
        .donate(42, donor, AccountId::from_u64(103), AccountId::from_u64(101), 400, 10, 254)
        .unwrap();
    // No flag is handed in anywhere: the committed record answers the check.
    let err = store
        .donate(42, donor, AccountId::from_u64(103), AccountId::from_u64(101), 1, 20, 254)
        .unwrap_err();
    assert_eq!(err, ErrorCode::DonationAlreadyExists);
    // Another donor's record lives at another derived address.
    store
        .donate(
            42,
            AccountId::from_u64(3),
            AccountId::from_u64(104),
            AccountId::from_u64(101),
            700,
            20,
            253,
        )
        .unwrap();
    assert_eq!(store.get_campaign(42).unwrap().total_funded, 1100);
}

#[test]
fn failed_campaign_lifecycle_through_the_store() {
    let mut store = Registry::new();
    let creator = AccountId::from_u64(1);
    let donor = AccountId::from_u64(2);
    let campaign_token = AccountId::from_u64(101);
    let creator_token = AccountId::from_u64(102);
    let donor_token = AccountId::from_u64(103);
    let mut donor_balance: u64 = 500;
    let mut escrow_balance: u64 = 0;

    store.initialize_campaign(creator, 42, 1000, 100, 0, 255).unwrap();
    let t = store.donate(42, donor, donor_token, campaign_token, 300, 10, 254).unwrap();
    execute_transfer(&mut donor_balance, &mut escrow_balance, t.amount).unwrap();
    assert_eq!(donor_balance, 200);

    let payout = store
        .finalize_campaign(42, 150, campaign_token, creator_token)
        .unwrap();
    assert!(payout.is_none());
    assert!(!store.get_campaign(42).unwrap().is_active);

    // Donations after finalization are rejected on the active flag.
    let err = store
        .donate(42, AccountId::from_u64(3), AccountId::from_u64(104), campaign_token, 5, 160, 253)
        .unwrap_err();
    assert_eq!(err, ErrorCode::CampaignInactive);

    let t = store.refund(42, donor, campaign_token, donor_token).unwrap();
    assert_eq!(t.amount, 300);
    execute_transfer(&mut escrow_balance, &mut donor_balance, t.amount).unwrap();
    assert_eq!(donor_balance, 500);
    assert_eq!(escrow_balance, 0);
    assert!(store.get_donation(42, donor).unwrap().refunded);

    let err = store.refund(42, donor, campaign_token, donor_token).unwrap_err();
    assert_eq!(err, ErrorCode::AlreadyRefunded);
}

#[test]
fn campaign_addresses_embed_the_tag_and_identifier() {
    let a = campaign_address(7);
    assert_eq!(a.w0, u64::from_le_bytes(*b"campaign"));
    assert_eq!(a.w1, 7);
    assert_eq!(a.w2, 0);
    assert_eq!(a.w3, 0);
    assert_ne!(campaign_address(7), campaign_address(8));
}
