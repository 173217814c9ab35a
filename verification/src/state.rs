//! The durable data model: campaigns, donations, the error taxonomy, and the
//! transfer instructions the engine hands to the token-transfer collaborator.

use vstd::prelude::*;

verus! {

/// A 32-byte account identity (a ledger address or a participant's key),
/// held as four 64-bit words.
#[derive(PartialEq, Eq, Structural, Clone, Copy, Debug)]
pub struct AccountId {
    pub w0: u64,
    pub w1: u64,
    pub w2: u64,
    pub w3: u64,
}

impl AccountId {
    /// A compact identity, for hosts that key accounts by a single integer.
    pub fn from_u64(n: u64) -> (r: AccountId)
        ensures
            r == (AccountId { w0: n, w1: 0, w2: 0, w3: 0 }),
    {
        AccountId { w0: n, w1: 0, w2: 0, w3: 0 }
    }
}

/// A fundraising record: who collects on success, the funding target, the
/// deadline, the running total raised, and the active flag.
///
/// `total_funded` only ever increases, and only through a donation; once
/// `is_active` turns false it never turns true again; `end_time` is fixed at
/// creation.
#[derive(PartialEq, Eq, Structural, Clone, Copy, Debug)]
pub struct Campaign {
    /// Receives the whole escrowed balance when the goal is met.
    pub creator: AccountId,
    /// Caller-chosen identifier; the campaign's address and its signing
    /// authority both derive deterministically from it.
    pub id: u64,
    /// Funding target, in token base units.
    pub goal_amount: u64,
    /// Deadline: donations are accepted strictly before this instant.
    pub end_time: i64,
    /// Running sum of accepted donations.
    pub total_funded: u64,
    /// True from creation until the campaign is finalized.
    pub is_active: bool,
    /// Disambiguator fixing the campaign's derived address.
    pub bump: u8,
}

/// One donor's contribution to one campaign, with its own refund state.
///
/// Exactly one donation record exists per (campaign, donor) pair; `refunded`
/// moves from false to true at most once and is never reversed; `amount` is
/// fixed at creation.
#[derive(PartialEq, Eq, Structural, Clone, Copy, Debug)]
pub struct Donation {
    /// Who made this donation.
    pub donor: AccountId,
    /// Address of the owning campaign (a back-reference, not ownership).
    pub campaign: AccountId,
    /// Amount transferred in at donation time, in token base units.
    pub amount: u64,
    /// True once the refund for this donation has been paid.
    pub refunded: bool,
    /// Disambiguator fixing this donation's derived address.
    pub bump: u8,
}

/// Coarse lifecycle classification of a campaign.
#[derive(PartialEq, Eq, Structural, Clone, Copy, Debug)]
pub enum CampaignStatus {
    Active,
    Successful,
    Failed,
    Canceled,
}

impl Default for CampaignStatus {
    /// A campaign starts out active.
    fn default() -> (r: Self)
        ensures
            r == CampaignStatus::Active,
    {
        CampaignStatus::Active
    }
}

/// Why an operation was rejected. Every variant reflects a business-rule
/// violation, not a transient fault: a caller re-submits only after the
/// triggering condition has changed (for some, such as `AlreadyRefunded`,
/// it never will).
#[derive(PartialEq, Eq, Structural, Clone, Copy, Debug)]
pub enum ErrorCode {
    /// A record already exists at the derived address (duplicate campaign
    /// creation; raised by the record-store collaborator).
    AlreadyExists,
    /// No record at the derived address (raised by the record-store
    /// collaborator).
    NotFound,
    /// The campaign has been finalized and accepts no donations.
    CampaignInactive,
    /// The campaign's deadline has passed.
    CampaignEnded,
    /// The campaign's deadline has not been reached yet.
    CampaignNotEnded,
    /// The campaign has not been finalized yet, so no refunds.
    CampaignStillActive,
    /// The campaign met its goal, so no refunds.
    CampaignSuccessful,
    /// The donation record does not belong to the caller.
    InvalidDonor,
    /// This donation has already been refunded.
    AlreadyRefunded,
    /// A donation record for this (campaign, donor) pair already exists: a
    /// second donation from the same donor is rejected, never merged.
    DonationAlreadyExists,
    /// The token-transfer collaborator failed (insufficient balance or bad
    /// authorization).
    TransferFailed,
}

/// Who authorizes a token movement.
#[derive(PartialEq, Eq, Structural, Clone, Copy, Debug)]
pub enum TransferAuthority {
    /// The owner of the source holding signed the transaction directly.
    Signer(AccountId),
    /// The derived campaign authority: a signing proof computed from the
    /// campaign seed of this identifier, requiring no stored private key and
    /// scoped to exactly that campaign.
    CampaignAuthority(u64),
}

/// One instruction to the token-transfer collaborator: move `amount` from
/// the holding `from` to the holding `to`, under `authority`.
#[derive(PartialEq, Eq, Structural, Clone, Copy, Debug)]
pub struct TokenTransfer {
    pub from: AccountId,
    pub to: AccountId,
    pub amount: u64,
    pub authority: TransferAuthority,
}

} // verus!
