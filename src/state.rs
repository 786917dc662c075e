//! The records of the marketplace.

use vstd::prelude::*;

verus! {

/// Most a primary-sale fee may be, in basis points (10%).
pub const MAX_PLATFORM_FEE_BPS: u16 = 1000;

/// Most a creator's resale royalty may be, in basis points (10%).
pub const MAX_CREATOR_ROYALTY_BPS: u16 = 1000;

/// The resale fee a new platform starts with, in basis points (2.5%).
pub const DEFAULT_SECONDARY_FEE_BPS: u16 = 250;

/// Longest metadata URI, in bytes.
pub const MAX_METADATA_URI_LEN: usize = 200;

/// An authenticated identity: a 32-byte public key, as two 128-bit halves.
#[derive(Clone, Copy, Debug, PartialEq, Eq, Structural)]
pub struct Address {
    pub hi: u128,
    pub lo: u128,
}

/// The platform-wide configuration, created once.
#[derive(Clone, Copy, Debug, PartialEq, Eq, Structural)]
pub struct PlatformConfig {
    /// The identity that set the platform up.
    pub authority: Address,
    /// Where platform fees are paid.
    pub treasury: Address,
    /// Fee on primary sales, in basis points (at most 1000).
    pub platform_fee_bps: u16,
    /// Fee on resales, in basis points.
    pub secondary_fee_bps: u16,
    /// Sum of every platform fee charged so far.
    pub total_fees_collected: u64,
}

/// Where a listing stands in its life cycle. `Active` is the only state a
/// listing is created in; the others are terminal.
#[derive(Clone, Copy, Debug, PartialEq, Eq, Structural)]
pub enum ListingStatus {
    /// Available for purchase.
    Active,
    /// Purchased; the asset has been issued.
    Sold,
    /// Withdrawn by the creator.
    Cancelled,
    /// Its duration has ended.
    Expired,
}

impl Default for ListingStatus {
    fn default() -> (r: ListingStatus)
        ensures
            r == ListingStatus::Active,
    {
        ListingStatus::Active
    }
}

/// The inputs of a new royalty listing.
#[derive(Clone, Debug)]
pub struct CreateListingArgs {
    /// Pointer to the off-chain contract terms (1 to 200 bytes).
    pub metadata_uri: String,
    /// Share of revenue sold, in basis points (1 to 10000).
    pub percentage_bps: u16,
    /// Duration in seconds; 0 means perpetual.
    pub duration_seconds: u64,
    /// Price of the primary sale (6 implied decimals).
    pub price: u64,
    /// Whether the asset may be resold.
    pub resale_allowed: bool,
    /// Creator's royalty on resales, in basis points (at most 1000).
    pub creator_royalty_bps: u16,
}

/// One royalty-share asset offered by its creator.
#[derive(Clone, Debug)]
pub struct RoyaltyListing {
    pub creator: Address,
    /// The unique asset that stands for this share.
    pub asset_id: u64,
    pub metadata_uri: String,
    pub percentage_bps: u16,
    pub duration_seconds: u64,
    pub start_timestamp: i64,
    pub price: u64,
    pub resale_allowed: bool,
    pub creator_royalty_bps: u16,
    pub status: ListingStatus,
}

/// An open offer to resell an asset; while it exists, the asset is in escrow.
#[derive(Clone, Copy, Debug, PartialEq, Eq, Structural)]
pub struct ResaleListing {
    pub seller: Address,
    /// The asset offered, which also names its royalty listing.
    pub asset_id: u64,
    pub price: u64,
    pub listed_at: i64,
}

/// The deposit and claim ledger of one royalty listing for its current period.
#[derive(Clone, Copy, Debug, PartialEq, Eq, Structural)]
pub struct PayoutPool {
    /// The asset whose royalty listing the pool belongs to.
    pub asset_id: u64,
    pub creator: Address,
    /// Deposited in the current period.
    pub total_deposited: u64,
    /// Claimed in the current period.
    pub total_claimed: u64,
    pub deposited_at: i64,
    /// The current period; it grows by one each time a period starts.
    pub period: u64,
    /// Funds the pool's vault holds.
    pub vault_balance: u64,
}

/// The record of one holder's claim on a pool in one period.
#[derive(Clone, Copy, Debug, PartialEq, Eq, Structural)]
pub struct PayoutClaim {
    /// The asset whose pool was claimed from.
    pub asset_id: u64,
    pub holder: Address,
    pub period: u64,
    pub amount_claimed: u64,
    pub claimed_at: i64,
}

/// Who holds the single unit of an asset.
#[derive(Clone, Copy, Debug, PartialEq, Eq, Structural)]
pub enum Custody {
    /// Not issued yet.
    Unissued,
    /// In a holder's wallet.
    Wallet(Address),
    /// In the escrow of the open resale listing of `seller`.
    Escrow(Address),
}

/// A payment that the token-transfer service is to carry out.
#[derive(Clone, Copy, Debug, PartialEq, Eq, Structural)]
pub struct Payment {
    pub from: Address,
    pub to: Address,
    pub amount: u64,
}

/// How many units of an asset a custodian holds: 1 for the custodian of the
/// unit, 0 for everyone else.
pub open spec fn units_held(custody: Custody, custodian: Custody) -> nat {
    if custody != Custody::Unissued && custody == custodian {
        1
    } else {
        0
    }
}

} // verus!
