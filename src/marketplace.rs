//! The record store of the marketplace and its operations.
//!
//! Records are kept under their natural keys: a royalty listing under the id of
//! its asset (ids are handed out in order, so each creator and asset pair has
//! exactly one listing), the open resale listing and the payout pool beside the
//! listing they belong to, and payout claims under (asset, holder, period).

use vstd::prelude::*;
use crate::errors::RoyaltiesError;
use crate::fees::{fee_of, resale_split_ok, resale_split_spec, split_fee_ok};
use crate::state::{
    Address, CreateListingArgs, Custody, ListingStatus, PayoutClaim, PayoutPool, Payment,
    PlatformConfig, ResaleListing, RoyaltyListing, DEFAULT_SECONDARY_FEE_BPS,
    MAX_CREATOR_ROYALTY_BPS, MAX_METADATA_URI_LEN, MAX_PLATFORM_FEE_BPS,
};

verus! {

/// A royalty listing with the records that hang off it.
#[derive(Clone, Debug)]
pub struct ListingEntry {
    pub listing: RoyaltyListing,
    /// Who holds the asset's single unit.
    pub custody: Custody,
    /// The open resale listing, if any.
    pub resale: Option<ResaleListing>,
    /// The payout pool, once a first deposit has been made.
    pub pool: Option<PayoutPool>,
}

/// The whole marketplace: its configuration and every record.
#[derive(Clone, Debug)]
pub struct Marketplace {
    pub config: PlatformConfig,
    /// The listing of asset `i` is `entries[i]`.
    pub entries: Vec<ListingEntry>,
    /// Every payout claim ever made.
    pub claims: Vec<PayoutClaim>,
}

/// The abstract state of a [`Marketplace`].
pub struct MarketState {
    pub config: PlatformConfig,
    pub entries: Seq<ListingEntry>,
    pub claims: Seq<PayoutClaim>,
}

impl View for Marketplace {
    type V = MarketState;

    open spec fn view(&self) -> MarketState {
        MarketState { config: self.config, entries: self.entries@, claims: self.claims@ }
    }
}

/// Length of a string in bytes, as `str::len` reports it.
pub open spec fn byte_len(s: String) -> nat {
    (vstd::utf8::encode_utf8(s@).len() as usize) as nat
}

/// The checks that a new listing's inputs must pass.
pub open spec fn listing_terms_valid(
    percentage_bps: u16,
    price: u64,
    metadata_uri: String,
    creator_royalty_bps: u16,
) -> bool {
    &&& 1 <= percentage_bps <= 10000
    &&& price > 0
    &&& 1 <= byte_len(metadata_uri) <= MAX_METADATA_URI_LEN
    &&& creator_royalty_bps <= MAX_CREATOR_ROYALTY_BPS
}

/// The invariant of the entry of asset `id`.
pub open spec fn entry_wf(e: ListingEntry, id: int) -> bool {
    &&& e.listing.asset_id == id
    &&& listing_terms_valid(
        e.listing.percentage_bps,
        e.listing.price,
        e.listing.metadata_uri,
        e.listing.creator_royalty_bps,
    )
    &&& (e.listing.status == ListingStatus::Active || e.listing.status == ListingStatus::Sold)
    &&& (e.custody == Custody::Unissued <==> e.listing.status == ListingStatus::Active)
    &&& match e.resale {
        Some(r) => e.custody == Custody::Escrow(r.seller) && r.asset_id == id && r.price > 0,
        None => !(e.custody is Escrow),
    }
    &&& match e.pool {
        Some(p) => {
            &&& p.asset_id == id
            &&& p.creator == e.listing.creator
            &&& p.total_claimed <= p.total_deposited
            &&& p.vault_balance == p.total_deposited - p.total_claimed
        },
        None => true,
    }
}

/// Whether `claims` holds a claim by `holder` on the pool of `asset_id` in `period`.
pub open spec fn has_claim(claims: Seq<PayoutClaim>, asset_id: u64, holder: Address, period: u64) -> bool {
    exists|k: int|
        0 <= k < claims.len() && #[trigger] claims[k].asset_id == asset_id && claims[k].holder
            == holder && claims[k].period == period
}

impl MarketState {
    /// The invariant of the store.
    pub open spec fn wf(self) -> bool {
        &&& self.config.platform_fee_bps <= MAX_PLATFORM_FEE_BPS
        &&& self.config.secondary_fee_bps == DEFAULT_SECONDARY_FEE_BPS
        &&& forall|i: int| 0 <= i < self.entries.len() ==> entry_wf(#[trigger] self.entries[i], i)
        &&& forall|i: int, j: int|
            0 <= i < j < self.claims.len() ==> !(#[trigger] self.claims[i].asset_id
                == #[trigger] self.claims[j].asset_id && self.claims[i].holder
                == self.claims[j].holder && self.claims[i].period == self.claims[j].period)
    }

    /// The entry of `asset_id`, if there is one.
    pub open spec fn entry(self, asset_id: u64) -> Option<ListingEntry> {
        if asset_id < self.entries.len() {
            Some(self.entries[asset_id as int])
        } else {
            None
        }
    }

    /// This state with the entry of `asset_id` replaced by `e`.
    pub open spec fn with_entry(self, asset_id: u64, e: ListingEntry) -> MarketState {
        MarketState { entries: self.entries.update(asset_id as int, e), ..self }
    }

    /// Units of the asset `asset_id` that `custodian` holds.
    pub open spec fn units_held(self, asset_id: u64, custodian: Custody) -> nat {
        match self.entry(asset_id) {
            Some(e) => crate::state::units_held(e.custody, custodian),
            None => 0,
        }
    }
}

/// How the store may change from `s` to `t`: listings are never removed and
/// their terms never change, a sold listing stays sold, a pool's period never
/// goes back, the platform's fee total never decreases, and claims are
/// permanent.
pub open spec fn evolves(s: MarketState, t: MarketState) -> bool {
    &&& s.entries.len() <= t.entries.len()
    &&& s.config.total_fees_collected <= t.config.total_fees_collected
    &&& s.claims.len() <= t.claims.len()
    &&& forall|k: int| 0 <= k < s.claims.len() ==> #[trigger] t.claims[k] == s.claims[k]
    &&& forall|i: int|
        0 <= i < s.entries.len() ==> {
            let a = #[trigger] s.entries[i];
            let b = t.entries[i];
            &&& b.listing == RoyaltyListing { status: b.listing.status, ..a.listing }
            &&& (a.listing.status == ListingStatus::Sold ==> b.listing.status == ListingStatus::Sold)
            &&& (a.pool is Some ==> b.pool is Some && a.pool->Some_0.period <= b.pool->Some_0.period)
        }
}

/// A fresh marketplace, or why none can be made.
pub open spec fn initialize_spec(authority: Address, treasury: Address, platform_fee_bps: u16) -> Result<
    MarketState,
    RoyaltiesError,
> {
    if platform_fee_bps > MAX_PLATFORM_FEE_BPS {
        Err(RoyaltiesError::FeeTooHigh)
    } else {
        Ok(
            MarketState {
                config: PlatformConfig {
                    authority,
                    treasury,
                    platform_fee_bps,
                    secondary_fee_bps: DEFAULT_SECONDARY_FEE_BPS,
                    total_fees_collected: 0,
                },
                entries: Seq::empty(),
                claims: Seq::empty(),
            },
        )
    }
}

/// The entry of a new listing.
pub open spec fn new_entry(creator: Address, asset_id: u64, args: CreateListingArgs, now: i64) -> ListingEntry {
    ListingEntry {
        listing: RoyaltyListing {
            creator,
            asset_id,
            metadata_uri: args.metadata_uri,
            percentage_bps: args.percentage_bps,
            duration_seconds: args.duration_seconds,
            start_timestamp: now,
            price: args.price,
            resale_allowed: args.resale_allowed,
            creator_royalty_bps: args.creator_royalty_bps,
            status: ListingStatus::Active,
        },
        custody: Custody::Unissued,
        resale: None,
        pool: None,
    }
}

/// Outcome of `create_listing`: the new state and the id of the new asset.
pub open spec fn create_listing_spec(s: MarketState, creator: Address, args: CreateListingArgs, now: i64) -> Result<
    (MarketState, u64),
    RoyaltiesError,
> {
    if !(1 <= args.percentage_bps <= 10000) {
        Err(RoyaltiesError::InvalidPercentage)
    } else if args.price == 0 {
        Err(RoyaltiesError::InvalidPrice)
    } else if !(1 <= byte_len(args.metadata_uri) <= MAX_METADATA_URI_LEN) {
        Err(RoyaltiesError::InvalidMetadataUri)
    } else if args.creator_royalty_bps > MAX_CREATOR_ROYALTY_BPS {
        Err(RoyaltiesError::FeeTooHigh)
    } else if s.entries.len() >= u64::MAX {
        Err(RoyaltiesError::Overflow)
    } else {
        let id = s.entries.len() as u64;
        Ok((MarketState { entries: s.entries.push(new_entry(creator, id, args, now)), ..s }, id))
    }
}

/// Outcome of `buy_listing`: the new state and the payments the buyer makes.
pub open spec fn buy_listing_spec(s: MarketState, asset_id: u64, buyer: Address) -> Result<
    (MarketState, Seq<Payment>),
    RoyaltiesError,
> {
    match s.entry(asset_id) {
        None => Err(RoyaltiesError::NotFound),
        Some(e) => {
            let price = e.listing.price;
            let fee_bps = s.config.platform_fee_bps;
            if e.listing.status != ListingStatus::Active {
                Err(RoyaltiesError::ListingNotActive)
            } else if !split_fee_ok(price, fee_bps) {
                Err(RoyaltiesError::Overflow)
            } else {
                let fee = fee_of(price as int, fee_bps as int);
                let creator_amount = price - fee;
                let total = s.config.total_fees_collected + fee;
                if total > u64::MAX {
                    Err(RoyaltiesError::Overflow)
                } else {
                    let sold = ListingEntry {
                        listing: RoyaltyListing { status: ListingStatus::Sold, ..e.listing },
                        custody: Custody::Wallet(buyer),
                        ..e
                    };
                    let config = PlatformConfig { total_fees_collected: total as u64, ..s.config };
                    Ok(
                        (
                            MarketState { config, ..s.with_entry(asset_id, sold) },
                            seq![
                                Payment { from: buyer, to: e.listing.creator, amount: creator_amount as u64 },
                                Payment { from: buyer, to: s.config.treasury, amount: fee as u64 },
                            ],
                        ),
                    )
                }
            }
        },
    }
}

/// Outcome of `list_for_resale`.
pub open spec fn list_for_resale_spec(
    s: MarketState,
    asset_id: u64,
    seller: Address,
    price: u64,
    now: i64,
) -> Result<MarketState, RoyaltiesError> {
    match s.entry(asset_id) {
        None => Err(RoyaltiesError::NotFound),
        Some(e) => {
            if e.listing.status != ListingStatus::Sold {
                Err(RoyaltiesError::ListingNotActive)
            } else if !e.listing.resale_allowed {
                Err(RoyaltiesError::ResaleNotAllowed)
            } else if e.custody != Custody::Wallet(seller) {
                Err(RoyaltiesError::NotOwner)
            } else if price == 0 {
                Err(RoyaltiesError::InvalidPrice)
            } else {
                let listed = ListingEntry {
                    custody: Custody::Escrow(seller),
                    resale: Some(ResaleListing { seller, asset_id, price, listed_at: now }),
                    ..e
                };
                Ok(s.with_entry(asset_id, listed))
            }
        },
    }
}

/// The payments of a resale: the seller's amount, the platform fee, and the
/// creator royalty when it is not zero.
pub open spec fn resale_payments(
    buyer: Address,
    seller: Address,
    treasury: Address,
    creator: Address,
    platform_fee: u64,
    creator_royalty: u64,
    seller_amount: u64,
) -> Seq<Payment> {
    let base = seq![
        Payment { from: buyer, to: seller, amount: seller_amount },
        Payment { from: buyer, to: treasury, amount: platform_fee },
    ];
    if creator_royalty > 0 {
        base.push(Payment { from: buyer, to: creator, amount: creator_royalty })
    } else {
        base
    }
}

/// Outcome of `buy_resale`: the new state and the payments the buyer makes.
pub open spec fn buy_resale_spec(s: MarketState, asset_id: u64, seller: Address, buyer: Address) -> Result<
    (MarketState, Seq<Payment>),
    RoyaltiesError,
> {
    match s.entry(asset_id) {
        None => Err(RoyaltiesError::NotFound),
        Some(e) => match e.resale {
            None => Err(RoyaltiesError::NotFound),
            Some(r) => {
                let sec = s.config.secondary_fee_bps;
                let roy = e.listing.creator_royalty_bps;
                if r.seller != seller {
                    Err(RoyaltiesError::NotFound)
                } else if !resale_split_ok(r.price, sec, roy) {
                    Err(RoyaltiesError::Overflow)
                } else {
                    let split = resale_split_spec(r.price, sec, roy);
                    let total = s.config.total_fees_collected + split.platform_fee;
                    if total > u64::MAX {
                        Err(RoyaltiesError::Overflow)
                    } else {
                        let bought = ListingEntry {
                            custody: Custody::Wallet(buyer),
                            resale: None,
                            ..e
                        };
                        let config = PlatformConfig { total_fees_collected: total as u64, ..s.config };
                        Ok(
                            (
                                MarketState { config, ..s.with_entry(asset_id, bought) },
                                resale_payments(
                                    buyer,
                                    seller,
                                    s.config.treasury,
                                    e.listing.creator,
                                    split.platform_fee,
                                    split.creator_royalty,
                                    split.seller_amount,
                                ),
                            ),
                        )
                    }
                }
            },
        },
    }
}

/// Outcome of `cancel_resale`.
pub open spec fn cancel_resale_spec(s: MarketState, asset_id: u64, caller: Address) -> Result<
    MarketState,
    RoyaltiesError,
> {
    match s.entry(asset_id) {
        None => Err(RoyaltiesError::NotFound),
        Some(e) => match e.resale {
            None => Err(RoyaltiesError::NotFound),
            Some(r) => {
                if r.seller != caller {
                    Err(RoyaltiesError::Unauthorized)
                } else {
                    let returned = ListingEntry {
                        custody: Custody::Wallet(r.seller),
                        resale: None,
                        ..e
                    };
                    Ok(s.with_entry(asset_id, returned))
                }
            },
        },
    }
}

/// The pool a listing starts with before its first deposit.
pub open spec fn empty_pool(asset_id: u64, creator: Address) -> PayoutPool {
    PayoutPool {
        asset_id,
        creator,
        total_deposited: 0,
        total_claimed: 0,
        deposited_at: 0,
        period: 0,
        vault_balance: 0,
    }
}

/// Outcome of `deposit_payout`: the new state and the pool's period after the deposit.
pub open spec fn deposit_payout_spec(
    s: MarketState,
    asset_id: u64,
    caller: Address,
    amount: u64,
    now: i64,
) -> Result<(MarketState, u64), RoyaltiesError> {
    match s.entry(asset_id) {
        None => Err(RoyaltiesError::NotFound),
        Some(e) => {
            let p = match e.pool {
                Some(p) => p,
                None => empty_pool(asset_id, e.listing.creator),
            };
            if e.listing.creator != caller {
                Err(RoyaltiesError::Unauthorized)
            } else if e.listing.status != ListingStatus::Sold {
                Err(RoyaltiesError::ListingNotActive)
            } else if amount == 0 {
                Err(RoyaltiesError::InvalidPrice)
            } else if p.total_deposited == p.total_claimed && p.period == u64::MAX {
                Err(RoyaltiesError::Overflow)
            } else {
                let base = if p.total_deposited == p.total_claimed {
                    PayoutPool { period: (p.period + 1) as u64, total_deposited: 0, total_claimed: 0, ..p }
                } else {
                    p
                };
                if base.total_deposited + amount > u64::MAX || base.vault_balance + amount > u64::MAX {
                    Err(RoyaltiesError::Overflow)
                } else {
                    let pool = PayoutPool {
                        creator: caller,
                        total_deposited: (base.total_deposited + amount) as u64,
                        vault_balance: (base.vault_balance + amount) as u64,
                        deposited_at: now,
                        ..base
                    };
                    Ok((s.with_entry(asset_id, ListingEntry { pool: Some(pool), ..e }), pool.period))
                }
            }
        },
    }
}

/// Outcome of `claim_payout`: the new state and the amount paid to the holder.
pub open spec fn claim_payout_spec(s: MarketState, asset_id: u64, holder: Address, now: i64) -> Result<
    (MarketState, u64),
    RoyaltiesError,
> {
    match s.entry(asset_id) {
        None => Err(RoyaltiesError::NotFound),
        Some(e) => match e.pool {
            None => Err(RoyaltiesError::PayoutPoolEmpty),
            Some(p) => {
                if has_claim(s.claims, asset_id, holder, p.period) {
                    Err(RoyaltiesError::AlreadyClaimed)
                } else if e.custody != Custody::Wallet(holder) {
                    Err(RoyaltiesError::NotOwner)
                } else if p.total_deposited < p.total_claimed {
                    Err(RoyaltiesError::Overflow)
                } else if p.total_deposited == p.total_claimed {
                    Err(RoyaltiesError::PayoutPoolEmpty)
                } else if p.vault_balance < p.total_deposited - p.total_claimed {
                    Err(RoyaltiesError::InsufficientFunds)
                } else {
                    let available = (p.total_deposited - p.total_claimed) as u64;
                    let pool = PayoutPool {
                        total_claimed: p.total_deposited,
                        vault_balance: (p.vault_balance - available) as u64,
                        ..p
                    };
                    let claim = PayoutClaim {
                        asset_id,
                        holder,
                        period: p.period,
                        amount_claimed: available,
                        claimed_at: now,
                    };
                    Ok(
                        (
                            MarketState {
                                claims: s.claims.push(claim),
                                ..s.with_entry(asset_id, ListingEntry { pool: Some(pool), ..e })
                            },
                            available,
                        ),
                    )
                }
            },
        },
    }
}

} // verus!
