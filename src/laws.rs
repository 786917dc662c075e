//! Facts about sequences of operations, proved over their outcomes.

use vstd::prelude::*;
use crate::errors::RoyaltiesError;
use crate::fees::{fee_of, lemma_fee_at_most_total};
use crate::marketplace::{
    buy_listing_spec, cancel_resale_spec, claim_payout_spec, deposit_payout_spec, entry_wf,
    has_claim, list_for_resale_spec, MarketState,
};
use crate::state::{Address, Custody, ListingStatus, Payment};

verus! {

/// Of two purchases of the same `Active` listing, exactly one succeeds. The
/// first leaves the listing `Sold` with the unit in the first buyer's wallet,
/// and pays the creator the price less the platform fee, once; the second
/// then fails with `ListingNotActive`. (The first purchase goes through when
/// its amounts fit in 64 bits.)
pub proof fn lemma_single_active_sale(s: MarketState, asset_id: u64, first: Address, second: Address)
    requires
        s.wf(),
        asset_id < s.entries.len(),
        s.entries[asset_id as int].listing.status == ListingStatus::Active,
        s.entries[asset_id as int].listing.price * s.config.platform_fee_bps <= u64::MAX,
        s.config.total_fees_collected + fee_of(
            s.entries[asset_id as int].listing.price as int,
            s.config.platform_fee_bps as int,
        ) <= u64::MAX,
    ensures
        buy_listing_spec(s, asset_id, first) is Ok,
        ({
            let (s1, payments) = buy_listing_spec(s, asset_id, first)->Ok_0;
            let e = s.entries[asset_id as int];
            let fee = fee_of(e.listing.price as int, s.config.platform_fee_bps as int);
            &&& s1.entries[asset_id as int].listing.status == ListingStatus::Sold
            &&& s1.units_held(asset_id, Custody::Wallet(first)) == 1
            &&& payments == seq![
                Payment { from: first, to: e.listing.creator, amount: (e.listing.price - fee) as u64 },
                Payment { from: first, to: s.config.treasury, amount: fee as u64 },
            ]
            &&& buy_listing_spec(s1, asset_id, second) == Err::<(MarketState, Seq<Payment>), RoyaltiesError>(
                RoyaltiesError::ListingNotActive,
            )
        }),
{
    let e = s.entries[asset_id as int];
    lemma_fee_at_most_total(e.listing.price as int, s.config.platform_fee_bps as int);
}

/// In every well-formed state the escrow of `seller` holds the unit of an
/// asset exactly when `seller` has an open resale listing of it: closing the
/// record and releasing the escrow never come apart.
pub proof fn lemma_escrow_matches_resale(s: MarketState, asset_id: u64, seller: Address)
    requires
        s.wf(),
        asset_id < s.entries.len(),
    ensures
        s.units_held(asset_id, Custody::Escrow(seller)) == 1 <==> ({
            let r = s.entries[asset_id as int].resale;
            r is Some && r->Some_0.seller == seller
        }),
{
    assert(entry_wf(s.entries[asset_id as int], asset_id as int));
}

/// Listing for resale moves the seller's unit into escrow: afterwards the
/// seller holds 0 and the escrow 1. Cancelling then gives it back: the seller
/// holds 1, the escrow 0, and the resale listing no longer exists.
pub proof fn lemma_escrow_atomicity(s: MarketState, asset_id: u64, seller: Address, price: u64, now: i64)
    requires
        s.wf(),
        list_for_resale_spec(s, asset_id, seller, price, now) is Ok,
    ensures
        s.units_held(asset_id, Custody::Wallet(seller)) == 1,
        s.units_held(asset_id, Custody::Escrow(seller)) == 0,
        ({
            let s1 = list_for_resale_spec(s, asset_id, seller, price, now)->Ok_0;
            &&& s1.units_held(asset_id, Custody::Wallet(seller)) == 0
            &&& s1.units_held(asset_id, Custody::Escrow(seller)) == 1
            &&& s1.entries[asset_id as int].resale is Some
            &&& cancel_resale_spec(s1, asset_id, seller) is Ok
            &&& ({
                let s2 = cancel_resale_spec(s1, asset_id, seller)->Ok_0;
                &&& s2.units_held(asset_id, Custody::Wallet(seller)) == 1
                &&& s2.units_held(asset_id, Custody::Escrow(seller)) == 0
                &&& s2.entries[asset_id as int].resale is None
            })
        }),
{
}

/// A deposit into a pool whose deposits have all been claimed starts a new
/// period: the period grows by one, the deposited total becomes the amount
/// and the claimed total zero.
pub proof fn lemma_payout_period_rollover(s: MarketState, asset_id: u64, creator: Address, amount: u64, now: i64)
    requires
        s.wf(),
        asset_id < s.entries.len(),
        s.entries[asset_id as int].listing.creator == creator,
        s.entries[asset_id as int].listing.status == ListingStatus::Sold,
        s.entries[asset_id as int].pool is Some,
        s.entries[asset_id as int].pool->Some_0.total_deposited
            == s.entries[asset_id as int].pool->Some_0.total_claimed,
        s.entries[asset_id as int].pool->Some_0.period < u64::MAX,
        amount > 0,
    ensures
        deposit_payout_spec(s, asset_id, creator, amount, now) is Ok,
        ({
            let p = s.entries[asset_id as int].pool->Some_0;
            let (s1, period) = deposit_payout_spec(s, asset_id, creator, amount, now)->Ok_0;
            let q = s1.entries[asset_id as int].pool->Some_0;
            &&& s1.entries[asset_id as int].pool is Some
            &&& period == p.period + 1
            &&& q.period == p.period + 1
            &&& q.total_deposited == amount
            &&& q.total_claimed == 0
        }),
{
}

/// A holder who has claimed in the pool's current period cannot claim again
/// in it: the claim fails with `AlreadyClaimed` (and a failed operation
/// changes nothing, the vault included).
pub proof fn lemma_claim_uniqueness(s: MarketState, asset_id: u64, holder: Address, now: i64)
    requires
        s.wf(),
        asset_id < s.entries.len(),
        s.entries[asset_id as int].pool is Some,
        has_claim(s.claims, asset_id, holder, s.entries[asset_id as int].pool->Some_0.period),
    ensures
        claim_payout_spec(s, asset_id, holder, now) == Err::<(MarketState, u64), RoyaltiesError>(
            RoyaltiesError::AlreadyClaimed,
        ),
{
}

/// After a successful claim, a second claim by the same holder fails with
/// `AlreadyClaimed`.
pub proof fn lemma_second_claim_rejected(s: MarketState, asset_id: u64, holder: Address, now: i64, later: i64)
    requires
        s.wf(),
        claim_payout_spec(s, asset_id, holder, now) is Ok,
    ensures
        claim_payout_spec(claim_payout_spec(s, asset_id, holder, now)->Ok_0.0, asset_id, holder, later)
            == Err::<(MarketState, u64), RoyaltiesError>(RoyaltiesError::AlreadyClaimed),
{
    let (s1, amount) = claim_payout_spec(s, asset_id, holder, now)->Ok_0;
    let k = s.claims.len() as int;
    assert(s1.claims[k].asset_id == asset_id);
}

} // verus!
