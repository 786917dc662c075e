//! The operations of the marketplace. Each one checks everything it needs
//! before it changes anything, so that a failed operation leaves the store as
//! it was.

use vstd::prelude::*;
use crate::errors::RoyaltiesError;
use crate::fees::{resale_split, split_fee};
use crate::marketplace::{
    buy_listing_spec, buy_resale_spec, cancel_resale_spec, claim_payout_spec, create_listing_spec,
    deposit_payout_spec, entry_wf, evolves, has_claim, initialize_spec, list_for_resale_spec,
    new_entry, resale_payments, ListingEntry, MarketState, Marketplace,
};
use crate::state::{
    Address, CreateListingArgs, Custody, ListingStatus, PayoutClaim, PayoutPool, Payment,
    PlatformConfig, ResaleListing, RoyaltyListing, DEFAULT_SECONDARY_FEE_BPS,
    MAX_CREATOR_ROYALTY_BPS, MAX_METADATA_URI_LEN, MAX_PLATFORM_FEE_BPS,
};

verus! {

/// Replacing one entry by a well-formed one keeps the store well-formed.
proof fn lemma_with_entry_wf(s: MarketState, asset_id: u64, e: ListingEntry)
    requires
        s.wf(),
        asset_id < s.entries.len(),
        entry_wf(e, asset_id as int),
    ensures
        s.with_entry(asset_id, e).wf(),
{
    let t = s.with_entry(asset_id, e);
    assert forall|i: int| 0 <= i < t.entries.len() implies entry_wf(#[trigger] t.entries[i], i) by {
        if i != asset_id {
            assert(t.entries[i] == s.entries[i]);
        }
    }
}

impl Marketplace {
    /// Sets up a marketplace whose primary-sale fee is `platform_fee_bps` and
    /// whose fees are paid to `treasury`. The resale fee starts at 250 basis
    /// points. Fails with `FeeTooHigh` when the fee is above 1000 basis points.
    pub fn initialize(authority: Address, treasury: Address, platform_fee_bps: u16) -> (r: Result<
        Marketplace,
        RoyaltiesError,
    >)
        ensures
            match r {
                Ok(m) => initialize_spec(authority, treasury, platform_fee_bps) == Ok::<
                    MarketState,
                    RoyaltiesError,
                >(m@) && m@.wf(),
                Err(e) => initialize_spec(authority, treasury, platform_fee_bps) == Err::<
                    MarketState,
                    RoyaltiesError,
                >(e),
            },
    {
        if platform_fee_bps > MAX_PLATFORM_FEE_BPS {
            return Err(RoyaltiesError::FeeTooHigh);
        }
        let m = Marketplace {
            config: PlatformConfig {
                authority,
                treasury,
                platform_fee_bps,
                secondary_fee_bps: DEFAULT_SECONDARY_FEE_BPS,
                total_fees_collected: 0,
            },
            entries: Vec::new(),
            claims: Vec::new(),
        };
        proof {
            assert(m@.entries =~= Seq::<ListingEntry>::empty());
            assert(m@.claims =~= Seq::<PayoutClaim>::empty());
        }
        Ok(m)
    }

    /// Lists a new royalty share of `creator` for sale, and returns the id of
    /// the asset that stands for it. The listing starts `Active`, with its
    /// asset not issued yet.
    ///
    /// Fails with `InvalidPercentage`, `InvalidPrice`, `InvalidMetadataUri` or
    /// `FeeTooHigh` (checked in that order) when the terms are out of range.
    pub fn create_listing(&mut self, creator: Address, args: CreateListingArgs, now: i64) -> (r: Result<
        u64,
        RoyaltiesError,
    >)
        requires
            old(self)@.wf(),
        ensures
            final(self)@.wf(),
            evolves(old(self)@, final(self)@),
            match r {
                Ok(id) => create_listing_spec(old(self)@, creator, args, now) == Ok::<
                    (MarketState, u64),
                    RoyaltiesError,
                >((final(self)@, id)),
                Err(e) => create_listing_spec(old(self)@, creator, args, now) == Err::<
                    (MarketState, u64),
                    RoyaltiesError,
                >(e) && final(self)@ == old(self)@,
            },
    {
        if args.percentage_bps == 0 || args.percentage_bps > 10000 {
            return Err(RoyaltiesError::InvalidPercentage);
        }
        if args.price == 0 {
            return Err(RoyaltiesError::InvalidPrice);
        }
        let uri_len = args.metadata_uri.as_str().len();
        if uri_len == 0 || uri_len > MAX_METADATA_URI_LEN {
            return Err(RoyaltiesError::InvalidMetadataUri);
        }
        if args.creator_royalty_bps > MAX_CREATOR_ROYALTY_BPS {
            return Err(RoyaltiesError::FeeTooHigh);
        }
        let n = self.entries.len();
        if n as u64 >= u64::MAX {
            return Err(RoyaltiesError::Overflow);
        }
        let id = n as u64;
        let ghost old_s = self@;
        let ghost args_spec = args;
        let entry = ListingEntry {
            listing: RoyaltyListing {
                creator,
                asset_id: id,
                metadata_uri: args.metadata_uri,
                percentage_bps: args.percentage_bps,
                duration_seconds: args.duration_seconds,
                start_timestamp: now,
                price: args.price,
                resale_allowed: args.resale_allowed,
                creator_royalty_bps: args.creator_royalty_bps,
                status: ListingStatus::Active,
            },
            custody: Custody::Unissued,
            resale: None,
            pool: None,
        };
        self.entries.push(entry);
        proof {
            assert(entry == new_entry(creator, id, args_spec, now));
            assert(self@.entries =~= old_s.entries.push(entry));
            assert forall|i: int| 0 <= i < self@.entries.len() implies entry_wf(
                #[trigger] self@.entries[i],
                i,
            ) by {
                if i < old_s.entries.len() {
                    assert(self@.entries[i] == old_s.entries[i]);
                }
            }
        }
        Ok(id)
    }

    /// Sells the asset of an `Active` listing to `buyer` on the primary market
    /// and returns the payments the buyer makes: the price less the platform
    /// fee to the creator, and the fee to the treasury. The listing becomes
    /// `Sold`, the asset's unit goes to the buyer, and the fee is added to the
    /// platform's total.
    ///
    /// Fails with `NotFound` for an unknown asset, `ListingNotActive` when the
    /// listing is not `Active`, and `Overflow` when an amount does not fit.
    pub fn buy_listing(&mut self, asset_id: u64, buyer: Address) -> (r: Result<
        Vec<Payment>,
        RoyaltiesError,
    >)
        requires
            old(self)@.wf(),
        ensures
            final(self)@.wf(),
            evolves(old(self)@, final(self)@),
            match r {
                Ok(payments) => buy_listing_spec(old(self)@, asset_id, buyer) == Ok::<
                    (MarketState, Seq<Payment>),
                    RoyaltiesError,
                >((final(self)@, payments@)),
                Err(e) => buy_listing_spec(old(self)@, asset_id, buyer) == Err::<
                    (MarketState, Seq<Payment>),
                    RoyaltiesError,
                >(e) && final(self)@ == old(self)@,
            },
    {
        if asset_id >= self.entries.len() as u64 {
            return Err(RoyaltiesError::NotFound);
        }
        let i = asset_id as usize;
        if self.entries[i].listing.status != ListingStatus::Active {
            return Err(RoyaltiesError::ListingNotActive);
        }
        let price = self.entries[i].listing.price;
        let (fee, creator_amount) = match split_fee(price, self.config.platform_fee_bps) {
            Ok(split) => split,
            Err(e) => return Err(e),
        };
        let total = match self.config.total_fees_collected.checked_add(fee) {
            Some(t) => t,
            None => return Err(RoyaltiesError::Overflow),
        };
        let creator = self.entries[i].listing.creator;
        let treasury = self.config.treasury;
        let ghost old_s = self@;
        self.entries[i].listing.status = ListingStatus::Sold;
        self.entries[i].custody = Custody::Wallet(buyer);
        self.config.total_fees_collected = total;
        let mut payments: Vec<Payment> = Vec::new();
        payments.push(Payment { from: buyer, to: creator, amount: creator_amount });
        payments.push(Payment { from: buyer, to: treasury, amount: fee });
        proof {
            let e = old_s.entries[asset_id as int];
            let sold = ListingEntry {
                listing: RoyaltyListing { status: ListingStatus::Sold, ..e.listing },
                custody: Custody::Wallet(buyer),
                ..e
            };
            assert(self@.entries =~= old_s.entries.update(asset_id as int, sold));
            lemma_with_entry_wf(old_s, asset_id, sold);
            assert(payments@ =~= seq![
                Payment { from: buyer, to: creator, amount: creator_amount },
                Payment { from: buyer, to: treasury, amount: fee },
            ]);
        }
        Ok(payments)
    }

    /// Offers the asset of a sold listing for resale at `price`. The seller's
    /// unit moves into the escrow of the new resale listing.
    ///
    /// Fails with `NotFound` for an unknown asset, `ListingNotActive` when the
    /// listing is not `Sold`, `ResaleNotAllowed` when its terms forbid resale,
    /// `NotOwner` when `seller` does not hold the unit, and `InvalidPrice` for
    /// a price of zero.
    pub fn list_for_resale(&mut self, asset_id: u64, seller: Address, price: u64, now: i64) -> (r:
        Result<(), RoyaltiesError>)
        requires
            old(self)@.wf(),
        ensures
            final(self)@.wf(),
            evolves(old(self)@, final(self)@),
            match r {
                Ok(_) => list_for_resale_spec(old(self)@, asset_id, seller, price, now) == Ok::<
                    MarketState,
                    RoyaltiesError,
                >(final(self)@),
                Err(e) => list_for_resale_spec(old(self)@, asset_id, seller, price, now) == Err::<
                    MarketState,
                    RoyaltiesError,
                >(e) && final(self)@ == old(self)@,
            },
    {
        if asset_id >= self.entries.len() as u64 {
            return Err(RoyaltiesError::NotFound);
        }
        let i = asset_id as usize;
        if self.entries[i].listing.status != ListingStatus::Sold {
            return Err(RoyaltiesError::ListingNotActive);
        }
        if !self.entries[i].listing.resale_allowed {
            return Err(RoyaltiesError::ResaleNotAllowed);
        }
        if self.entries[i].custody != Custody::Wallet(seller) {
            return Err(RoyaltiesError::NotOwner);
        }
        if price == 0 {
            return Err(RoyaltiesError::InvalidPrice);
        }
        let ghost old_s = self@;
        self.entries[i].custody = Custody::Escrow(seller);
        self.entries[i].resale = Some(ResaleListing { seller, asset_id, price, listed_at: now });
        proof {
            let e = old_s.entries[asset_id as int];
            let listed = ListingEntry {
                custody: Custody::Escrow(seller),
                resale: Some(ResaleListing { seller, asset_id, price, listed_at: now }),
                ..e
            };
            assert(self@.entries =~= old_s.entries.update(asset_id as int, listed));
            lemma_with_entry_wf(old_s, asset_id, listed);
        }
        Ok(())
    }

    /// Buys the asset that `seller` offers for resale. Returns the payments
    /// the buyer makes: the seller's amount to the seller, the platform fee to
    /// the treasury, and the creator royalty to the creator when it is not
    /// zero. The escrowed unit goes to the buyer, the resale listing is
    /// closed, and the platform fee is added to the platform's total.
    ///
    /// Fails with `NotFound` when `seller` has no open resale listing of the
    /// asset, and with `Overflow` when an amount does not fit.
    pub fn buy_resale(&mut self, asset_id: u64, seller: Address, buyer: Address) -> (r: Result<
        Vec<Payment>,
        RoyaltiesError,
    >)
        requires
            old(self)@.wf(),
        ensures
            final(self)@.wf(),
            evolves(old(self)@, final(self)@),
            match r {
                Ok(payments) => buy_resale_spec(old(self)@, asset_id, seller, buyer) == Ok::<
                    (MarketState, Seq<Payment>),
                    RoyaltiesError,
                >((final(self)@, payments@)),
                Err(e) => buy_resale_spec(old(self)@, asset_id, seller, buyer) == Err::<
                    (MarketState, Seq<Payment>),
                    RoyaltiesError,
                >(e) && final(self)@ == old(self)@,
            },
    {
        if asset_id >= self.entries.len() as u64 {
            return Err(RoyaltiesError::NotFound);
        }
        let i = asset_id as usize;
        let resale = match self.entries[i].resale {
            Some(r) => r,
            None => return Err(RoyaltiesError::NotFound),
        };
        if resale.seller != seller {
            return Err(RoyaltiesError::NotFound);
        }
        let split = match resale_split(
            resale.price,
            self.config.secondary_fee_bps,
            self.entries[i].listing.creator_royalty_bps,
        ) {
            Ok(s) => s,
            Err(e) => return Err(e),
        };
        let total = match self.config.total_fees_collected.checked_add(split.platform_fee) {
            Some(t) => t,
            None => return Err(RoyaltiesError::Overflow),
        };
        let creator = self.entries[i].listing.creator;
        let treasury = self.config.treasury;
        let ghost old_s = self@;
        self.entries[i].custody = Custody::Wallet(buyer);
        self.entries[i].resale = None;
        self.config.total_fees_collected = total;
        let mut payments: Vec<Payment> = Vec::new();
        payments.push(Payment { from: buyer, to: seller, amount: split.seller_amount });
        payments.push(Payment { from: buyer, to: treasury, amount: split.platform_fee });
        if split.creator_royalty > 0 {
            payments.push(Payment { from: buyer, to: creator, amount: split.creator_royalty });
        }
        proof {
            let e = old_s.entries[asset_id as int];
            let bought = ListingEntry { custody: Custody::Wallet(buyer), resale: None, ..e };
            assert(self@.entries =~= old_s.entries.update(asset_id as int, bought));
            lemma_with_entry_wf(old_s, asset_id, bought);
            assert(payments@ =~= resale_payments(
                buyer,
                seller,
                treasury,
                creator,
                split.platform_fee,
                split.creator_royalty,
                split.seller_amount,
            ));
        }
        Ok(payments)
    }

    /// Withdraws the resale offer of `caller`: the escrowed unit goes back to
    /// the seller and the resale listing is closed. No funds move.
    ///
    /// Fails with `NotFound` when the asset has no open resale listing, and
    /// with `Unauthorized` when `caller` is not its seller.
    pub fn cancel_resale(&mut self, asset_id: u64, caller: Address) -> (r: Result<(), RoyaltiesError>)
        requires
            old(self)@.wf(),
        ensures
            final(self)@.wf(),
            evolves(old(self)@, final(self)@),
            match r {
                Ok(_) => cancel_resale_spec(old(self)@, asset_id, caller) == Ok::<
                    MarketState,
                    RoyaltiesError,
                >(final(self)@),
                Err(e) => cancel_resale_spec(old(self)@, asset_id, caller) == Err::<
                    MarketState,
                    RoyaltiesError,
                >(e) && final(self)@ == old(self)@,
            },
    {
        if asset_id >= self.entries.len() as u64 {
            return Err(RoyaltiesError::NotFound);
        }
        let i = asset_id as usize;
        let resale = match self.entries[i].resale {
            Some(r) => r,
            None => return Err(RoyaltiesError::NotFound),
        };
        if resale.seller != caller {
            return Err(RoyaltiesError::Unauthorized);
        }
        let ghost old_s = self@;
        self.entries[i].custody = Custody::Wallet(resale.seller);
        self.entries[i].resale = None;
        proof {
            let e = old_s.entries[asset_id as int];
            let returned = ListingEntry { custody: Custody::Wallet(resale.seller), resale: None, ..e };
            assert(self@.entries =~= old_s.entries.update(asset_id as int, returned));
            lemma_with_entry_wf(old_s, asset_id, returned);
        }
        Ok(())
    }

    /// Deposits `amount` by the creator into the payout pool of a sold
    /// listing, and returns the pool's period. When everything deposited so
    /// far has been claimed (or nothing has been deposited yet), the deposit
    /// starts a new period: the period grows by one and the deposited and
    /// claimed totals start again from zero.
    ///
    /// Fails with `NotFound` for an unknown asset, `Unauthorized` when
    /// `caller` is not the creator, `ListingNotActive` when the listing is not
    /// `Sold`, `InvalidPrice` for an amount of zero, and `Overflow` when a
    /// total or the period does not fit.
    pub fn deposit_payout(&mut self, asset_id: u64, caller: Address, amount: u64, now: i64) -> (r:
        Result<u64, RoyaltiesError>)
        requires
            old(self)@.wf(),
        ensures
            final(self)@.wf(),
            evolves(old(self)@, final(self)@),
            match r {
                Ok(period) => deposit_payout_spec(old(self)@, asset_id, caller, amount, now) == Ok::<
                    (MarketState, u64),
                    RoyaltiesError,
                >((final(self)@, period)),
                Err(e) => deposit_payout_spec(old(self)@, asset_id, caller, amount, now) == Err::<
                    (MarketState, u64),
                    RoyaltiesError,
                >(e) && final(self)@ == old(self)@,
            },
    {
        if asset_id >= self.entries.len() as u64 {
            return Err(RoyaltiesError::NotFound);
        }
        let i = asset_id as usize;
        let creator = self.entries[i].listing.creator;
        if creator != caller {
            return Err(RoyaltiesError::Unauthorized);
        }
        if self.entries[i].listing.status != ListingStatus::Sold {
            return Err(RoyaltiesError::ListingNotActive);
        }
        if amount == 0 {
            return Err(RoyaltiesError::InvalidPrice);
        }
        let mut pool = match self.entries[i].pool {
            Some(p) => p,
            None => PayoutPool {
                asset_id,
                creator,
                total_deposited: 0,
                total_claimed: 0,
                deposited_at: 0,
                period: 0,
                vault_balance: 0,
            },
        };
        if pool.total_deposited == pool.total_claimed {
            pool.period = match pool.period.checked_add(1) {
                Some(p) => p,
                None => return Err(RoyaltiesError::Overflow),
            };
            pool.total_deposited = 0;
            pool.total_claimed = 0;
        }
        pool.total_deposited = match pool.total_deposited.checked_add(amount) {
            Some(t) => t,
            None => return Err(RoyaltiesError::Overflow),
        };
        pool.vault_balance = match pool.vault_balance.checked_add(amount) {
            Some(v) => v,
            None => return Err(RoyaltiesError::Overflow),
        };
        pool.creator = caller;
        pool.deposited_at = now;
        let ghost old_s = self@;
        self.entries[i].pool = Some(pool);
        proof {
            let e = old_s.entries[asset_id as int];
            let deposited = ListingEntry { pool: Some(pool), ..e };
            assert(self@.entries =~= old_s.entries.update(asset_id as int, deposited));
            lemma_with_entry_wf(old_s, asset_id, deposited);
        }
        Ok(pool.period)
    }

    /// Whether `holder` has claimed from the pool of `asset_id` in `period`.
    pub fn has_claimed(&self, asset_id: u64, holder: Address, period: u64) -> (r: bool)
        ensures
            r == has_claim(self@.claims, asset_id, holder, period),
    {
        let mut k: usize = 0;
        while k < self.claims.len()
            invariant
                k <= self.claims@.len(),
                forall|j: int|
                    0 <= j < k ==> !(#[trigger] self.claims@[j].asset_id == asset_id
                        && self.claims@[j].holder == holder && self.claims@[j].period == period),
            decreases self.claims@.len() - k,
        {
            let c = self.claims[k];
            if c.asset_id == asset_id && c.holder == holder && c.period == period {
                return true;
            }
            k = k + 1;
        }
        false
    }

    /// Pays the holder of an asset everything left in its payout pool for the
    /// current period, records the claim under (asset, holder, period), and
    /// returns the amount paid.
    ///
    /// The whole remaining balance goes to the one claimant: each asset has a
    /// single unit, so it has a single holder.
    ///
    /// Fails with `NotFound` for an unknown asset, `PayoutPoolEmpty` when
    /// nothing was ever deposited, `AlreadyClaimed` when `holder` has claimed
    /// in the current period, `NotOwner` when `holder` does not hold the unit,
    /// and `PayoutPoolEmpty` when nothing is left to claim.
    pub fn claim_payout(&mut self, asset_id: u64, holder: Address, now: i64) -> (r: Result<
        u64,
        RoyaltiesError,
    >)
        requires
            old(self)@.wf(),
        ensures
            final(self)@.wf(),
            evolves(old(self)@, final(self)@),
            match r {
                Ok(amount) => claim_payout_spec(old(self)@, asset_id, holder, now) == Ok::<
                    (MarketState, u64),
                    RoyaltiesError,
                >((final(self)@, amount)),
                Err(e) => claim_payout_spec(old(self)@, asset_id, holder, now) == Err::<
                    (MarketState, u64),
                    RoyaltiesError,
                >(e) && final(self)@ == old(self)@,
            },
    {
        if asset_id >= self.entries.len() as u64 {
            return Err(RoyaltiesError::NotFound);
        }
        let i = asset_id as usize;
        let mut pool = match self.entries[i].pool {
            Some(p) => p,
            None => return Err(RoyaltiesError::PayoutPoolEmpty),
        };
        if self.has_claimed(asset_id, holder, pool.period) {
            return Err(RoyaltiesError::AlreadyClaimed);
        }
        if self.entries[i].custody != Custody::Wallet(holder) {
            return Err(RoyaltiesError::NotOwner);
        }
        let available = match pool.total_deposited.checked_sub(pool.total_claimed) {
            Some(a) => a,
            None => return Err(RoyaltiesError::Overflow),
        };
        if available == 0 {
            return Err(RoyaltiesError::PayoutPoolEmpty);
        }
        if pool.vault_balance < available {
            return Err(RoyaltiesError::InsufficientFunds);
        }
        let claim = PayoutClaim {
            asset_id,
            holder,
            period: pool.period,
            amount_claimed: available,
            claimed_at: now,
        };
        pool.total_claimed = pool.total_deposited;
        pool.vault_balance = pool.vault_balance - available;
        let ghost old_s = self@;
        self.entries[i].pool = Some(pool);
        self.claims.push(claim);
        proof {
            let e = old_s.entries[asset_id as int];
            let claimed = ListingEntry { pool: Some(pool), ..e };
            assert(self@.entries =~= old_s.entries.update(asset_id as int, claimed));
            assert(self@.claims =~= old_s.claims.push(claim));
            lemma_with_entry_wf(old_s, asset_id, claimed);
            assert forall|a: int, b: int| 0 <= a < b < self@.claims.len() implies !(
            #[trigger] self@.claims[a].asset_id == #[trigger] self@.claims[b].asset_id
                && self@.claims[a].holder == self@.claims[b].holder && self@.claims[a].period
                == self@.claims[b].period) by {
                if b == old_s.claims.len() {
                    assert(self@.claims[a] == old_s.claims[a]);
                } else {
                    assert(self@.claims[a] == old_s.claims[a]);
                    assert(self@.claims[b] == old_s.claims[b]);
                }
            }
        }
        Ok(available)
    }

    /// The platform configuration.
    pub fn config(&self) -> (r: PlatformConfig)
        ensures
            r == self@.config,
    {
        self.config
    }

    /// How many listings have been created; their assets have ids `0..n`.
    pub fn listing_count(&self) -> (r: usize)
        ensures
            r == self@.entries.len(),
    {
        self.entries.len()
    }

    /// The royalty listing of `asset_id`, if it exists.
    pub fn listing(&self, asset_id: u64) -> (r: Option<&RoyaltyListing>)
        ensures
            match self@.entry(asset_id) {
                Some(e) => r == Some(&e.listing),
                None => r is None,
            },
    {
        if asset_id >= self.entries.len() as u64 {
            return None;
        }
        Some(&self.entries[asset_id as usize].listing)
    }

    /// The open resale listing of `asset_id`, if there is one.
    pub fn resale_listing(&self, asset_id: u64) -> (r: Option<ResaleListing>)
        ensures
            match self@.entry(asset_id) {
                Some(e) => r == e.resale,
                None => r is None,
            },
    {
        if asset_id >= self.entries.len() as u64 {
            return None;
        }
        self.entries[asset_id as usize].resale
    }

    /// The payout pool of `asset_id`, if a deposit has been made.
    pub fn payout_pool(&self, asset_id: u64) -> (r: Option<PayoutPool>)
        ensures
            match self@.entry(asset_id) {
                Some(e) => r == e.pool,
                None => r is None,
            },
    {
        if asset_id >= self.entries.len() as u64 {
            return None;
        }
        self.entries[asset_id as usize].pool
    }

    /// Units of the asset `asset_id` that `custodian` holds: 1 or 0.
    pub fn units_held(&self, asset_id: u64, custodian: Custody) -> (r: u64)
        ensures
            r == self@.units_held(asset_id, custodian),
    {
        if asset_id >= self.entries.len() as u64 {
            return 0;
        }
        let custody = self.entries[asset_id as usize].custody;
        if custody != Custody::Unissued && custody == custodian {
            1
        } else {
            0
        }
    }
}

} // verus!
