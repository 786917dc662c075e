use royalties::{
    Address, CreateListingArgs, Custody, ListingStatus, Marketplace, Payment, RoyaltiesError,
};

fn addr(n: u128) -> Address {
    Address { hi: 0, lo: n }
}

const AUTHORITY: u128 = 1;
const TREASURY: u128 = 2;
const CREATOR: u128 = 3;
const BUYER: u128 = 4;
const SECOND_BUYER: u128 = 5;
const THIRD: u128 = 6;

fn args(price: u64, percentage_bps: u16, creator_royalty_bps: u16, resale_allowed: bool) -> CreateListingArgs {
    CreateListingArgs {
        metadata_uri: "ipfs://terms".to_string(),
        percentage_bps,
        duration_seconds: 0,
        price,
        resale_allowed,
        creator_royalty_bps,
    }
}

fn market() -> Marketplace {
    Marketplace::initialize(addr(AUTHORITY), addr(TREASURY), 500).unwrap()
}

/// A market with one listing (asset 0) bought by BUYER.
fn sold_market(creator_royalty_bps: u16, resale_allowed: bool) -> Marketplace {
    let mut m = market();
    let id = m
        .create_listing(addr(CREATOR), args(1_000_000, 500, creator_royalty_bps, resale_allowed), 10)
        .unwrap();
    assert_eq!(id, 0);
    m.buy_listing(0, addr(BUYER)).unwrap();
    m
}

#[test]
fn initialize_sets_defaults() {
    let m = market();
    let c = m.config();
    assert_eq!(c.authority, addr(AUTHORITY));
    assert_eq!(c.treasury, addr(TREASURY));
    assert_eq!(c.platform_fee_bps, 500);
    assert_eq!(c.secondary_fee_bps, 250);
    assert_eq!(c.total_fees_collected, 0);
    assert_eq!(m.listing_count(), 0);
}

#[test]
fn initialize_fee_too_high() {
    assert!(Marketplace::initialize(addr(1), addr(2), 1_000).is_ok());
    assert_eq!(
        Marketplace::initialize(addr(1), addr(2), 1_001).unwrap_err(),
        RoyaltiesError::FeeTooHigh
    );
}

#[test]
fn create_listing_records_terms() {
    let mut m = market();
    let id = m.create_listing(addr(CREATOR), args(1_000_000, 500, 250, true), 42).unwrap();
    let id2 = m.create_listing(addr(CREATOR), args(7, 10_000, 0, false), 43).unwrap();
    assert_eq!((id, id2), (0, 1));
    let l = m.listing(0).unwrap();
    assert_eq!(l.creator, addr(CREATOR));
    assert_eq!(l.asset_id, 0);
    assert_eq!(l.metadata_uri, "ipfs://terms");
    assert_eq!(l.percentage_bps, 500);
    assert_eq!(l.start_timestamp, 42);
    assert_eq!(l.price, 1_000_000);
    assert!(l.resale_allowed);
    assert_eq!(l.creator_royalty_bps, 250);
    assert_eq!(l.status, ListingStatus::Active);
    assert_eq!(m.units_held(0, Custody::Unissued), 0);
    assert!(m.listing(2).is_none());
}

#[test]
fn create_listing_invalid_percentage() {
    let mut m = market();
    assert_eq!(
        m.create_listing(addr(CREATOR), args(1, 0, 0, true), 0),
        Err(RoyaltiesError::InvalidPercentage)
    );
    assert_eq!(
        m.create_listing(addr(CREATOR), args(1, 10_001, 0, true), 0),
        Err(RoyaltiesError::InvalidPercentage)
    );
    assert_eq!(m.listing_count(), 0);
}

#[test]
fn create_listing_invalid_price() {
    let mut m = market();
    assert_eq!(
        m.create_listing(addr(CREATOR), args(0, 500, 0, true), 0),
        Err(RoyaltiesError::InvalidPrice)
    );
}

#[test]
fn create_listing_metadata_uri_bounds() {
    let mut m = market();
    let mut a = args(1, 500, 0, true);
    a.metadata_uri = String::new();
    assert_eq!(m.create_listing(addr(CREATOR), a, 0), Err(RoyaltiesError::InvalidMetadataUri));
    let mut a = args(1, 500, 0, true);
    a.metadata_uri = "x".repeat(201);
    assert_eq!(m.create_listing(addr(CREATOR), a, 0), Err(RoyaltiesError::InvalidMetadataUri));
    let mut a = args(1, 500, 0, true);
    a.metadata_uri = "x".repeat(200);
    assert_eq!(m.create_listing(addr(CREATOR), a, 0), Ok(0));
}

#[test]
fn create_listing_royalty_too_high() {
    let mut m = market();
    assert_eq!(
        m.create_listing(addr(CREATOR), args(1, 500, 1_001, true), 0),
        Err(RoyaltiesError::FeeTooHigh)
    );
    assert_eq!(m.create_listing(addr(CREATOR), args(1, 500, 1_000, true), 0), Ok(0));
}

#[test]
fn buy_listing_pays_creator_and_treasury() {
    let mut m = market();
    m.create_listing(addr(CREATOR), args(1_000_000, 500, 250, true), 0).unwrap();
    let payments = m.buy_listing(0, addr(BUYER)).unwrap();
    assert_eq!(
        payments,
        vec![
            Payment { from: addr(BUYER), to: addr(CREATOR), amount: 950_000 },
            Payment { from: addr(BUYER), to: addr(TREASURY), amount: 50_000 },
        ]
    );
    assert_eq!(m.listing(0).unwrap().status, ListingStatus::Sold);
    assert_eq!(m.units_held(0, Custody::Wallet(addr(BUYER))), 1);
    assert_eq!(m.config().total_fees_collected, 50_000);
}

#[test]
fn buy_listing_twice_only_one_succeeds() {
    let mut m = market();
    m.create_listing(addr(CREATOR), args(1_000_000, 500, 250, true), 0).unwrap();
    let first = m.buy_listing(0, addr(BUYER));
    let second = m.buy_listing(0, addr(SECOND_BUYER));
    assert!(first.is_ok());
    assert_eq!(second, Err(RoyaltiesError::ListingNotActive));
    let to_creator: u64 = first
        .unwrap()
        .iter()
        .filter(|p| p.to == addr(CREATOR))
        .map(|p| p.amount)
        .sum();
    assert_eq!(to_creator, 950_000);
    assert_eq!(m.units_held(0, Custody::Wallet(addr(BUYER))), 1);
    assert_eq!(m.units_held(0, Custody::Wallet(addr(SECOND_BUYER))), 0);
    assert_eq!(m.config().total_fees_collected, 50_000);
}

#[test]
fn buy_listing_unknown_asset() {
    let mut m = market();
    assert_eq!(m.buy_listing(0, addr(BUYER)), Err(RoyaltiesError::NotFound));
}

#[test]
fn buy_listing_overflow() {
    let mut m = market();
    m.create_listing(addr(CREATOR), args(u64::MAX, 500, 0, true), 0).unwrap();
    assert_eq!(m.buy_listing(0, addr(BUYER)), Err(RoyaltiesError::Overflow));
    assert_eq!(m.listing(0).unwrap().status, ListingStatus::Active);
}

#[test]
fn list_for_resale_moves_unit_to_escrow() {
    let mut m = sold_market(250, true);
    assert_eq!(m.units_held(0, Custody::Wallet(addr(BUYER))), 1);
    m.list_for_resale(0, addr(BUYER), 2_000_000, 99).unwrap();
    assert_eq!(m.units_held(0, Custody::Wallet(addr(BUYER))), 0);
    assert_eq!(m.units_held(0, Custody::Escrow(addr(BUYER))), 1);
    let r = m.resale_listing(0).unwrap();
    assert_eq!(r.seller, addr(BUYER));
    assert_eq!(r.price, 2_000_000);
    assert_eq!(r.listed_at, 99);
}

#[test]
fn cancel_resale_returns_unit() {
    let mut m = sold_market(250, true);
    m.list_for_resale(0, addr(BUYER), 2_000_000, 0).unwrap();
    m.cancel_resale(0, addr(BUYER)).unwrap();
    assert_eq!(m.units_held(0, Custody::Wallet(addr(BUYER))), 1);
    assert_eq!(m.units_held(0, Custody::Escrow(addr(BUYER))), 0);
    assert!(m.resale_listing(0).is_none());
}

#[test]
fn cancel_resale_by_other_is_unauthorized() {
    let mut m = sold_market(250, true);
    m.list_for_resale(0, addr(BUYER), 2_000_000, 0).unwrap();
    assert_eq!(m.cancel_resale(0, addr(THIRD)), Err(RoyaltiesError::Unauthorized));
    assert_eq!(m.units_held(0, Custody::Escrow(addr(BUYER))), 1);
}

#[test]
fn cancel_resale_without_listing() {
    let mut m = sold_market(250, true);
    assert_eq!(m.cancel_resale(0, addr(BUYER)), Err(RoyaltiesError::NotFound));
}

#[test]
fn list_for_resale_errors() {
    let mut m = market();
    m.create_listing(addr(CREATOR), args(1_000_000, 500, 250, true), 0).unwrap();
    assert_eq!(m.list_for_resale(0, addr(CREATOR), 5, 0), Err(RoyaltiesError::ListingNotActive));
    assert_eq!(m.list_for_resale(9, addr(CREATOR), 5, 0), Err(RoyaltiesError::NotFound));
    m.buy_listing(0, addr(BUYER)).unwrap();
    assert_eq!(m.list_for_resale(0, addr(THIRD), 5, 0), Err(RoyaltiesError::NotOwner));
    assert_eq!(m.list_for_resale(0, addr(BUYER), 0, 0), Err(RoyaltiesError::InvalidPrice));
    let mut m = sold_market(250, false);
    assert_eq!(m.list_for_resale(0, addr(BUYER), 5, 0), Err(RoyaltiesError::ResaleNotAllowed));
}

#[test]
fn buy_resale_three_way_split() {
    let mut m = sold_market(250, true);
    m.list_for_resale(0, addr(BUYER), 2_000_000, 0).unwrap();
    let payments = m.buy_resale(0, addr(BUYER), addr(SECOND_BUYER)).unwrap();
    assert_eq!(
        payments,
        vec![
            Payment { from: addr(SECOND_BUYER), to: addr(BUYER), amount: 1_900_000 },
            Payment { from: addr(SECOND_BUYER), to: addr(TREASURY), amount: 50_000 },
            Payment { from: addr(SECOND_BUYER), to: addr(CREATOR), amount: 50_000 },
        ]
    );
    assert_eq!(m.units_held(0, Custody::Wallet(addr(SECOND_BUYER))), 1);
    assert_eq!(m.units_held(0, Custody::Escrow(addr(BUYER))), 0);
    assert!(m.resale_listing(0).is_none());
    assert_eq!(m.config().total_fees_collected, 100_000);
}

#[test]
fn buy_resale_zero_royalty_skips_creator() {
    let mut m = sold_market(0, true);
    m.list_for_resale(0, addr(BUYER), 1_000, 0).unwrap();
    let payments = m.buy_resale(0, addr(BUYER), addr(SECOND_BUYER)).unwrap();
    assert_eq!(
        payments,
        vec![
            Payment { from: addr(SECOND_BUYER), to: addr(BUYER), amount: 975 },
            Payment { from: addr(SECOND_BUYER), to: addr(TREASURY), amount: 25 },
        ]
    );
}

#[test]
fn buy_resale_without_open_listing() {
    let mut m = sold_market(250, true);
    assert_eq!(m.buy_resale(0, addr(BUYER), addr(THIRD)), Err(RoyaltiesError::NotFound));
    m.list_for_resale(0, addr(BUYER), 1_000, 0).unwrap();
    assert_eq!(m.buy_resale(0, addr(THIRD), addr(SECOND_BUYER)), Err(RoyaltiesError::NotFound));
    m.buy_resale(0, addr(BUYER), addr(SECOND_BUYER)).unwrap();
    assert_eq!(m.buy_resale(0, addr(BUYER), addr(THIRD)), Err(RoyaltiesError::NotFound));
    assert_eq!(m.cancel_resale(0, addr(BUYER)), Err(RoyaltiesError::NotFound));
}

#[test]
fn deposit_starts_first_period() {
    let mut m = sold_market(250, true);
    assert!(m.payout_pool(0).is_none());
    assert_eq!(m.deposit_payout(0, addr(CREATOR), 100, 5), Ok(1));
    let p = m.payout_pool(0).unwrap();
    assert_eq!(p.period, 1);
    assert_eq!(p.total_deposited, 100);
    assert_eq!(p.total_claimed, 0);
    assert_eq!(p.vault_balance, 100);
    assert_eq!(p.deposited_at, 5);
    assert_eq!(m.deposit_payout(0, addr(CREATOR), 30, 6), Ok(1));
    assert_eq!(m.payout_pool(0).unwrap().total_deposited, 130);
    assert_eq!(m.payout_pool(0).unwrap().vault_balance, 130);
}

#[test]
fn deposit_after_full_claim_rolls_period() {
    let mut m = sold_market(250, true);
    m.deposit_payout(0, addr(CREATOR), 100, 0).unwrap();
    assert_eq!(m.claim_payout(0, addr(BUYER), 1), Ok(100));
    let p = m.payout_pool(0).unwrap();
    assert_eq!((p.total_deposited, p.total_claimed, p.period), (100, 100, 1));
    assert_eq!(m.deposit_payout(0, addr(CREATOR), 50, 2), Ok(2));
    let p = m.payout_pool(0).unwrap();
    assert_eq!(p.period, 2);
    assert_eq!(p.total_deposited, 50);
    assert_eq!(p.total_claimed, 0);
    assert_eq!(p.vault_balance, 50);
}

#[test]
fn deposit_errors() {
    let mut m = market();
    m.create_listing(addr(CREATOR), args(1_000_000, 500, 250, true), 0).unwrap();
    assert_eq!(m.deposit_payout(0, addr(CREATOR), 10, 0), Err(RoyaltiesError::ListingNotActive));
    m.buy_listing(0, addr(BUYER)).unwrap();
    assert_eq!(m.deposit_payout(0, addr(BUYER), 10, 0), Err(RoyaltiesError::Unauthorized));
    assert_eq!(m.deposit_payout(0, addr(CREATOR), 0, 0), Err(RoyaltiesError::InvalidPrice));
    assert_eq!(m.deposit_payout(3, addr(CREATOR), 10, 0), Err(RoyaltiesError::NotFound));
    m.deposit_payout(0, addr(CREATOR), u64::MAX, 0).unwrap();
    assert_eq!(m.deposit_payout(0, addr(CREATOR), 1, 0), Err(RoyaltiesError::Overflow));
    assert_eq!(m.payout_pool(0).unwrap().total_deposited, u64::MAX);
}

#[test]
fn claim_pays_whole_pool_and_records_claim() {
    let mut m = sold_market(250, true);
    m.deposit_payout(0, addr(CREATOR), 100, 0).unwrap();
    m.deposit_payout(0, addr(CREATOR), 25, 0).unwrap();
    assert_eq!(m.claim_payout(0, addr(BUYER), 7), Ok(125));
    assert!(m.has_claimed(0, addr(BUYER), 1));
    assert!(!m.has_claimed(0, addr(BUYER), 2));
    let p = m.payout_pool(0).unwrap();
    assert_eq!(p.total_claimed, 125);
    assert_eq!(p.vault_balance, 0);
    let c = m.claims[0];
    assert_eq!((c.asset_id, c.holder, c.period, c.amount_claimed, c.claimed_at), (0, addr(BUYER), 1, 125, 7));
}

#[test]
fn second_claim_in_period_rejected() {
    let mut m = sold_market(250, true);
    m.deposit_payout(0, addr(CREATOR), 100, 0).unwrap();
    assert_eq!(m.claim_payout(0, addr(BUYER), 1), Ok(100));
    let vault = m.payout_pool(0).unwrap().vault_balance;
    assert_eq!(m.claim_payout(0, addr(BUYER), 2), Err(RoyaltiesError::AlreadyClaimed));
    assert_eq!(m.payout_pool(0).unwrap().vault_balance, vault);
    assert_eq!(m.claims.len(), 1);
    m.deposit_payout(0, addr(CREATOR), 40, 3).unwrap();
    assert_eq!(m.claim_payout(0, addr(BUYER), 4), Ok(40));
}

#[test]
fn claim_errors() {
    let mut m = sold_market(250, true);
    assert_eq!(m.claim_payout(0, addr(BUYER), 0), Err(RoyaltiesError::PayoutPoolEmpty));
    assert_eq!(m.claim_payout(5, addr(BUYER), 0), Err(RoyaltiesError::NotFound));
    m.deposit_payout(0, addr(CREATOR), 100, 0).unwrap();
    assert_eq!(m.claim_payout(0, addr(THIRD), 0), Err(RoyaltiesError::NotOwner));
    m.list_for_resale(0, addr(BUYER), 10, 0).unwrap();
    assert_eq!(m.claim_payout(0, addr(BUYER), 0), Err(RoyaltiesError::NotOwner));
    m.buy_resale(0, addr(BUYER), addr(SECOND_BUYER)).unwrap();
    assert_eq!(m.claim_payout(0, addr(SECOND_BUYER), 0), Ok(100));
    assert_eq!(m.claim_payout(0, addr(BUYER), 0), Err(RoyaltiesError::NotOwner));
}

#[test]
fn claim_after_drain_by_new_holder_is_empty() {
    let mut m = sold_market(250, true);
    m.deposit_payout(0, addr(CREATOR), 100, 0).unwrap();
    m.claim_payout(0, addr(BUYER), 0).unwrap();
    m.list_for_resale(0, addr(BUYER), 10, 0).unwrap();
    m.buy_resale(0, addr(BUYER), addr(SECOND_BUYER)).unwrap();
    assert_eq!(m.claim_payout(0, addr(SECOND_BUYER), 0), Err(RoyaltiesError::PayoutPoolEmpty));
}

#[test]
fn end_to_end_primary_then_resale() {
    let mut m = Marketplace::initialize(addr(AUTHORITY), addr(TREASURY), 500).unwrap();
    let id = m.create_listing(addr(CREATOR), args(1_000_000, 500, 250, true), 0).unwrap();
    let primary = m.buy_listing(id, addr(BUYER)).unwrap();
    assert_eq!(primary[0], Payment { from: addr(BUYER), to: addr(CREATOR), amount: 950_000 });
    assert_eq!(primary[1], Payment { from: addr(BUYER), to: addr(TREASURY), amount: 50_000 });
    assert_eq!(m.units_held(id, Custody::Wallet(addr(BUYER))), 1);
    assert_eq!(m.listing(id).unwrap().status, ListingStatus::Sold);
    m.list_for_resale(id, addr(BUYER), 2_000_000, 1).unwrap();
    let resale = m.buy_resale(id, addr(BUYER), addr(SECOND_BUYER)).unwrap();
    assert_eq!(resale[0], Payment { from: addr(SECOND_BUYER), to: addr(BUYER), amount: 1_900_000 });
    assert_eq!(resale[1], Payment { from: addr(SECOND_BUYER), to: addr(TREASURY), amount: 50_000 });
    assert_eq!(resale[2], Payment { from: addr(SECOND_BUYER), to: addr(CREATOR), amount: 50_000 });
    assert_eq!(m.config().total_fees_collected, 100_000);
}

#[test]
fn error_messages() {
    assert_eq!(RoyaltiesError::Overflow.message(), "Calculation overflow");
    assert_eq!(RoyaltiesError::AlreadyClaimed.message(), "Already claimed for this period");
    assert_eq!(ListingStatus::default(), ListingStatus::Active);
}
