//! Accounting engine of a royalty marketplace: creators sell a share of
//! future revenue as a unique asset, the asset trades on a secondary market
//! with creator royalties, and the current holder claims periodic payouts.
//!
//! Every operation is a single atomic step on a [`Marketplace`] store: it
//! either applies all of its effects or returns an error and changes nothing.


pub mod errors;
pub mod fees;
pub mod state;
pub mod marketplace;
pub mod operations;
pub mod laws;

pub use errors::RoyaltiesError;
pub use fees::{resale_split, split_fee, ResaleSplit, BPS_DENOMINATOR};
pub use marketplace::{ListingEntry, Marketplace};
pub use state::{
    Address, CreateListingArgs, Custody, ListingStatus, PayoutClaim, PayoutPool, Payment,
    PlatformConfig, ResaleListing, RoyaltyListing, DEFAULT_SECONDARY_FEE_BPS,
    MAX_CREATOR_ROYALTY_BPS, MAX_METADATA_URI_LEN, MAX_PLATFORM_FEE_BPS,
};
