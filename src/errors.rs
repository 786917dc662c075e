use vstd::prelude::*;

verus! {

/// The ways in which an operation of the marketplace can fail. Every error is
/// detected before any state is changed.
#[derive(Clone, Copy, Debug, PartialEq, Eq, Structural)]
pub enum RoyaltiesError {
    /// A fee or royalty rate exceeds the maximum allowed (10%).
    FeeTooHigh,
    /// The listing is not in the state the operation needs.
    ListingNotActive,
    /// The listing has expired.
    ListingExpired,
    /// The payer cannot cover the purchase.
    InsufficientFunds,
    /// The listing does not allow resale.
    ResaleNotAllowed,
    /// The caller does not hold the asset.
    NotOwner,
    /// A percentage outside 1..=10000 basis points.
    InvalidPercentage,
    /// A price or amount of zero.
    InvalidPrice,
    /// Nothing is left to claim in the payout pool.
    PayoutPoolEmpty,
    /// The holder already claimed in the current payout period.
    AlreadyClaimed,
    /// The caller is not the party the record names.
    Unauthorized,
    /// A metadata URI that is empty or longer than 200 bytes.
    InvalidMetadataUri,
    /// Arithmetic on an amount or a counter would overflow or go negative.
    Overflow,
    /// No record exists under the given key.
    NotFound,
}

impl RoyaltiesError {
    /// A human-readable description of the error.
    pub fn message(&self) -> (r: &'static str) {
        match self {
            RoyaltiesError::FeeTooHigh => "Platform fee exceeds maximum allowed (10%)",
            RoyaltiesError::ListingNotActive => "Listing is not active",
            RoyaltiesError::ListingExpired => "Listing has expired",
            RoyaltiesError::InsufficientFunds => "Insufficient funds for purchase",
            RoyaltiesError::ResaleNotAllowed => "Resale is not allowed for this listing",
            RoyaltiesError::NotOwner => "You don't own this NFT",
            RoyaltiesError::InvalidPercentage => "Invalid percentage (must be 1-10000 bps)",
            RoyaltiesError::InvalidPrice => "Invalid price",
            RoyaltiesError::PayoutPoolEmpty => "Payout pool is empty",
            RoyaltiesError::AlreadyClaimed => "Already claimed for this period",
            RoyaltiesError::Unauthorized => "Unauthorized",
            RoyaltiesError::InvalidMetadataUri => "Invalid metadata URI",
            RoyaltiesError::Overflow => "Calculation overflow",
            RoyaltiesError::NotFound => "Record not found",
        }
    }
}

} // verus!
