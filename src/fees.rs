//! Basis-point fee arithmetic shared by every operation that moves money.

use vstd::prelude::*;
use crate::errors::RoyaltiesError;

verus! {

/// Basis points in one whole (100%).
pub const BPS_DENOMINATOR: u64 = 10000;

/// The fee on `total` at `fee_bps` basis points, rounded down.
pub open spec fn fee_of(total: int, fee_bps: int) -> int {
    total * fee_bps / 10000
}

/// Whether `split_fee(total, fee_bps)` succeeds: the product fits in 64 bits
/// and the fee does not exceed the total.
pub open spec fn split_fee_ok(total: u64, fee_bps: u16) -> bool {
    total * fee_bps <= u64::MAX && fee_of(total as int, fee_bps as int) <= total
}

/// Splits `total` into `(fee, remainder)`, where `fee` is `fee_bps` basis
/// points of `total` rounded down and `remainder` is what is left.
///
/// Fails with `Overflow` when `total * fee_bps` does not fit in 64 bits, or
/// when the fee would exceed the total (a rate above 10000 basis points).
pub fn split_fee(total: u64, fee_bps: u16) -> (r: Result<(u64, u64), RoyaltiesError>)
    ensures
        split_fee_ok(total, fee_bps) ==> r == Ok::<(u64, u64), RoyaltiesError>(
            (fee_of(total as int, fee_bps as int) as u64,
            (total - fee_of(total as int, fee_bps as int)) as u64),
        ),
        !split_fee_ok(total, fee_bps) ==> r == Err::<(u64, u64), RoyaltiesError>(
            RoyaltiesError::Overflow,
        ),
{
    let product = match total.checked_mul(fee_bps as u64) {
        Some(p) => p,
        None => return Err(RoyaltiesError::Overflow),
    };
    let fee = match product.checked_div(BPS_DENOMINATOR) {
        Some(f) => f,
        None => return Err(RoyaltiesError::Overflow),
    };
    let remainder = match total.checked_sub(fee) {
        Some(rem) => rem,
        None => return Err(RoyaltiesError::Overflow),
    };
    Ok((fee, remainder))
}

/// A fee of at most 10000 basis points never exceeds the amount it is taken from.
pub proof fn lemma_fee_at_most_total(total: int, fee_bps: int)
    requires
        0 <= total,
        0 <= fee_bps <= 10000,
    ensures
        0 <= fee_of(total, fee_bps) <= total,
{
    assert(0 <= total * fee_bps <= total * 10000) by (nonlinear_arith)
        requires
            0 <= total,
            0 <= fee_bps <= 10000,
    ;
    assert(total * fee_bps / 10000 <= total * 10000 / 10000) by (nonlinear_arith)
        requires
            0 <= total * fee_bps <= total * 10000,
    ;
    assert(total * 10000 / 10000 == total) by (nonlinear_arith);
    assert(0 <= total * fee_bps / 10000) by (nonlinear_arith)
        requires
            0 <= total * fee_bps,
    ;
}

/// Fee conservation: for every total and every rate of at most 10000 basis
/// points, a successful split gives a fee equal to `total * fee_bps / 10000`
/// rounded down, and the fee and the remainder add up to the total. The split
/// succeeds exactly when `total * fee_bps` fits in 64 bits.
pub proof fn lemma_fee_conservation(total: u64, fee_bps: u16)
    requires
        fee_bps <= 10000,
    ensures
        split_fee_ok(total, fee_bps) <==> total * fee_bps <= u64::MAX,
        split_fee_ok(total, fee_bps) ==> ({
            let f = fee_of(total as int, fee_bps as int);
            let rem = total - f;
            &&& f == (total * fee_bps) / 10000
            &&& 0 <= rem
            &&& f + rem == total
        }),
{
    lemma_fee_at_most_total(total as int, fee_bps as int);
}

/// How the price of a resale is shared out.
#[derive(Clone, Copy, Debug, PartialEq, Eq, Structural)]
pub struct ResaleSplit {
    /// The platform's fee, at the secondary fee rate.
    pub platform_fee: u64,
    /// The creator's royalty, at the listing's royalty rate.
    pub creator_royalty: u64,
    /// What the seller keeps.
    pub seller_amount: u64,
}

/// Whether `resale_split(price, secondary_fee_bps, creator_royalty_bps)` succeeds:
/// both fees can be computed and together they do not exceed the price.
pub open spec fn resale_split_ok(price: u64, secondary_fee_bps: u16, creator_royalty_bps: u16) -> bool {
    &&& split_fee_ok(price, secondary_fee_bps)
    &&& split_fee_ok(price, creator_royalty_bps)
    &&& fee_of(price as int, secondary_fee_bps as int) + fee_of(price as int, creator_royalty_bps as int)
        <= price
}

/// The split of a resale price: both fees are taken from the full price, and
/// the seller receives the price minus both.
pub open spec fn resale_split_spec(price: u64, secondary_fee_bps: u16, creator_royalty_bps: u16) -> ResaleSplit {
    let platform_fee = fee_of(price as int, secondary_fee_bps as int);
    let creator_royalty = fee_of(price as int, creator_royalty_bps as int);
    ResaleSplit {
        platform_fee: platform_fee as u64,
        creator_royalty: creator_royalty as u64,
        seller_amount: (price - platform_fee - creator_royalty) as u64,
    }
}

/// Splits a resale price three ways. The platform fee is computed first and
/// the creator royalty second, both against the full price; the seller gets
/// `price - platform_fee - creator_royalty`, which must not go negative.
pub fn resale_split(price: u64, secondary_fee_bps: u16, creator_royalty_bps: u16) -> (r: Result<
    ResaleSplit,
    RoyaltiesError,
>)
    ensures
        resale_split_ok(price, secondary_fee_bps, creator_royalty_bps) ==> r == Ok::<
            ResaleSplit,
            RoyaltiesError,
        >(resale_split_spec(price, secondary_fee_bps, creator_royalty_bps)),
        !resale_split_ok(price, secondary_fee_bps, creator_royalty_bps) ==> r == Err::<
            ResaleSplit,
            RoyaltiesError,
        >(RoyaltiesError::Overflow),
{
    let (platform_fee, _) = split_fee(price, secondary_fee_bps)?;
    let (creator_royalty, _) = split_fee(price, creator_royalty_bps)?;
    let after_fee = match price.checked_sub(platform_fee) {
        Some(a) => a,
        None => return Err(RoyaltiesError::Overflow),
    };
    let seller_amount = match after_fee.checked_sub(creator_royalty) {
        Some(s) => s,
        None => return Err(RoyaltiesError::Overflow),
    };
    Ok(ResaleSplit { platform_fee, creator_royalty, seller_amount })
}

/// Resale split conservation: when the two rates together are at most 10000
/// basis points and each fee can be computed, the split succeeds, and the
/// platform fee, the creator royalty and the seller's amount add up to the price.
pub proof fn lemma_resale_split_conservation(price: u64, secondary_fee_bps: u16, creator_royalty_bps: u16)
    requires
        secondary_fee_bps + creator_royalty_bps <= 10000,
        price * secondary_fee_bps <= u64::MAX,
        price * creator_royalty_bps <= u64::MAX,
    ensures
        resale_split_ok(price, secondary_fee_bps, creator_royalty_bps),
        ({
            let s = resale_split_spec(price, secondary_fee_bps, creator_royalty_bps);
            s.platform_fee + s.creator_royalty + s.seller_amount == price
        }),
{
    let p = price as int;
    let a = secondary_fee_bps as int;
    let b = creator_royalty_bps as int;
    lemma_fee_at_most_total(p, a);
    lemma_fee_at_most_total(p, b);
    lemma_fee_at_most_total(p, a + b);
    assert(p * a / 10000 + p * b / 10000 <= p * (a + b) / 10000) by (nonlinear_arith)
        requires
            0 <= p,
            0 <= a,
            0 <= b,
    ;
}

} // verus!
