//! How the price of a sale is divided between the seller and the fee recipient.

use vstd::prelude::*;
use crate::error::ErrorCode;

verus! {

/// The number of basis points in the whole.
pub const BASIS_POINTS: u128 = 10000;

/// The two shares of a price.
#[derive(Clone, Copy, Debug, PartialEq, Eq, Structural)]
pub struct PaymentSplit {
    /// The share of the fee recipient.
    pub fee_amount: u64,
    /// The share of the seller.
    pub seller_amount: u64,
}

/// The fee on `price` at `fee_rate` basis points, rounded down.
pub open spec fn fee_of(price: u64, fee_rate: u16) -> int {
    (price as int * fee_rate as int) / 10000
}

/// The shares of `price` at `fee_rate` basis points. A fee that exceeds the price, which
/// only a rate above the whole can produce, leaves nothing to subtract from.
pub open spec fn split_of(price: u64, fee_rate: u16) -> Result<PaymentSplit, ErrorCode> {
    let fee = fee_of(price, fee_rate);
    if fee > price {
        Err(ErrorCode::ArithmeticOverflow)
    } else {
        Ok(PaymentSplit { fee_amount: fee as u64, seller_amount: (price - fee) as u64 })
    }
}

/// Divides `price` into the fee at `fee_rate` basis points and the rest for the seller. The
/// product is formed in 128 bits, where it cannot overflow, and every step is checked.
///
/// Where the split succeeds the two shares add up to the price, and at any rate up to the
/// whole it succeeds.
pub fn split_payment(price: u64, fee_rate: u16) -> (r: Result<PaymentSplit, ErrorCode>)
    ensures
        r == split_of(price, fee_rate),
        r matches Ok(split) ==> {
            &&& split.fee_amount == fee_of(price, fee_rate)
            &&& split.fee_amount + split.seller_amount == price
        },
        fee_rate <= 10000 ==> r is Ok,
{
    proof {
        lemma_product_fits(price, fee_rate);
        if fee_rate <= 10000 {
            lemma_fee_within_price(price, fee_rate);
        }
    }
    let product = match (price as u128).checked_mul(fee_rate as u128) {
        Some(product) => product,
        None => { return Err(ErrorCode::ArithmeticOverflow); },
    };
    let fee_wide = match product.checked_div(BASIS_POINTS) {
        Some(fee_wide) => fee_wide,
        None => { return Err(ErrorCode::ArithmeticOverflow); },
    };
    if fee_wide > price as u128 {
        return Err(ErrorCode::ArithmeticOverflow);
    }
    let fee_amount = fee_wide as u64;
    match price.checked_sub(fee_amount) {
        Some(seller_amount) => Ok(PaymentSplit { fee_amount, seller_amount }),
        None => Err(ErrorCode::ArithmeticOverflow),
    }
}

/// The product of a price and a fee rate fits in 128 bits.
proof fn lemma_product_fits(price: u64, fee_rate: u16)
    ensures
        0 <= price as int * fee_rate as int <= u128::MAX,
{
    assert(0 <= price as int * fee_rate as int <= 0xffff_ffff_ffff_ffff * 0xffff)
        by (nonlinear_arith)
        requires
            0 <= price as int <= 0xffff_ffff_ffff_ffff,
            0 <= fee_rate as int <= 0xffff,
    ;
}

/// At any rate up to the whole the fee does not exceed the price.
pub proof fn lemma_fee_within_price(price: u64, fee_rate: u16)
    requires
        fee_rate <= 10000,
    ensures
        0 <= fee_of(price, fee_rate) <= price,
{
    let p = price as int;
    let f = fee_rate as int;
    assert(0 <= p * f <= p * 10000) by (nonlinear_arith)
        requires
            0 <= p,
            0 <= f <= 10000,
    ;
    assert((p * 10000) / 10000 == p) by (nonlinear_arith);
    assert((p * f) / 10000 <= (p * 10000) / 10000) by (nonlinear_arith)
        requires
            p * f <= p * 10000,
    ;
    assert(0 <= (p * f) / 10000) by (nonlinear_arith)
        requires
            0 <= p * f,
    ;
}

/// For every price above zero and every fee rate within the cap, the split succeeds, the fee
/// is the rounded-down share of the price, neither share is negative, and the two shares add
/// up to the price.
pub proof fn lemma_split_conserves_price(price: u64, fee_rate: u16)
    requires
        price > 0,
        fee_rate <= 1000,
    ensures
        split_of(price, fee_rate) matches Ok(split) && {
            &&& split.fee_amount + split.seller_amount == price
            &&& split.fee_amount == (price as int * fee_rate as int) / 10000
            &&& split.fee_amount >= 0
            &&& split.seller_amount >= 0
        },
{
    lemma_fee_within_price(price, fee_rate);
}

} // verus!
