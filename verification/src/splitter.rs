use vstd::prelude::*;

use crate::errors::EscrowError;

verus! {

/// Divisor applied to `price * fee_rate`: the fee rate is expressed in
/// parts per thousand (a rate of 35 means 3.5%).
pub const FEE_RATE_DIVISOR: u64 = 1000;

/// The marketplace fee for a given price and fee rate: the rate applied
/// in parts per thousand, rounded down.
pub open spec fn spec_fee(price: u64, fee_rate: u8) -> int {
    price * fee_rate / 1000
}

/// The seller's net proceeds: whatever part of the price is not fee.
/// Rounding the fee down makes the net the (possibly larger) remainder,
/// so fee and net always sum back to the price exactly.
pub open spec fn spec_net(price: u64, fee_rate: u8) -> int {
    price - spec_fee(price, fee_rate)
}

/// The scaled price `price * fee_rate` must fit in 64 bits; otherwise
/// the split fails rather than wrap.
pub open spec fn split_fits(price: u64, fee_rate: u8) -> bool {
    price * fee_rate <= u64::MAX
}

/// The fee never exceeds the price, because the fee rate (at most 255
/// parts per thousand) is always below one.
pub proof fn lemma_fee_le_price(price: u64, fee_rate: u8)
    ensures
        0 <= spec_fee(price, fee_rate) <= price,
{
    assert(price * fee_rate / 1000 <= price && price * fee_rate >= 0) by (nonlinear_arith)
        requires
            fee_rate <= 255,
    ;
}

/// Splits a price into the marketplace fee and the seller's net proceeds.
///
/// Succeeds exactly when the scaled price fits in 64 bits, and then
/// returns `(fee, net)` with `fee == price * fee_rate / 1000` (truncating
/// division) and `fee + net == price`.
pub fn split(price: u64, fee_rate: u8) -> (r: Result<(u64, u64), EscrowError>)
    ensures
        r is Ok <==> split_fits(price, fee_rate),
        r matches Ok((fee, net)) ==> fee == spec_fee(price, fee_rate) && net == spec_net(
            price,
            fee_rate,
        ),
        r is Err ==> r == Err::<(u64, u64), EscrowError>(EscrowError::ArithmeticOverflow),
{
    match price.checked_mul(fee_rate as u64) {
        Some(scaled) => {
            let fee = scaled / FEE_RATE_DIVISOR;
            proof {
                lemma_fee_le_price(price, fee_rate);
            }
            let net = price - fee;
            Ok((fee, net))
        },
        None => Err(EscrowError::ArithmeticOverflow),
    }
}

/// For every price and fee rate whose product fits in 64 bits, the fee
/// and the net sum back to the price exactly, and the fee is the price
/// scaled by the rate in parts per thousand, truncating.
pub proof fn lemma_split_conservation(price: u64, fee_rate: u8)
    requires
        split_fits(price, fee_rate),
    ensures
        spec_fee(price, fee_rate) + spec_net(price, fee_rate) == price,
        spec_fee(price, fee_rate) == price * fee_rate / 1000,
{
}

} // verus!
