//! Checks and arithmetic shared by the operations of the marketplace.

use crate::env::Env;
use crate::errors::KoraError;
use vstd::prelude::*;

verus! {

/// The number of basis points in the whole.
pub const BPS_DENOMINATOR: i128 = 10_000;

/// The highest fee rate: the whole.
pub const MAX_FEE_BPS: u32 = 10_000;

/// `x` fits in 128 bits.
pub open spec fn fits_i128(x: int) -> bool {
    i128::MIN <= x <= i128::MAX
}

/// `bps` basis points of `amount`, rounded toward zero.
pub open spec fn bps_share(amount: int, bps: int) -> int {
    if amount * bps >= 0 {
        (amount * bps) / 10_000
    } else {
        -((-(amount * bps)) / 10_000)
    }
}

/// Refuses an amount that is not positive.
pub fn require_non_zero_amount(amount: i128) -> (result: Result<(), KoraError>)
    ensures
        result == (if amount > 0 {
            Ok(())
        } else {
            Err(KoraError::InvalidAmount)
        }),
{
    if amount <= 0 {
        return Err(KoraError::InvalidAmount);
    }
    Ok(())
}

/// Refuses a fee rate above the whole.
pub fn require_valid_fee_bps(fee_bps: u32) -> (result: Result<(), KoraError>)
    ensures
        result == (if fee_bps <= 10_000 {
            Ok(())
        } else {
            Err(KoraError::InvalidFeeBps)
        }),
{
    if fee_bps > MAX_FEE_BPS {
        return Err(KoraError::InvalidFeeBps);
    }
    Ok(())
}

/// Refuses a time that does not lie after the present.
pub fn require_future_timestamp(env: &Env, timestamp: u64) -> (result: Result<(), KoraError>)
    ensures
        result == (if env.timestamp < timestamp {
            Ok(())
        } else {
            Err(KoraError::InvalidDueDate)
        }),
{
    if timestamp <= env.timestamp {
        return Err(KoraError::InvalidDueDate);
    }
    Ok(())
}

/// Refuses while the protocol is paused.
pub fn require_not_paused(env: &Env) -> (result: Result<(), KoraError>)
    ensures
        result == (if env.paused {
            Err(KoraError::ProtocolPaused)
        } else {
            Ok(())
        }),
{
    if env.paused {
        return Err(KoraError::ProtocolPaused);
    }
    Ok(())
}

/// The sum of two amounts, if it fits.
pub fn safe_add(a: i128, b: i128) -> (result: Result<i128, KoraError>)
    ensures
        result == (if fits_i128(a + b) {
            Ok((a + b) as i128)
        } else {
            Err(KoraError::ArithmeticOverflow)
        }),
{
    match a.checked_add(b) {
        Some(sum) => Ok(sum),
        None => Err(KoraError::ArithmeticOverflow),
    }
}

/// The difference of two amounts, if it fits.
pub fn safe_sub(a: i128, b: i128) -> (result: Result<i128, KoraError>)
    ensures
        result == (if fits_i128(a - b) {
            Ok((a - b) as i128)
        } else {
            Err(KoraError::ArithmeticOverflow)
        }),
{
    match a.checked_sub(b) {
        Some(difference) => Ok(difference),
        None => Err(KoraError::ArithmeticOverflow),
    }
}

/// `bps` basis points of `amount`, rounded toward zero, if the product from which
/// it is computed fits.
pub fn bps_of(amount: i128, bps: u32) -> (result: Result<i128, KoraError>)
    ensures
        result == (if fits_i128(amount * bps) {
            Ok(bps_share(amount as int, bps as int) as i128)
        } else {
            Err(KoraError::ArithmeticOverflow)
        }),
{
    let product = match amount.checked_mul(bps as i128) {
        Some(product) => product,
        None => return Err(KoraError::ArithmeticOverflow),
    };
    match product.checked_div(BPS_DENOMINATOR) {
        Some(share) => Ok(share),
        None => Err(KoraError::ArithmeticOverflow),
    }
}

} // verus!
