use vstd::prelude::*;

use crate::error::ErrorCode;
use crate::state::{seconds_in_days, AccessType, MAX_FEE_BPS};

verus! {

/// Basis points in one whole.
pub const BPS_DENOMINATOR: u64 = 10000;

/// Seconds in one day.
pub const SECONDS_PER_DAY: i64 = 86400;

/// The two parts a price is split into.
#[derive(Clone, Copy, Debug, PartialEq, Eq, Structural)]
pub struct FeeSplit {
    /// What the model's creator receives.
    pub creator_amount: u64,
    /// What the treasury receives.
    pub protocol_fee: u64,
}

/// The treasury's cut of `price` at `fee_bps` basis points, rounded down.
pub open spec fn protocol_fee(price: int, fee_bps: int) -> int {
    price * fee_bps / 10000
}

/// The price of an access right, before any bound of the machine:
/// the inference price, the download price, or the inference price for each
/// day of a subscription. A subscription without a duration has no price.
pub open spec fn access_price(
    inference_price: u64,
    download_price: u64,
    access_type: AccessType,
    duration_days: Option<u32>,
) -> Option<int> {
    match access_type {
        AccessType::Inference => Some(inference_price as int),
        AccessType::Download => Some(download_price as int),
        AccessType::Subscription => match duration_days {
            Some(days) => Some(inference_price * days),
            None => None,
        },
    }
}

/// When an access right bought at `purchased_at` runs out: `duration_days`
/// whole days later, or never if no duration was given.
pub open spec fn expiry(purchased_at: i64, duration_days: Option<u32>) -> Option<int> {
    match duration_days {
        Some(days) => Some(purchased_at + seconds_in_days(days)),
        None => None,
    }
}

/// What `split_payment` returns: the fee is `protocol_fee`, the creator gets
/// the rest, and the split is refused when `price * fee_bps` does not fit in
/// 64 bits or the fee would exceed the price.
pub open spec fn split_of(price: u64, fee_bps: u64) -> Result<FeeSplit, ErrorCode> {
    let fee = protocol_fee(price as int, fee_bps as int);
    if price * fee_bps <= u64::MAX && fee <= price {
        Ok(FeeSplit { creator_amount: (price - fee) as u64, protocol_fee: fee as u64 })
    } else {
        Err(ErrorCode::ArithmeticOverflow)
    }
}

/// Splits `price` between the creator and the treasury.
///
/// Fails with `ArithmeticOverflow` exactly when `price * fee_bps` does not fit
/// in 64 bits or the fee would exceed the price; the latter cannot happen at a
/// rate of at most `MAX_FEE_BPS`.
pub fn split_payment(price: u64, fee_bps: u64) -> (r: Result<FeeSplit, ErrorCode>)
    ensures
        r == split_of(price, fee_bps),
        r matches Ok(split) ==> split.creator_amount + split.protocol_fee == price,
        fee_bps <= MAX_FEE_BPS && price * fee_bps <= u64::MAX ==> r is Ok,
{
    proof {
        if fee_bps <= MAX_FEE_BPS {
            lemma_fee_within_price(price as int, fee_bps as int);
        }
    }
    let scaled = match price.checked_mul(fee_bps) {
        Some(scaled) => scaled,
        None => { return Err(ErrorCode::ArithmeticOverflow); },
    };
    let fee = scaled / BPS_DENOMINATOR;
    match price.checked_sub(fee) {
        Some(rest) => Ok(FeeSplit { creator_amount: rest, protocol_fee: fee }),
        None => Err(ErrorCode::ArithmeticOverflow),
    }
}

/// The price of an access right to a model with the given prices.
///
/// Fails with `InvalidDuration` exactly when a subscription is requested
/// without a duration, and with `ArithmeticOverflow` exactly when the price
/// does not fit in 64 bits.
pub fn quote_price(
    inference_price: u64,
    download_price: u64,
    access_type: AccessType,
    duration_days: Option<u32>,
) -> (r: Result<u64, ErrorCode>)
    ensures
        match access_price(inference_price, download_price, access_type, duration_days) {
            None => r == Err::<u64, ErrorCode>(ErrorCode::InvalidDuration),
            Some(price) => if price <= u64::MAX {
                r == Ok::<u64, ErrorCode>(price as u64)
            } else {
                r == Err::<u64, ErrorCode>(ErrorCode::ArithmeticOverflow)
            },
        },
{
    match access_type {
        AccessType::Inference => Ok(inference_price),
        AccessType::Download => Ok(download_price),
        AccessType::Subscription => match duration_days {
            None => Err(ErrorCode::InvalidDuration),
            Some(days) => match inference_price.checked_mul(days as u64) {
                Some(price) => Ok(price),
                None => Err(ErrorCode::ArithmeticOverflow),
            },
        },
    }
}

/// The expiry of an access right bought at `purchased_at`.
///
/// Fails with `ArithmeticOverflow` exactly when the expiry does not fit in a
/// signed 64-bit timestamp.
pub fn expires_at(purchased_at: i64, duration_days: Option<u32>) -> (r: Result<
    Option<i64>,
    ErrorCode,
>)
    ensures
        match expiry(purchased_at, duration_days) {
            None => r == Ok::<Option<i64>, ErrorCode>(None),
            Some(end) => if end <= i64::MAX {
                r == Ok::<Option<i64>, ErrorCode>(Some(end as i64))
            } else {
                r == Err::<Option<i64>, ErrorCode>(ErrorCode::ArithmeticOverflow)
            },
        },
{
    match duration_days {
        None => Ok(None),
        Some(days) => {
            let seconds: i64 = (days as i64) * SECONDS_PER_DAY;
            match purchased_at.checked_add(seconds) {
                Some(end) => Ok(Some(end)),
                None => Err(ErrorCode::ArithmeticOverflow),
            }
        },
    }
}

/// At a rate of at most one whole, the fee is between nothing and the price.
pub proof fn lemma_fee_within_price(price: int, fee_bps: int)
    requires
        0 <= price,
        0 <= fee_bps <= MAX_FEE_BPS,
    ensures
        0 <= protocol_fee(price, fee_bps) <= price,
{
    assert(0 <= price * fee_bps <= price * 10000) by (nonlinear_arith)
        requires
            0 <= price,
            0 <= fee_bps <= 10000,
    ;
}

/// Payment is conserved: for every price and every rate of at most one whole
/// whose product fits in 64 bits, the split succeeds, the treasury's part is
/// `price * fee_bps / 10000` rounded down, and the two parts add up to the
/// price.
pub proof fn lemma_split_conserves_payment(price: u64, fee_bps: u64)
    requires
        fee_bps <= MAX_FEE_BPS,
        price * fee_bps <= u64::MAX,
    ensures
        split_of(price, fee_bps) matches Ok(split) && split.protocol_fee == price * fee_bps / 10000
            && split.creator_amount + split.protocol_fee == price,
{
    lemma_fee_within_price(price as int, fee_bps as int);
}

} // verus!
