use ai_marketplace::pricing::{expires_at, quote_price, split_payment, FeeSplit};
use ai_marketplace::{AccessType, ErrorCode};

#[test]
fn split_of_one_thousand_at_250_bps() {
    assert_eq!(
        split_payment(1000, 250),
        Ok(FeeSplit { creator_amount: 975, protocol_fee: 25 })
    );
}

#[test]
fn split_rounds_the_fee_down() {
    // 999 * 250 / 10000 = 24.975
    assert_eq!(
        split_payment(999, 250),
        Ok(FeeSplit { creator_amount: 975, protocol_fee: 24 })
    );
    // 39 * 250 / 10000 = 0.975
    assert_eq!(
        split_payment(39, 250),
        Ok(FeeSplit { creator_amount: 39, protocol_fee: 0 })
    );
}

#[test]
fn split_at_the_ends_of_the_rate() {
    assert_eq!(
        split_payment(5000, 0),
        Ok(FeeSplit { creator_amount: 5000, protocol_fee: 0 })
    );
    assert_eq!(
        split_payment(5000, 10000),
        Ok(FeeSplit { creator_amount: 0, protocol_fee: 5000 })
    );
    assert_eq!(
        split_payment(0, 250),
        Ok(FeeSplit { creator_amount: 0, protocol_fee: 0 })
    );
}

#[test]
fn split_conserves_the_price() {
    let prices = [0u64, 1, 39, 40, 41, 999, 1000, 123_456_789, u64::MAX / 10000];
    let rates = [0u64, 1, 250, 333, 9999, 10000];
    for price in prices {
        for rate in rates {
            let split = split_payment(price, rate).unwrap();
            assert_eq!(split.creator_amount + split.protocol_fee, price);
            assert_eq!(
                split.protocol_fee as u128,
                price as u128 * rate as u128 / 10000
            );
        }
    }
}

#[test]
fn split_overflow_is_an_error() {
    assert_eq!(split_payment(u64::MAX, 2), Err(ErrorCode::ArithmeticOverflow));
    assert_eq!(
        split_payment(u64::MAX / 250 + 1, 250),
        Err(ErrorCode::ArithmeticOverflow)
    );
    assert_eq!(
        split_payment(u64::MAX / 250, 250),
        Ok(FeeSplit {
            creator_amount: u64::MAX / 250 - (u64::MAX / 250 * 250) / 10000,
            protocol_fee: (u64::MAX / 250 * 250) / 10000,
        })
    );
}

#[test]
fn split_above_one_whole_is_an_error() {
    // 10 * 20000 / 10000 = 20 > 10
    assert_eq!(split_payment(10, 20000), Err(ErrorCode::ArithmeticOverflow));
    // 1 * 10001 / 10000 = 1: the fee still fits the price
    assert_eq!(
        split_payment(1, 10001),
        Ok(FeeSplit { creator_amount: 0, protocol_fee: 1 })
    );
}

#[test]
fn price_by_access_type() {
    assert_eq!(quote_price(1000, 7000, AccessType::Inference, None), Ok(1000));
    assert_eq!(quote_price(1000, 7000, AccessType::Inference, Some(3)), Ok(1000));
    assert_eq!(quote_price(1000, 7000, AccessType::Download, None), Ok(7000));
    assert_eq!(quote_price(1000, 7000, AccessType::Download, Some(9)), Ok(7000));
    assert_eq!(
        quote_price(1000, 7000, AccessType::Subscription, Some(30)),
        Ok(30000)
    );
    assert_eq!(quote_price(1000, 7000, AccessType::Subscription, Some(0)), Ok(0));
}

#[test]
fn price_of_a_subscription_without_duration() {
    assert_eq!(
        quote_price(1000, 7000, AccessType::Subscription, None),
        Err(ErrorCode::InvalidDuration)
    );
}

#[test]
fn price_of_a_subscription_that_overflows() {
    assert_eq!(
        quote_price(u64::MAX, 0, AccessType::Subscription, Some(2)),
        Err(ErrorCode::ArithmeticOverflow)
    );
    assert_eq!(
        quote_price(u64::MAX, 0, AccessType::Subscription, Some(1)),
        Ok(u64::MAX)
    );
}

#[test]
fn expiry_is_days_after_purchase() {
    assert_eq!(expires_at(1_700_000_000, None), Ok(None));
    assert_eq!(
        expires_at(1_700_000_000, Some(30)),
        Ok(Some(1_700_000_000 + 30 * 86400))
    );
    assert_eq!(expires_at(1_700_000_000, Some(0)), Ok(Some(1_700_000_000)));
    assert_eq!(expires_at(-86400, Some(1)), Ok(Some(0)));
    assert_eq!(
        expires_at(0, Some(u32::MAX)),
        Ok(Some(u32::MAX as i64 * 86400))
    );
}

#[test]
fn expiry_that_overflows() {
    assert_eq!(
        expires_at(i64::MAX, Some(1)),
        Err(ErrorCode::ArithmeticOverflow)
    );
    assert_eq!(expires_at(i64::MAX, Some(0)), Ok(Some(i64::MAX)));
    assert_eq!(expires_at(i64::MAX - 86400, Some(1)), Ok(Some(i64::MAX)));
    assert_eq!(
        expires_at(i64::MAX - 86399, Some(1)),
        Err(ErrorCode::ArithmeticOverflow)
    );
}
