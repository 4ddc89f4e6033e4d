use marketplace::error::ErrorCode;
use marketplace::fee::{split_payment, PaymentSplit};

#[test]
fn split_at_two_and_a_half_percent() {
    assert_eq!(
        split_payment(1000, 250),
        Ok(PaymentSplit { fee_amount: 25, seller_amount: 975 })
    );
}

#[test]
fn split_at_zero_rate_leaves_everything_to_the_seller() {
    assert_eq!(
        split_payment(1000, 0),
        Ok(PaymentSplit { fee_amount: 0, seller_amount: 1000 })
    );
}

#[test]
fn split_at_the_cap() {
    assert_eq!(
        split_payment(1000, 1000),
        Ok(PaymentSplit { fee_amount: 100, seller_amount: 900 })
    );
}

#[test]
fn split_rounds_the_fee_down() {
    assert_eq!(
        split_payment(9999, 1),
        Ok(PaymentSplit { fee_amount: 0, seller_amount: 9999 })
    );
    assert_eq!(
        split_payment(10000, 1),
        Ok(PaymentSplit { fee_amount: 1, seller_amount: 9999 })
    );
    assert_eq!(
        split_payment(19999, 1),
        Ok(PaymentSplit { fee_amount: 1, seller_amount: 19998 })
    );
    assert_eq!(
        split_payment(1, 1000),
        Ok(PaymentSplit { fee_amount: 0, seller_amount: 1 })
    );
    assert_eq!(
        split_payment(39, 250),
        Ok(PaymentSplit { fee_amount: 0, seller_amount: 39 })
    );
    assert_eq!(
        split_payment(40, 250),
        Ok(PaymentSplit { fee_amount: 1, seller_amount: 39 })
    );
}

#[test]
fn split_of_the_largest_price() {
    // 18446744073709551615 * 1000 / 10000 = 1844674407370955161 (rounded down)
    assert_eq!(
        split_payment(u64::MAX, 1000),
        Ok(PaymentSplit {
            fee_amount: 1_844_674_407_370_955_161,
            seller_amount: 16_602_069_666_338_596_454,
        })
    );
    assert_eq!(
        split_payment(u64::MAX, 250),
        Ok(PaymentSplit {
            fee_amount: 461_168_601_842_738_790,
            seller_amount: 17_985_575_471_866_812_825,
        })
    );
}

#[test]
fn split_at_the_whole_gives_everything_to_the_fee() {
    assert_eq!(
        split_payment(777, 10000),
        Ok(PaymentSplit { fee_amount: 777, seller_amount: 0 })
    );
    assert_eq!(
        split_payment(u64::MAX, 10000),
        Ok(PaymentSplit { fee_amount: u64::MAX, seller_amount: 0 })
    );
}

#[test]
fn split_above_the_whole_overflows() {
    assert_eq!(split_payment(10000, 10001), Err(ErrorCode::ArithmeticOverflow));
    assert_eq!(split_payment(100, 20000), Err(ErrorCode::ArithmeticOverflow));
    assert_eq!(split_payment(u64::MAX, u16::MAX), Err(ErrorCode::ArithmeticOverflow));
}

#[test]
fn split_above_the_whole_that_rounds_within_the_price() {
    // 1 * 10001 / 10000 = 1, which is not more than the price
    assert_eq!(
        split_payment(1, 10001),
        Ok(PaymentSplit { fee_amount: 1, seller_amount: 0 })
    );
    assert_eq!(
        split_payment(0, u16::MAX),
        Ok(PaymentSplit { fee_amount: 0, seller_amount: 0 })
    );
}

#[test]
fn shares_add_up_to_the_price() {
    let prices: [u64; 8] = [1, 2, 39, 40, 1000, 123_456_789, u64::MAX - 1, u64::MAX];
    let rates: [u16; 7] = [0, 1, 249, 250, 500, 999, 1000];
    for price in prices {
        for rate in rates {
            let split = split_payment(price, rate).unwrap();
            assert_eq!(split.fee_amount as u128 + split.seller_amount as u128, price as u128);
            assert_eq!(split.fee_amount as u128, price as u128 * rate as u128 / 10000);
        }
    }
}
