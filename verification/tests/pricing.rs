use marketplace::{check_sale, total_to_pay, Balance, Error, SaleData};

#[test]
fn check_sale_rejects_zero_amount() {
    assert_eq!(check_sale(0, 0), Err(Error::ZeroAmount));
    assert_eq!(check_sale(0, 10), Err(Error::ZeroAmount));
}

#[test]
fn check_sale_rejects_more_than_owned() {
    assert_eq!(check_sale(1, 0), Err(Error::NotEnoughOwned));
    assert_eq!(check_sale(6, 5), Err(Error::NotEnoughOwned));
    assert_eq!(check_sale(u128::MAX, u128::MAX - 1), Err(Error::NotEnoughOwned));
}

#[test]
fn check_sale_accepts_up_to_holdings() {
    assert_eq!(check_sale(1, 1), Ok(()));
    assert_eq!(check_sale(5, 5), Ok(()));
    assert_eq!(check_sale(3, 5), Ok(()));
    assert_eq!(check_sale(u128::MAX, u128::MAX), Ok(()));
}

#[test]
fn total_is_price_times_amount() {
    let listed = SaleData { price: 10, amount: 5 };
    assert_eq!(total_to_pay(listed, 5, 3), Ok(30));
    assert_eq!(total_to_pay(listed, 5, 5), Ok(50));
    assert_eq!(total_to_pay(listed, 9, 1), Ok(10));
    assert_eq!(total_to_pay(SaleData { price: 7, amount: 100 }, 100, 13), Ok(91));
}

#[test]
fn total_of_nothing_is_zero() {
    assert_eq!(total_to_pay(SaleData { price: 10, amount: 5 }, 5, 0), Ok(0));
    assert_eq!(total_to_pay(SaleData { price: 0, amount: 0 }, 0, 0), Ok(0));
    assert_eq!(total_to_pay(SaleData { price: 0, amount: 4 }, 4, 4), Ok(0));
}

#[test]
fn total_differs_from_both_factors() {
    let total = total_to_pay(SaleData { price: 6, amount: 9 }, 9, 7);
    assert_eq!(total, Ok(42));
    assert_ne!(total, Ok(6));
    assert_ne!(total, Ok(7));
}

#[test]
fn total_saturates_at_largest_balance() {
    let huge = SaleData { price: Balance::MAX, amount: 10 };
    assert_eq!(total_to_pay(huge, 10, 2), Ok(Balance::MAX));
    assert_eq!(total_to_pay(huge, 10, 1), Ok(Balance::MAX));
    let half = SaleData { price: 1 << 63, amount: 10 };
    assert_eq!(total_to_pay(half, 10, 1), Ok(1 << 63));
    assert_eq!(total_to_pay(half, 10, 2), Ok(Balance::MAX));
    assert_eq!(total_to_pay(half, 10, 3), Ok(Balance::MAX));
}

#[test]
fn total_is_exact_up_to_the_limit() {
    let square = SaleData { price: 1 << 32, amount: 1 << 40 };
    assert_eq!(total_to_pay(square, 1 << 40, (1 << 32) - 1), Ok(Balance::MAX - (1 << 32) + 1));
    assert_eq!(total_to_pay(square, 1 << 40, 1 << 32), Ok(Balance::MAX));
    let odd = SaleData { price: 3, amount: u128::MAX };
    let third = (Balance::MAX / 3) as u128;
    assert_eq!(total_to_pay(odd, u128::MAX, third), Ok(Balance::MAX));
    assert_eq!(total_to_pay(odd, u128::MAX, third - 1), Ok(Balance::MAX - 3));
    assert_eq!(total_to_pay(odd, u128::MAX, third + 1), Ok(Balance::MAX));
}

#[test]
fn request_beyond_listing_is_not_enough_in_sale() {
    let listed = SaleData { price: 10, amount: 5 };
    assert_eq!(total_to_pay(listed, 5, 6), Err(Error::NotEnoughInSale));
    assert_eq!(total_to_pay(listed, 100, 6), Err(Error::NotEnoughInSale));
    assert_eq!(total_to_pay(SaleData::default(), 100, 1), Err(Error::NotEnoughInSale));
}

#[test]
fn listing_beyond_holdings_is_not_enough_owned() {
    let listed = SaleData { price: 10, amount: 5 };
    assert_eq!(total_to_pay(listed, 4, 5), Err(Error::NotEnoughOwned));
    assert_eq!(total_to_pay(listed, 4, 1), Err(Error::NotEnoughOwned));
    assert_eq!(total_to_pay(listed, 0, 0), Err(Error::NotEnoughOwned));
}

#[test]
fn amount_beyond_a_balance_is_a_conversion_error() {
    let limit = Balance::MAX as u128;
    let vast = SaleData { price: 1, amount: u128::MAX };
    assert_eq!(total_to_pay(vast, u128::MAX, limit + 1), Err(Error::Conversion));
    assert_eq!(total_to_pay(vast, u128::MAX, u128::MAX), Err(Error::Conversion));
    assert_eq!(total_to_pay(vast, u128::MAX, limit), Ok(Balance::MAX));
    assert_eq!(total_to_pay(SaleData { price: 0, amount: u128::MAX }, u128::MAX, limit + 1), Err(Error::Conversion));
}

#[test]
fn purchase_checks_come_in_order() {
    let limit = Balance::MAX as u128;
    let listed = SaleData { price: 2, amount: limit + 5 };
    assert_eq!(total_to_pay(listed, 0, limit + 6), Err(Error::NotEnoughInSale));
    assert_eq!(total_to_pay(listed, limit + 4, limit + 1), Err(Error::NotEnoughOwned));
    assert_eq!(total_to_pay(listed, limit + 5, limit + 1), Err(Error::Conversion));
}

#[test]
fn empty_record_is_the_default() {
    assert_eq!(SaleData::default(), SaleData { price: 0, amount: 0 });
}
