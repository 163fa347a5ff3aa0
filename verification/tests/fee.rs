use cosmwasm_std::Uint128;
use social_tip_contract::error::{ContractError, FeeError};
use social_tip_contract::fee::{apply_fee, deduct_fee, FEE_DENOMINATOR, FEE_NUMERATOR};

#[test]
fn fee_is_one_hundredth_rounded_down() {
    assert_eq!(apply_fee(10_000_000), Ok((100_000, 9_900_000)));
    assert_eq!(apply_fee(0), Ok((0, 0)));
    assert_eq!(apply_fee(1), Ok((0, 1)));
    assert_eq!(apply_fee(99), Ok((0, 99)));
    assert_eq!(apply_fee(100), Ok((1, 99)));
    assert_eq!(apply_fee(101), Ok((1, 100)));
    assert_eq!(apply_fee(199), Ok((1, 198)));
    assert_eq!(apply_fee(200), Ok((2, 198)));
    assert_eq!(apply_fee(12_345), Ok((123, 12_222)));
}

#[test]
fn fee_of_the_largest_amount() {
    let fee = u128::MAX / 100;
    assert_eq!(apply_fee(u128::MAX), Ok((fee, u128::MAX - fee)));
    assert_eq!(fee, 3_402_823_669_209_384_634_633_746_074_317_682_114);
}

#[test]
fn fee_and_net_add_up_to_the_gross_amount() {
    let samples: [u128; 12] = [
        0,
        1,
        50,
        99,
        100,
        150,
        9_999,
        10_000_000,
        u64::MAX as u128,
        u64::MAX as u128 + 1,
        u128::MAX - 1,
        u128::MAX,
    ];
    for gross in samples {
        let (fee, net) = apply_fee(gross).unwrap();
        assert_eq!(fee.checked_add(net), Some(gross));
        assert_eq!(fee, gross / 100);
        assert_eq!(Uint128::new(fee), Uint128::new(gross).multiply_ratio(1u128, 100u128));
    }
}

#[test]
fn fee_rate_is_one_in_a_hundred() {
    assert_eq!(FEE_NUMERATOR, 1);
    assert_eq!(FEE_DENOMINATOR, 100);
}

#[test]
fn fee_larger_than_the_amount_is_refused() {
    assert_eq!(deduct_fee(1, 2), Err(FeeError::AmountTooSmall));
    assert_eq!(deduct_fee(0, 1), Err(FeeError::AmountTooSmall));
    assert_eq!(deduct_fee(0, u128::MAX), Err(FeeError::AmountTooSmall));
    assert_eq!(FeeError::AmountTooSmall.message(), "Amount too small to cover fees");
    assert_eq!(ContractError::AmountTooSmall.message(), "Amount too small to cover fees");
}

#[test]
fn fee_up_to_the_amount_is_deducted() {
    assert_eq!(deduct_fee(10, 3), Ok((3, 7)));
    assert_eq!(deduct_fee(10, 10), Ok((10, 0)));
    assert_eq!(deduct_fee(10, 0), Ok((0, 10)));
    assert_eq!(deduct_fee(u128::MAX, 1), Ok((1, u128::MAX - 1)));
}
