//! The platform fee: one hundredth of the gross amount, rounded down.

use vstd::prelude::*;
use crate::error::FeeError;
use cosmwasm_std::{OverflowError, Uint128};

verus! {

/// The fee is `FEE_NUMERATOR / FEE_DENOMINATOR` of the gross amount.
pub const FEE_NUMERATOR: u128 = 1;

/// The fee is `FEE_NUMERATOR / FEE_DENOMINATOR` of the gross amount.
pub const FEE_DENOMINATOR: u128 = 100;

/// The platform's cut of a gross amount: `floor(gross * 1 / 100)`.
pub open spec fn fee_of(gross: nat) -> nat {
    gross * 1 / 100
}

/// What is left of a gross amount once the platform's cut is taken.
pub open spec fn net_of(gross: nat) -> nat {
    (gross - fee_of(gross)) as nat
}

/// `cosmwasm_std::OverflowError`, the error of the checked arithmetic of
/// `cosmwasm_std::Uint128`.  Nothing is claimed of what it holds.
#[verifier::external_type_specification]
#[verifier::external_body]
pub struct ExOverflowError(OverflowError);

/// `cosmwasm_std::Uint128::multiply_ratio`: the floor of
/// `value * numerator / denominator`, computed without intermediate overflow.
/// The outside function panics on a zero denominator and on a quotient that
/// does not fit in 128 bits, so both are excluded here.
#[verifier::external_body]
fn uint128_multiply_ratio(value: u128, numerator: u128, denominator: u128) -> (ratio: u128)
    requires
        denominator != 0,
        value * numerator / (denominator as int) <= u128::MAX,
    ensures
        ratio == value * numerator / (denominator as int),
{
    Uint128::new(value).multiply_ratio(numerator, denominator).u128()
}

/// `cosmwasm_std::Uint128::checked_sub`: the difference where it is not
/// negative, an overflow error where it is.
#[verifier::external_body]
fn uint128_checked_sub(value: u128, other: u128) -> (difference: Result<u128, OverflowError>)
    ensures
        match difference {
            Ok(d) => other <= value && d == value - other,
            Err(_) => value < other,
        },
{
    match Uint128::new(value).checked_sub(Uint128::new(other)) {
        Ok(d) => Ok(d.u128()),
        Err(e) => Err(e),
    }
}

/// Takes `fee` out of `gross`.  Returns the pair `(fee, net)` with
/// `net = gross - fee`, or `AmountTooSmall` when the fee exceeds the gross
/// amount.
pub fn deduct_fee(gross: u128, fee: u128) -> (split: Result<(u128, u128), FeeError>)
    ensures
        fee <= gross ==> split == Ok::<(u128, u128), FeeError>((fee, (gross - fee) as u128)),
        fee > gross ==> split == Err::<(u128, u128), FeeError>(FeeError::AmountTooSmall),
{
    match uint128_checked_sub(gross, fee) {
        Ok(net) => Ok((fee, net)),
        Err(_) => Err(FeeError::AmountTooSmall),
    }
}

/// Splits a gross amount into the platform's fee and the net amount:
/// `fee = floor(gross / 100)` and `net = gross - fee`.  Nothing is lost or
/// created: `fee + net == gross`.
pub fn apply_fee(gross: u128) -> (split: Result<(u128, u128), FeeError>)
    ensures
        split matches Ok((fee, net)) && fee == fee_of(gross as nat) && net == net_of(gross as nat)
            && fee + net == gross,
{
    let fee: u128 = uint128_multiply_ratio(gross, FEE_NUMERATOR, FEE_DENOMINATOR);
    deduct_fee(gross, fee)
}

} // verus!
