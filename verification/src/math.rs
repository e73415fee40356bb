//! Fixed-point arithmetic: share prices with eighteen fractional digits, and
//! fractions of amounts rounded down.

use crate::error::{ContractError, Fault, outcome};
use cosmwasm_std::{CheckedMultiplyRatioError, Uint128};
use vstd::prelude::*;

verus! {

/// One whole, in the atomic units of a [`Decimal`]: ten to the eighteenth.
pub const SCALING_FACTOR: u128 = 1000000000000000000;

/// A non-negative fixed-point number: `atomics` counts units of 10^-18.
///
/// A share price is such a number: the value that one unit of deposited
/// principal stands for.
#[derive(Clone, Copy, Debug, PartialEq, Eq, Structural, PartialOrd, Ord, Hash)]
pub struct Decimal {
    pub atomics: u128,
}

/// `value * numerator / denominator`, rounded down, as far as it is defined
/// and fits in 128 bits.
pub open spec fn spec_multiply_ratio(value: int, numerator: int, denominator: int) -> Result<
    u128,
    Fault,
> {
    if denominator == 0 {
        Err(Fault::DivideByZero)
    } else if value * numerator / denominator > u128::MAX {
        Err(Fault::Overflow)
    } else {
        Ok((value * numerator / denominator) as u128)
    }
}

/// Calls `cosmwasm_std::Uint128::checked_multiply_ratio`, which multiplies in
/// 256 bits before it divides. The contract claims what that function's source
/// shows: a zero denominator is refused, then a quotient beyond 128 bits, and
/// otherwise the result is the product divided by the denominator, rounded down.
#[verifier::external_body]
pub(crate) fn checked_multiply_ratio(value: u128, numerator: u128, denominator: u128) -> (r: Result<
    u128,
    ContractError,
>)
    ensures
        outcome(r) == spec_multiply_ratio(value as int, numerator as int, denominator as int),
{
    match Uint128::new(value).checked_multiply_ratio(numerator, denominator) {
        Ok(ratio) => Ok(ratio.u128()),
        Err(CheckedMultiplyRatioError::DivideByZero) => Err(ContractError::DivideByZero),
        Err(CheckedMultiplyRatioError::Overflow) => Err(ContractError::Overflow),
    }
}

impl Decimal {
    /// The decimal with the given number of atomic units: `new(1)` is 10^-18.
    pub fn new(atomics: u128) -> (d: Decimal)
        ensures
            d.atomics == atomics,
    {
        Decimal { atomics }
    }

    pub fn zero() -> (d: Decimal)
        ensures
            d.atomics == 0,
    {
        Decimal { atomics: 0 }
    }

    /// The number one.
    pub fn one() -> (d: Decimal)
        ensures
            d.atomics == SCALING_FACTOR,
    {
        Decimal { atomics: SCALING_FACTOR }
    }

    pub fn atomics(&self) -> (a: u128)
        ensures
            a == self.atomics,
    {
        self.atomics
    }

    pub fn is_zero(&self) -> (b: bool)
        ensures
            b == (self.atomics == 0),
    {
        self.atomics == 0
    }

    pub open spec fn spec_from_uint(amount: u128) -> Result<Decimal, Fault> {
        if amount * SCALING_FACTOR > u128::MAX {
            Err(Fault::DecimalRangeExceeded)
        } else {
            Ok(Decimal { atomics: (amount * SCALING_FACTOR) as u128 })
        }
    }

    /// The whole number `amount` as a decimal, or `DecimalRangeExceeded` where
    /// it is too large to be written with eighteen fractional digits.
    pub fn from_uint(amount: u128) -> (r: Result<Decimal, ContractError>)
        ensures
            outcome(r) == Self::spec_from_uint(amount),
    {
        match amount.checked_mul(SCALING_FACTOR) {
            Some(atomics) => Ok(Decimal { atomics }),
            None => Err(ContractError::DecimalRangeExceeded),
        }
    }

    /// The whole part.
    pub fn to_uint_floor(&self) -> (n: u128)
        ensures
            n == self.atomics / SCALING_FACTOR,
    {
        self.atomics / SCALING_FACTOR
    }

    pub open spec fn spec_checked_add(self, other: Decimal) -> Result<Decimal, Fault> {
        if self.atomics + other.atomics > u128::MAX {
            Err(Fault::Overflow)
        } else {
            Ok(Decimal { atomics: (self.atomics + other.atomics) as u128 })
        }
    }

    pub fn checked_add(&self, other: Decimal) -> (r: Result<Decimal, ContractError>)
        ensures
            outcome(r) == self.spec_checked_add(other),
    {
        match self.atomics.checked_add(other.atomics) {
            Some(atomics) => Ok(Decimal { atomics }),
            None => Err(ContractError::Overflow),
        }
    }

    pub open spec fn spec_checked_sub(self, other: Decimal) -> Result<Decimal, Fault> {
        if self.atomics < other.atomics {
            Err(Fault::Underflow)
        } else {
            Ok(Decimal { atomics: (self.atomics - other.atomics) as u128 })
        }
    }

    pub fn checked_sub(&self, other: Decimal) -> (r: Result<Decimal, ContractError>)
        ensures
            outcome(r) == self.spec_checked_sub(other),
    {
        match self.atomics.checked_sub(other.atomics) {
            Some(atomics) => Ok(Decimal { atomics }),
            None => Err(ContractError::Underflow),
        }
    }
}

/// Sum of two amounts, or `Overflow`.
pub open spec fn spec_add(a: u128, b: u128) -> Result<u128, Fault> {
    if a + b > u128::MAX {
        Err(Fault::Overflow)
    } else {
        Ok((a + b) as u128)
    }
}

/// Difference of two amounts, or `Underflow`.
pub open spec fn spec_sub(a: u128, b: u128) -> Result<u128, Fault> {
    if a < b {
        Err(Fault::Underflow)
    } else {
        Ok((a - b) as u128)
    }
}

/// Product of two amounts, or `Overflow`.
pub open spec fn spec_mul(a: u128, b: u128) -> Result<u128, Fault> {
    if a * b > u128::MAX {
        Err(Fault::Overflow)
    } else {
        Ok((a * b) as u128)
    }
}

/// Quotient of two amounts, rounded down, or `DivideByZero`.
pub open spec fn spec_div(a: u128, b: u128) -> Result<u128, Fault> {
    if b == 0 {
        Err(Fault::DivideByZero)
    } else {
        Ok(a / b)
    }
}

pub fn checked_add(a: u128, b: u128) -> (r: Result<u128, ContractError>)
    ensures
        outcome(r) == spec_add(a, b),
{
    match a.checked_add(b) {
        Some(v) => Ok(v),
        None => Err(ContractError::Overflow),
    }
}

pub fn checked_sub(a: u128, b: u128) -> (r: Result<u128, ContractError>)
    ensures
        outcome(r) == spec_sub(a, b),
{
    match a.checked_sub(b) {
        Some(v) => Ok(v),
        None => Err(ContractError::Underflow),
    }
}

pub fn checked_mul(a: u128, b: u128) -> (r: Result<u128, ContractError>)
    ensures
        outcome(r) == spec_mul(a, b),
{
    match a.checked_mul(b) {
        Some(v) => Ok(v),
        None => Err(ContractError::Overflow),
    }
}

pub fn checked_div(a: u128, b: u128) -> (r: Result<u128, ContractError>)
    ensures
        outcome(r) == spec_div(a, b),
{
    if b == 0 {
        Err(ContractError::DivideByZero)
    } else {
        Ok(a / b)
    }
}

/// The share price at which `total_shares` units of principal are worth
/// `amount`: the ratio of the two, to eighteen digits, rounded down.
pub open spec fn spec_usdc_to_share_price(amount: u128, total_shares: u128) -> Result<
    Decimal,
    Fault,
> {
    if amount * SCALING_FACTOR > u128::MAX {
        Err(Fault::Overflow)
    } else if total_shares == 0 {
        Err(Fault::DivideByZero)
    } else {
        Ok(Decimal { atomics: (amount * SCALING_FACTOR / (total_shares as int)) as u128 })
    }
}

/// Converts an amount spread over `total_shares` into a share price.
///
/// `Overflow` where the scaled amount leaves 128 bits, and `DivideByZero`
/// where there are no shares: a caller with an empty tranche guards first.
pub fn usdc_to_share_price(amount: u128, total_shares: u128) -> (r: Result<
    Decimal,
    ContractError,
>)
    ensures
        outcome(r) == spec_usdc_to_share_price(amount, total_shares),
{
    let scaled: u128 = checked_mul(amount, SCALING_FACTOR)?;
    let atomics: u128 = checked_div(scaled, total_shares)?;
    Ok(Decimal { atomics })
}

/// The value of `total_shares` units of principal at `share_price`, rounded
/// down to a whole amount.
pub open spec fn spec_share_price_to_usdc(share_price: Decimal, total_shares: u128) -> Result<
    u128,
    Fault,
> {
    spec_multiply_ratio(share_price.atomics as int, total_shares as int, SCALING_FACTOR as int)
}

/// Converts a share price back into an amount: the price times the shares,
/// rounded down, so that the dust of a division never leaves the pool.
pub fn share_price_to_usdc(share_price: Decimal, total_shares: u128) -> (r: Result<
    u128,
    ContractError,
>)
    ensures
        outcome(r) == spec_share_price_to_usdc(share_price, total_shares),
{
    checked_multiply_ratio(share_price.atomics, total_shares, SCALING_FACTOR)
}

/// `share_price * numerator / denominator`, rounded down once.
pub open spec fn spec_scale_by_fraction(
    share_price: Decimal,
    numerator: u128,
    denominator: u128,
) -> Result<Decimal, Fault> {
    match spec_multiply_ratio(share_price.atomics as int, numerator as int, denominator as int) {
        Ok(atomics) => Ok(Decimal { atomics }),
        Err(e) => Err(e),
    }
}

/// Scales a value by the fraction `numerator / denominator`.
pub fn scale_by_fraction(share_price: Decimal, numerator: u128, denominator: u128) -> (r: Result<
    Decimal,
    ContractError,
>)
    ensures
        outcome(r) == spec_scale_by_fraction(share_price, numerator, denominator),
{
    let atomics: u128 = checked_multiply_ratio(share_price.atomics, numerator, denominator)?;
    Ok(Decimal { atomics })
}

/// The part of `amount_remaining` that goes to raise a share price: all of
/// it, up to `desired_amount`.
pub open spec fn spec_applied(amount_remaining: u128, desired_amount: u128) -> u128 {
    if amount_remaining < desired_amount {
        amount_remaining
    } else {
        desired_amount
    }
}

pub open spec fn spec_apply_to_share_price(
    amount_remaining: u128,
    current_share_price: Decimal,
    desired_amount: u128,
    total_shares: u128,
) -> Result<(u128, Decimal), Fault> {
    if amount_remaining == 0 || desired_amount == 0 {
        Ok((amount_remaining, current_share_price))
    } else {
        let applied = spec_applied(amount_remaining, desired_amount);
        match spec_usdc_to_share_price(applied, total_shares) {
            Err(e) => Err(e),
            Ok(diff) => match current_share_price.spec_checked_add(diff) {
                Err(e) => Err(e),
                Ok(price) => Ok(((amount_remaining - applied) as u128, price)),
            },
        }
    }
}

/// Pays up to `desired_amount` out of `amount_remaining` into a tranche of
/// `total_shares`, and returns what is left with the raised share price.
///
/// Nothing is paid, and no share is needed, where either amount is zero. The
/// price never falls, and what is left and what was paid add up to
/// `amount_remaining`.
pub fn apply_to_share_price(
    amount_remaining: u128,
    current_share_price: Decimal,
    desired_amount: u128,
    total_shares: u128,
) -> (r: Result<(u128, Decimal), ContractError>)
    ensures
        outcome(r) == spec_apply_to_share_price(
            amount_remaining,
            current_share_price,
            desired_amount,
            total_shares,
        ),
        r matches Ok((left, price)) ==> {
            &&& left + spec_applied(amount_remaining, desired_amount) == amount_remaining
            &&& price.atomics >= current_share_price.atomics
        },
{
    if amount_remaining == 0 || desired_amount == 0 {
        return Ok((amount_remaining, current_share_price));
    }
    let applied: u128 = if amount_remaining < desired_amount {
        amount_remaining
    } else {
        desired_amount
    };
    let share_price_diff = usdc_to_share_price(applied, total_shares)?;
    let price = current_share_price.checked_add(share_price_diff)?;
    Ok((amount_remaining - applied, price))
}

pub open spec fn spec_desired_amount_from_share_price(
    desired_share_price: Decimal,
    actual_share_price: Decimal,
    total_shares: u128,
) -> Result<u128, Fault> {
    if desired_share_price.atomics < actual_share_price.atomics {
        Ok(0)
    } else {
        spec_share_price_to_usdc(
            Decimal { atomics: (desired_share_price.atomics - actual_share_price.atomics) as u128 },
            total_shares,
        )
    }
}

/// The amount that lifts a tranche of `total_shares` from the actual share
/// price to the desired one; zero where the price is already there or above.
pub fn desired_amount_from_share_price(
    desired_share_price: Decimal,
    actual_share_price: Decimal,
    total_shares: u128,
) -> (r: Result<u128, ContractError>)
    ensures
        outcome(r) == spec_desired_amount_from_share_price(
            desired_share_price,
            actual_share_price,
            total_shares,
        ),
{
    let target = if desired_share_price.atomics < actual_share_price.atomics {
        actual_share_price
    } else {
        desired_share_price
    };
    let share_price_diff = target.checked_sub(actual_share_price)?;
    proof {
        assert(0 * (total_shares as int) == 0) by (nonlinear_arith);
    }
    share_price_to_usdc(share_price_diff, total_shares)
}

} // verus!
