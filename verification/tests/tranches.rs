use tranche_pool::error::ContractError;
use tranche_pool::implementation::ApplyResult;
use tranche_pool::math::{Decimal, SCALING_FACTOR};
use tranche_pool::state::{InvestorToken, LendInfo, PoolSlice, TrancheInfo};
use tranche_pool::timestamp::Timestamp;

const E18: u128 = 1_000_000_000_000_000_000;

/// A slice with 3000 in its junior and 1000 in its senior tranche.
fn funded_slice() -> PoolSlice {
    let mut slice = PoolSlice::new(0).unwrap();
    slice.junior_tranche.principal_deposited = 3000;
    slice.senior_tranche.principal_deposited = 1000;
    slice
}

/// The funded slice after half of its funds were drawn, with 400 of interest
/// accrued on it.
fn drawn_slice() -> PoolSlice {
    let mut slice = funded_slice();
    slice.junior_tranche.principal_share_price = Decimal::new(499_999_999_999_999_999);
    slice.senior_tranche.principal_share_price = Decimal::new(E18 / 2);
    slice.principal_deployed = 2000;
    slice.total_interest_accrued = 400;
    slice
}

fn token(deposited: u128, principal_redeemed: u128, interest_redeemed: u128) -> InvestorToken {
    InvestorToken {
        token_id: 1,
        pool_id: 1,
        tranche_id: 0,
        lend_info: LendInfo { principal_deposited: deposited, principal_redeemed, interest_redeemed },
    }
}

#[test]
fn new_slice_numbers_its_tranches() {
    let first = PoolSlice::new(0).unwrap();
    assert_eq!(first.junior_tranche.id, 0);
    assert_eq!(first.senior_tranche.id, 1);
    let fourth = PoolSlice::new(3).unwrap();
    assert_eq!(fourth.junior_tranche.id, 6);
    assert_eq!(fourth.senior_tranche.id, 7);
    for tranche in [fourth.junior_tranche, fourth.senior_tranche] {
        assert_eq!(tranche.principal_deposited, 0);
        assert_eq!(tranche.principal_share_price, Decimal::one());
        assert_eq!(tranche.principal_share_price.atomics(), SCALING_FACTOR);
        assert_eq!(tranche.interest_share_price, Decimal::zero());
        assert_eq!(tranche.locked_until, Timestamp::default());
    }
    assert_eq!(fourth.total_interest_accrued, 0);
    assert_eq!(fourth.principal_deployed, 0);
    assert!(!fourth.junior_tranche.is_senior_tranche());
    assert!(fourth.senior_tranche.is_senior_tranche());
}

#[test]
fn new_slice_with_an_index_too_large_overflows() {
    assert!(PoolSlice::new((u64::MAX - 1) / 2).is_ok());
    assert_eq!(PoolSlice::new((u64::MAX - 1) / 2 + 1), Err(ContractError::Overflow));
    assert_eq!(PoolSlice::new(u64::MAX), Err(ContractError::Overflow));
}

#[test]
fn deposited_adds_both_tranches() {
    assert_eq!(funded_slice().deposited(), Ok(4000));
    let mut slice = funded_slice();
    slice.junior_tranche.principal_deposited = u128::MAX;
    assert_eq!(slice.deposited(), Err(ContractError::Overflow));
}

#[test]
fn slice_is_locked_with_its_senior_tranche() {
    let mut slice = funded_slice();
    assert!(!slice.is_locked());
    slice.junior_tranche.lock_tranche(Timestamp::from_nanos(5), 10).unwrap();
    assert!(!slice.is_locked());
    slice.senior_tranche.lock_tranche(Timestamp::from_nanos(5), 10).unwrap();
    assert!(slice.is_locked());
    assert_eq!(slice.senior_tranche.locked_until, Timestamp::from_nanos(10_000_000_005));
}

#[test]
fn lock_beyond_the_range_of_timestamps_overflows() {
    let mut tranche = funded_slice().junior_tranche;
    let before = tranche;
    assert_eq!(
        tranche.lock_tranche(Timestamp::from_nanos(u64::MAX), 1),
        Err(ContractError::Overflow)
    );
    assert_eq!(tranche, before);
}

#[test]
fn expected_share_price_is_scaled_by_ownership() {
    let slice = funded_slice();
    // 1000 / 3000 = 0.333333333333333333, times 3000 / 4000
    assert_eq!(
        slice.junior_tranche.expected_share_price(1000, &slice),
        Ok(Decimal::new(249_999_999_999_999_999))
    );
    // 1000 / 1000 = 1, times 1000 / 4000
    assert_eq!(
        slice.senior_tranche.expected_share_price(1000, &slice),
        Ok(Decimal::new(E18 / 4))
    );
    assert_eq!(
        slice.senior_tranche.scale_by_percent_ownership(Decimal::one(), &slice),
        Ok(Decimal::new(E18 / 4))
    );
}

#[test]
fn expected_share_price_of_an_empty_tranche_is_zero() {
    let mut slice = funded_slice();
    slice.senior_tranche.principal_deposited = 0;
    assert_eq!(slice.senior_tranche.expected_share_price(1000, &slice), Ok(Decimal::zero()));
    // alone in the slice, the junior tranche expects all of the amount
    assert_eq!(
        slice.junior_tranche.expected_share_price(1500, &slice),
        Ok(Decimal::new(E18 / 2))
    );
}

#[test]
fn apply_by_amount_pays_each_kind_up_to_its_desired_amount() {
    let mut tranche = funded_slice().senior_tranche;
    assert_eq!(tranche.apply_by_amount(100, 50, 40, 80), Ok((60, 0)));
    assert_eq!(tranche.interest_share_price, Decimal::new(40 * E18 / 1000));
    assert_eq!(tranche.principal_share_price, Decimal::new(E18 + 50 * E18 / 1000));
    assert_eq!(tranche.principal_deposited, 1000);
}

#[test]
fn apply_by_amount_fails_as_a_whole() {
    let mut tranche = funded_slice().senior_tranche;
    tranche.principal_share_price = Decimal::new(u128::MAX);
    let before = tranche;
    // the interest could be paid, the principal price overflows
    assert_eq!(tranche.apply_by_amount(100, 50, 40, 80), Err(ContractError::Overflow));
    assert_eq!(tranche, before);
}

#[test]
fn apply_by_share_price_pays_up_to_the_desired_prices() {
    let mut tranche = funded_slice().senior_tranche;
    // 0.1 on 1000 shares asks for 100 of interest; the principal price is there already
    assert_eq!(
        tranche.apply_by_share_price(30, 500, Decimal::new(E18 / 10), Decimal::one()),
        Ok((0, 500))
    );
    assert_eq!(tranche.interest_share_price, Decimal::new(30 * E18 / 1000));
    assert_eq!(tranche.principal_share_price, Decimal::one());
    assert_eq!(
        tranche.apply_by_share_price(500, 0, Decimal::new(E18 / 10), Decimal::zero()),
        Ok((430, 0))
    );
    assert_eq!(tranche.interest_share_price, Decimal::new(E18 / 10));
}

#[test]
fn senior_step_takes_fees_off_the_top() {
    let mut slice = drawn_slice();
    let done = slice.apply_to_senior_tranche(400, 1000, 2000, 1000, 3000).unwrap();
    assert_eq!(
        done,
        ApplyResult {
            interest_remaining: 290,
            principal_remaining: 750,
            reserve_deduction: 40,
            interest_applied: 70,
            principal_applied: 250,
        }
    );
    assert_eq!(slice.senior_tranche.interest_share_price, Decimal::new(7 * E18 / 100));
    assert_eq!(slice.senior_tranche.principal_share_price, Decimal::new(75 * E18 / 100));
    assert_eq!(slice.junior_tranche, drawn_slice().junior_tranche);
}

#[test]
fn junior_step_takes_everything_that_is_left() {
    let mut slice = drawn_slice();
    let done = slice.apply_to_junior_tranche(290, 750, 2000, 1000, 3000).unwrap();
    assert_eq!(
        done,
        ApplyResult {
            interest_remaining: 0,
            principal_remaining: 0,
            reserve_deduction: 0,
            interest_applied: 290,
            principal_applied: 750,
        }
    );
    assert_eq!(slice.junior_tranche.interest_share_price, Decimal::new(96_666_666_666_666_666));
    assert_eq!(slice.junior_tranche.principal_share_price, Decimal::new(749_999_999_999_999_999));
    assert_eq!(slice.senior_tranche, drawn_slice().senior_tranche);
}

#[test]
fn junior_step_books_surplus_principal_as_interest_less_the_reserve_fee() {
    let mut slice = drawn_slice();
    let done = slice.apply_to_junior_tranche(0, 1000, 2000, 1000, 3000).unwrap();
    assert_eq!(
        done,
        ApplyResult {
            interest_remaining: 0,
            principal_remaining: 0,
            reserve_deduction: 25,
            interest_applied: 225,
            principal_applied: 750,
        }
    );
    assert_eq!(slice.junior_tranche.interest_share_price, Decimal::new(75 * E18 / 1000));
}

#[test]
fn waterfall_steps_neither_create_nor_destroy() {
    for interest in [0u128, 1, 7, 400, 12_345] {
        for principal in [0u128, 3, 1000, 99_999] {
            for (junior_fee, reserve_fee) in [(0u16, 0u16), (2000, 1000), (9999, 1), (0, 10000)] {
                let mut slice = drawn_slice();
                let senior = slice
                    .apply_to_senior_tranche(interest, principal, junior_fee, reserve_fee, 3000)
                    .unwrap();
                assert_eq!(
                    senior.interest_remaining + senior.principal_remaining
                        + senior.reserve_deduction + senior.interest_applied
                        + senior.principal_applied,
                    interest + principal
                );
                let junior = slice
                    .apply_to_junior_tranche(
                        senior.interest_remaining,
                        senior.principal_remaining,
                        junior_fee,
                        reserve_fee,
                        3000,
                    )
                    .unwrap();
                assert_eq!(junior.interest_remaining, 0);
                assert_eq!(junior.principal_remaining, 0);
                assert_eq!(
                    senior.reserve_deduction + senior.interest_applied + senior.principal_applied
                        + junior.reserve_deduction + junior.interest_applied
                        + junior.principal_applied,
                    interest + principal
                );
                let before = drawn_slice();
                for (old, new) in [
                    (before.junior_tranche, slice.junior_tranche),
                    (before.senior_tranche, slice.senior_tranche),
                ] {
                    assert!(new.principal_share_price >= old.principal_share_price);
                    assert!(new.interest_share_price >= old.interest_share_price);
                    assert_eq!(new.principal_deposited, old.principal_deposited);
                }
            }
        }
    }
}

#[test]
fn fees_of_more_than_all_are_refused() {
    let mut slice = drawn_slice();
    assert_eq!(
        slice.apply_to_senior_tranche(400, 1000, 9000, 1001, 3000),
        Err(ContractError::Underflow)
    );
    assert_eq!(
        slice.apply_to_junior_tranche(400, 1000, 0, 10001, 3000),
        Err(ContractError::Underflow)
    );
    assert_eq!(slice, drawn_slice());
}

#[test]
fn empty_junior_tranche_can_take_nothing() {
    let mut slice = drawn_slice();
    slice.junior_tranche.principal_deposited = 0;
    let before = slice;
    assert_eq!(
        slice.apply_to_junior_tranche(10, 0, 2000, 1000, 3000),
        Err(ContractError::DivideByZero)
    );
    assert_eq!(slice, before);
    let done = slice.apply_to_junior_tranche(0, 0, 2000, 1000, 3000).unwrap();
    assert_eq!(done.interest_applied + done.principal_applied + done.reserve_deduction, 0);
    assert_eq!(slice, before);
}

#[test]
fn redeemable_is_the_value_of_the_deposit_less_what_was_redeemed() {
    let tranche = TrancheInfo {
        id: 0,
        principal_deposited: 10_000_000_000,
        principal_share_price: Decimal::new(E18 / 2),
        interest_share_price: Decimal::new(4_144_608_000_000_000),
        locked_until: Timestamp::from_nanos(1),
    };
    assert_eq!(
        tranche.redeemable_interest_and_amount(&token(10_000_000_000, 0, 0)),
        Ok((41_446_080, 5_000_000_000))
    );
    assert_eq!(
        tranche.redeemable_interest_and_amount(&token(10_000_000_000, 1_000_000_000, 40_000_000)),
        Ok((1_446_080, 4_000_000_000))
    );
    assert_eq!(
        tranche.redeemable_interest_and_amount(&token(3, 0, 0)),
        Ok((0, 1))
    );
    assert_eq!(
        tranche.redeemable_interest_and_amount(&token(10_000_000_000, 5_000_000_001, 0)),
        Err(ContractError::Underflow)
    );
    assert_eq!(
        tranche.redeemable_interest_and_amount(&token(10_000_000_000, 0, 41_446_081)),
        Err(ContractError::Underflow)
    );
}

#[test]
fn redeemable_stays_within_the_value_of_the_deposit() {
    let prices = [0u128, 1, E18 / 3, E18 / 2, E18, 3 * E18 + 7];
    for interest_price in prices {
        for principal_price in prices {
            for deposit in [0u128, 1, 3, 999, 10_000_000_000] {
                let tranche = TrancheInfo {
                    id: 2,
                    principal_deposited: deposit,
                    principal_share_price: Decimal::new(principal_price),
                    interest_share_price: Decimal::new(interest_price),
                    locked_until: Timestamp::default(),
                };
                let (interest, principal) =
                    tranche.redeemable_interest_and_amount(&token(deposit, 0, 0)).unwrap();
                let combined = Decimal::new(interest_price + principal_price);
                let value =
                    tranche_pool::math::share_price_to_usdc(combined, deposit).unwrap();
                assert!(interest + principal <= value);
            }
        }
    }
}
