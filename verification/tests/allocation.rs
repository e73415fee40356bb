use tranche_pool::error::ContractError;
use tranche_pool::helpers::{
    apply_to_all_slices, apply_to_junior_tranches, apply_to_senior_tranches, get_tranche_info,
    find_tranche, initialize_next_slice, scale_for_slice, RepaymentAllocation,
};
use tranche_pool::math::Decimal;
use tranche_pool::state::{CreditLine, PaymentFrequency, PoolSlice};
use tranche_pool::timestamp::Timestamp;

const E18: u128 = 1_000_000_000_000_000_000;
const T0: u64 = 1_571_797_419_879_305_533;

fn now() -> Timestamp {
    Timestamp::from_nanos(T0)
}

fn undrawn_line() -> CreditLine {
    CreditLine::new(
        1_000_000_000_000,
        31_536_000,
        1_209_600,
        604_800,
        7_776_000,
        500,
        1000,
        2000,
        PaymentFrequency::Monthly,
        PaymentFrequency::Monthly,
        now(),
    )
}

fn slice(index: u64, junior: u128, senior: u128, deployed: u128) -> PoolSlice {
    let mut slice = PoolSlice::new(index).unwrap();
    slice.junior_tranche.principal_deposited = junior;
    slice.senior_tranche.principal_deposited = senior;
    slice.principal_deployed = deployed;
    slice
}

fn check_not_lowered(before: &[PoolSlice], after: &[PoolSlice]) {
    assert_eq!(before.len(), after.len());
    for (old, new) in before.iter().zip(after.iter()) {
        for (old, new) in [
            (old.junior_tranche, new.junior_tranche),
            (old.senior_tranche, new.senior_tranche),
        ] {
            assert!(new.principal_share_price >= old.principal_share_price);
            assert!(new.interest_share_price >= old.interest_share_price);
            assert_eq!(new.id, old.id);
            assert_eq!(new.principal_deposited, old.principal_deposited);
            assert_eq!(new.locked_until, old.locked_until);
        }
        assert_eq!(new.total_interest_accrued, old.total_interest_accrued);
        assert_eq!(new.principal_deployed, old.principal_deployed);
    }
}

#[test]
fn scale_for_slice_is_the_fraction_rounded_down() {
    let one_third = slice(0, 100, 0, 1);
    assert_eq!(scale_for_slice(&one_third, 10, 3), Ok(3));
    assert_eq!(scale_for_slice(&one_third, 3, 3), Ok(1));
    assert_eq!(scale_for_slice(&one_third, 2, 3), Ok(0));
    let two_thirds = slice(0, 100, 0, 2);
    assert_eq!(scale_for_slice(&two_thirds, 10, 3), Ok(6));
    let all = slice(0, 100, 0, 5_000_000_000);
    assert_eq!(scale_for_slice(&all, 46_051_200, 5_000_000_000), Ok(46_051_200));
    let nothing = slice(0, 100, 0, 0);
    assert_eq!(scale_for_slice(&nothing, 46_051_200, 5_000_000_000), Ok(0));
}

#[test]
fn scale_for_slice_errors() {
    let part = slice(0, 100, 0, 1);
    assert_eq!(scale_for_slice(&part, 10, 0), Err(ContractError::DivideByZero));
    assert_eq!(
        scale_for_slice(&part, u128::MAX, 3),
        Err(ContractError::DecimalRangeExceeded)
    );
    let more_than_all = slice(0, 100, 0, 1_000);
    assert_eq!(
        scale_for_slice(&more_than_all, 340_282_366_920_938_463_463, 1),
        Err(ContractError::Overflow)
    );
}

#[test]
fn repayment_on_one_junior_slice() {
    let mut slices = vec![slice(0, 10_000_000_000, 0, 5_000_000_000)];
    slices[0].junior_tranche.principal_share_price = Decimal::new(E18 / 2);
    slices[0].total_interest_accrued = 46_051_200;
    let before = slices.clone();
    let allocation = apply_to_all_slices(
        &mut slices,
        46_051_200,
        0,
        1000,
        5_000_000_000,
        2000,
        &undrawn_line(),
        now(),
    )
    .unwrap();
    assert_eq!(
        allocation,
        RepaymentAllocation {
            interest_to_slices: 41_446_080,
            principal_to_slices: 0,
            reserve_deduction: 4_605_120,
        }
    );
    assert_eq!(
        slices[0].junior_tranche.interest_share_price,
        Decimal::new(4_144_608_000_000_000)
    );
    assert_eq!(slices[0].junior_tranche.principal_share_price, Decimal::new(E18 / 2));
    assert_eq!(slices[0].senior_tranche, before[0].senior_tranche);
    check_not_lowered(&before, &slices);
}

#[test]
fn rounding_dust_goes_to_the_reserve() {
    let mut slices = vec![slice(0, 100, 0, 1), slice(1, 100, 0, 2)];
    let before = slices.clone();
    let allocation =
        apply_to_all_slices(&mut slices, 10, 0, 1000, 3, 2000, &undrawn_line(), now()).unwrap();
    // the slices are handed 3 and 6 of the 10; the one that is left goes to the reserve
    assert_eq!(
        allocation,
        RepaymentAllocation { interest_to_slices: 9, principal_to_slices: 0, reserve_deduction: 1 }
    );
    assert_eq!(
        slices[0].junior_tranche.interest_share_price,
        Decimal::new(3 * E18 / 100)
    );
    assert_eq!(
        slices[1].junior_tranche.interest_share_price,
        Decimal::new(6 * E18 / 100)
    );
    check_not_lowered(&before, &slices);
}

#[test]
fn senior_pass_then_junior_pass() {
    let mut slices = vec![slice(0, 3000, 1000, 2000)];
    slices[0].junior_tranche.principal_share_price = Decimal::new(499_999_999_999_999_999);
    slices[0].senior_tranche.principal_share_price = Decimal::new(E18 / 2);
    slices[0].total_interest_accrued = 400;
    let mut line = undrawn_line();
    // 1000 were drawn and are no longer outstanding: the slices can expect them back
    line.borrow_info.total_borrowed = 2000;
    line.borrow_info.borrowed_amount = 1000;
    let senior =
        apply_to_senior_tranches(&mut slices, 400, 1000, 1000, 2000, 2000, &line, now()).unwrap();
    assert_eq!(senior.reserve_deduction, 40);
    assert_eq!(senior.interest_applied, 70);
    assert_eq!(senior.principal_applied, 250);
    assert_eq!(senior.interest_remaining, 290);
    assert_eq!(senior.principal_remaining, 750);
    assert_eq!(slices[0].senior_tranche.interest_share_price, Decimal::new(7 * E18 / 100));
    assert_eq!(slices[0].senior_tranche.principal_share_price, Decimal::new(75 * E18 / 100));
    let junior = apply_to_junior_tranches(
        &mut slices,
        senior.interest_remaining,
        senior.principal_remaining,
        2000,
        1000,
        2000,
        &line,
        now(),
    )
    .unwrap();
    assert_eq!(junior.interest_remaining, 0);
    assert_eq!(junior.principal_remaining, 0);
    assert_eq!(junior.reserve_deduction, 0);
    assert_eq!(junior.interest_applied, 290);
    assert_eq!(junior.principal_applied, 750);
    assert_eq!(
        slices[0].junior_tranche.interest_share_price,
        Decimal::new(96_666_666_666_666_666)
    );
    assert_eq!(
        slices[0].junior_tranche.principal_share_price,
        Decimal::new(749_999_999_999_999_999)
    );
}

#[test]
fn repayments_are_conserved_and_raise_no_price_falls() {
    let amounts = [0u128, 1, 2, 10, 999, 46_051_200, 1_000_000_007];
    let fees = [(0u16, 0u16), (2000, 1000), (0, 10000), (10000, 0), (1, 9999), (3333, 3333)];
    let layouts: [Vec<PoolSlice>; 4] = [
        vec![slice(0, 10_000_000_000, 0, 5_000_000_000)],
        vec![slice(0, 100, 50, 1), slice(1, 100, 0, 2)],
        vec![slice(0, 7, 3, 3), slice(1, 11, 13, 5), slice(2, 17, 0, 0)],
        vec![
            slice(0, 1_000, 4_000, 5_000),
            slice(1, 2_000, 8_000, 123),
            slice(2, 3_000, 9_000, 7),
            slice(3, 1, 1, 1),
            slice(4, 999, 1, 0),
        ],
    ];
    let mut succeeded = 0;
    for layout in layouts.iter() {
        let total_deployed: u128 = layout.iter().map(|s| s.principal_deployed).sum();
        for interest in amounts {
            for principal in amounts {
                for (junior_fee, reserve_fee) in fees {
                    let mut slices = layout.clone();
                    let result = apply_to_all_slices(
                        &mut slices,
                        interest,
                        principal,
                        reserve_fee,
                        total_deployed,
                        junior_fee,
                        &undrawn_line(),
                        now(),
                    );
                    match result {
                        Ok(allocation) => {
                            succeeded += 1;
                            assert_eq!(
                                allocation.interest_to_slices + allocation.principal_to_slices
                                    + allocation.reserve_deduction,
                                interest + principal
                            );
                            check_not_lowered(layout, &slices);
                        }
                        Err(_) => assert_eq!(&slices, layout),
                    }
                }
            }
        }
    }
    assert!(succeeded > 500);
}

#[test]
fn failed_allocation_leaves_the_slices_untouched() {
    // the second slice has an empty junior tranche and cannot take its part
    let mut slices = vec![slice(0, 100, 0, 1), slice(1, 0, 100, 2)];
    let before = slices.clone();
    assert_eq!(
        apply_to_all_slices(&mut slices, 10, 0, 1000, 3, 2000, &undrawn_line(), now()),
        Err(ContractError::DivideByZero)
    );
    assert_eq!(slices, before);
    // fees of more than one hundred percent
    assert_eq!(
        apply_to_all_slices(&mut slices, 10, 0, 6000, 3, 6000, &undrawn_line(), now()),
        Err(ContractError::Underflow)
    );
    // more deployed in the slices than in total: the parts exceed the payment
    assert_eq!(
        apply_to_all_slices(&mut slices, 10, 0, 1000, 2, 2000, &undrawn_line(), now()),
        Err(ContractError::Underflow)
    );
    // nothing deployed at all
    assert_eq!(
        apply_to_all_slices(&mut slices, 10, 0, 1000, 0, 2000, &undrawn_line(), now()),
        Err(ContractError::DivideByZero)
    );
    // the two amounts do not add up in 128 bits
    assert_eq!(
        apply_to_all_slices(&mut slices, u128::MAX, 1, 1000, 3, 2000, &undrawn_line(), now()),
        Err(ContractError::Overflow)
    );
    assert_eq!(slices, before);
}

#[test]
fn allocation_without_slices_sends_everything_to_the_reserve() {
    let mut slices: Vec<PoolSlice> = Vec::new();
    assert_eq!(
        apply_to_all_slices(&mut slices, 10, 5, 1000, 3, 2000, &undrawn_line(), now()),
        Ok(RepaymentAllocation {
            interest_to_slices: 0,
            principal_to_slices: 0,
            reserve_deduction: 15,
        })
    );
}

#[test]
fn tranches_are_found_by_id() {
    let mut slices = vec![slice(0, 1, 2, 0), slice(1, 3, 4, 0)];
    assert_eq!(find_tranche(0, &slices).unwrap().principal_deposited, 1);
    assert_eq!(find_tranche(1, &slices).unwrap().principal_deposited, 2);
    assert_eq!(find_tranche(2, &slices).unwrap().principal_deposited, 3);
    assert_eq!(find_tranche(3, &slices).unwrap().principal_deposited, 4);
    let out_of_range =
        ContractError::CustomError { msg: "tranche id exceeds range".to_string() };
    assert_eq!(find_tranche(4, &slices), Err(out_of_range.clone()));
    assert_eq!(get_tranche_info(u64::MAX, &mut slices).map(|t| *t), Err(out_of_range));
    get_tranche_info(3, &mut slices).unwrap().principal_deposited = 40;
    assert_eq!(slices[1].senior_tranche.principal_deposited, 40);
    assert_eq!(slices[1].junior_tranche.principal_deposited, 3);
    assert_eq!(slices[0], slice(0, 1, 2, 0));
}

#[test]
fn next_slice_needs_the_previous_one_locked() {
    let mut slices: Vec<PoolSlice> = Vec::new();
    assert_eq!(initialize_next_slice(&mut slices), Ok(()));
    assert_eq!(slices, vec![PoolSlice::new(0).unwrap()]);
    assert_eq!(
        initialize_next_slice(&mut slices),
        Err(ContractError::CustomError {
            msg: "All previous slices should be locked".to_string()
        })
    );
    assert_eq!(slices.len(), 1);
    for index in 1..5u64 {
        let last = slices.len() - 1;
        slices[last].senior_tranche.lock_tranche(now(), 10).unwrap();
        assert_eq!(initialize_next_slice(&mut slices), Ok(()));
        assert_eq!(slices[slices.len() - 1], PoolSlice::new(index).unwrap());
    }
    slices[4].senior_tranche.lock_tranche(now(), 10).unwrap();
    assert_eq!(slices.len(), 5);
    assert_eq!(initialize_next_slice(&mut slices), Err(ContractError::MaxSliceLimit));
    assert_eq!(slices.len(), 5);
}
