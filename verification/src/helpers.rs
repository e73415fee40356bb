//! How a repayment is spread over the slices of a pool.
//!
//! Each slice takes part in a payment in proportion to the capital that was
//! drawn from it. The senior tranches are paid first; what they leave is
//! spread over the junior tranches in the same proportion. Fees and the dust
//! of rounding go to the protocol reserve, so that every unit of a payment is
//! accounted for.

use crate::error::{ContractError, Fault, outcome, transition, transition_with};
use crate::implementation::{lemma_junior_step, lemma_senior_step, ApplyResult};
use crate::math::{
    checked_add, checked_sub, scale_by_fraction, spec_add, spec_scale_by_fraction, spec_sub,
    Decimal, SCALING_FACTOR,
};
use crate::msg::{CreatePoolMsg, MessageInfo};
use crate::state::{Config, CreditLine, KYCStatus, PoolSlice, TrancheInfo};
use crate::GRACE_PERIOD;
use crate::timestamp::Timestamp;
use vstd::arithmetic::div_mod::{lemma_div_denominator, lemma_div_multiples_vanish_quotient};
use vstd::prelude::*;

verus! {

/// Where a repayment went: into the share prices of the slices, as interest
/// and as principal, and to the protocol reserve.
#[derive(Clone, Copy, Debug, PartialEq, Eq, Structural)]
pub struct RepaymentAllocation {
    pub interest_to_slices: u128,
    pub principal_to_slices: u128,
    pub reserve_deduction: u128,
}

/// The running sums of one pass over the slices.
pub struct PassTotals {
    /// The parts of the interest handed to the slices so far.
    pub given_interest: u128,
    /// The parts of the principal handed to the slices so far.
    pub given_principal: u128,
    /// What the slices did with their parts, field by field.
    pub done: ApplyResult,
}

impl PassTotals {
    pub open spec fn zero() -> PassTotals {
        PassTotals {
            given_interest: 0,
            given_principal: 0,
            done: ApplyResult {
                interest_remaining: 0,
                principal_remaining: 0,
                reserve_deduction: 0,
                interest_applied: 0,
                principal_applied: 0,
            },
        }
    }

    pub open spec fn plus(self, interest_part: u128, principal_part: u128, step: ApplyResult)
        -> PassTotals {
        PassTotals {
            given_interest: (self.given_interest + interest_part) as u128,
            given_principal: (self.given_principal + principal_part) as u128,
            done: ApplyResult {
                interest_remaining: (self.done.interest_remaining + step.interest_remaining) as u128,
                principal_remaining: (self.done.principal_remaining
                    + step.principal_remaining) as u128,
                reserve_deduction: (self.done.reserve_deduction + step.reserve_deduction) as u128,
                interest_applied: (self.done.interest_applied + step.interest_applied) as u128,
                principal_applied: (self.done.principal_applied + step.principal_applied) as u128,
            },
        }
    }

    /// Everything handed out so far has been accounted for, and no more was
    /// handed out than the payment holds.
    pub open spec fn balanced(self, interest: u128, principal: u128) -> bool {
        &&& self.given_interest <= interest
        &&& self.given_principal <= principal
        &&& self.done.total() == self.given_interest + self.given_principal
    }

    /// What the pass reports: the sums over the slices, with the parts of the
    /// payment that rounding kept from every slice added to what remains.
    pub open spec fn report(self, interest: u128, principal: u128) -> ApplyResult {
        ApplyResult {
            interest_remaining: (interest - self.given_interest
                + self.done.interest_remaining) as u128,
            principal_remaining: (principal - self.given_principal
                + self.done.principal_remaining) as u128,
            ..self.done
        }
    }
}

/// The principal that the slices can expect back at `now`: what is owed and
/// unpaid, and what was drawn and is no longer outstanding.
pub open spec fn spec_principal_due(credit_line: CreditLine, now: Timestamp) -> Result<
    u128,
    Fault,
> {
    match credit_line.spec_principal_owed(now) {
        Err(e) => Err(e),
        Ok(owed) => match spec_sub(
            credit_line.borrow_info.total_borrowed,
            credit_line.borrow_info.borrowed_amount,
        ) {
            Err(e) => Err(e),
            Ok(returned) => spec_add(owed, returned),
        },
    }
}

fn principal_due(credit_line: &CreditLine, now: Timestamp) -> (r: Result<u128, ContractError>)
    ensures
        outcome(r) == spec_principal_due(*credit_line, now),
{
    let owed: u128 = credit_line.principal_owed(now)?;
    let returned: u128 = checked_sub(
        credit_line.borrow_info.total_borrowed,
        credit_line.borrow_info.borrowed_amount,
    )?;
    checked_add(owed, returned)
}

/// The part of `amount` that falls to `slice`: `amount` as a decimal, scaled
/// by the slice's part of the deployed capital, rounded down to a whole.
pub open spec fn spec_scale_for_slice(slice: PoolSlice, amount: u128, total_deployed: u128)
    -> Result<u128, Fault> {
    match Decimal::spec_from_uint(amount) {
        Err(e) => Err(e),
        Ok(whole) => match spec_scale_by_fraction(whole, slice.principal_deployed, total_deployed) {
            Err(e) => Err(e),
            Ok(part) => Ok(part.atomics / SCALING_FACTOR),
        },
    }
}

/// The part of `amount` that falls to `slice` by the capital deployed from
/// it: `amount * slice.principal_deployed / total_deployed`, rounded down.
///
/// `DecimalRangeExceeded` for an amount too large to be written as a
/// decimal, `DivideByZero` where nothing is deployed, `Overflow` where the
/// part, as a decimal, leaves 128 bits.
pub fn scale_for_slice(slice: &PoolSlice, amount: u128, total_deployed: u128) -> (r: Result<
    u128,
    ContractError,
>)
    ensures
        outcome(r) == spec_scale_for_slice(*slice, amount, total_deployed),
        r matches Ok(part) ==> part == amount * slice.principal_deployed / (total_deployed as int),
{
    let whole = Decimal::from_uint(amount)?;
    let part = scale_by_fraction(whole, slice.principal_deployed, total_deployed)?;
    proof {
        lemma_scale_for_slice(*slice, amount, total_deployed);
    }
    Ok(part.to_uint_floor())
}

/// Rounding down once is enough: the part of a slice, computed over decimals
/// and then rounded down to a whole, is the plain fraction rounded down.
pub proof fn lemma_scale_for_slice(slice: PoolSlice, amount: u128, total_deployed: u128)
    requires
        spec_scale_for_slice(slice, amount, total_deployed) is Ok,
    ensures
        spec_scale_for_slice(slice, amount, total_deployed) matches Ok(part) && part == amount
            * slice.principal_deployed / (total_deployed as int),
{
    let scale = SCALING_FACTOR as int;
    let a = amount as int;
    let d = slice.principal_deployed as int;
    let t = total_deployed as int;
    assert(a * scale * d == scale * (a * d)) by (nonlinear_arith);
    assert(0 <= a * d) by (nonlinear_arith)
        requires
            0 <= a,
            0 <= d,
    ;
    assert(0 <= scale * (a * d)) by (nonlinear_arith)
        requires
            0 <= a * d,
            0 < scale,
    ;
    lemma_div_denominator(scale * (a * d), t, scale);
    assert(t * scale == scale * t) by (nonlinear_arith);
    lemma_div_multiples_vanish_quotient(scale, a * d, t);
}

/// The principal share that `slice` should hold once `principal_due` has
/// come back: what was never drawn from it, and its part of what is due.
pub open spec fn spec_principal_accrued(slice: PoolSlice, principal_due: u128, total_deployed: u128)
    -> Result<u128, Fault> {
    match spec_scale_for_slice(slice, principal_due, total_deployed) {
        Err(e) => Err(e),
        Ok(part) => match slice.spec_deposited() {
            Err(e) => Err(e),
            Ok(deposited) => match spec_sub(deposited, slice.principal_deployed) {
                Err(e) => Err(e),
                Ok(undeployed) => spec_add(undeployed, part),
            },
        },
    }
}

/// One slice's turn in a pass: its parts of the interest and the principal
/// are computed, checked against what the payment still holds, and paid to
/// its senior tranche or, in the junior pass, to its junior tranche.
pub open spec fn spec_apply_step(
    slice: PoolSlice,
    so_far: PassTotals,
    senior: bool,
    interest: u128,
    principal: u128,
    reserve_fee_percent: u16,
    total_deployed: u128,
    junior_fee_percent: u16,
    principal_due: u128,
) -> Result<(PoolSlice, PassTotals), Fault> {
    match spec_principal_accrued(slice, principal_due, total_deployed) {
        Err(e) => Err(e),
        Ok(principal_accrued) => match spec_scale_for_slice(slice, interest, total_deployed) {
            Err(e) => Err(e),
            Ok(interest_part) => match spec_scale_for_slice(slice, principal, total_deployed) {
                Err(e) => Err(e),
                Ok(principal_part) => if so_far.given_interest + interest_part > interest
                    || so_far.given_principal + principal_part > principal {
                    Err(Fault::Underflow)
                } else {
                    let step = if senior {
                        slice.spec_apply_to_senior_tranche(
                            interest_part,
                            principal_part,
                            junior_fee_percent,
                            reserve_fee_percent,
                            principal_accrued,
                        )
                    } else {
                        slice.spec_apply_to_junior_tranche(
                            interest_part,
                            principal_part,
                            reserve_fee_percent,
                            principal_accrued,
                        )
                    };
                    match step {
                        Err(e) => Err(e),
                        Ok((settled, done)) => Ok(
                            (settled, so_far.plus(interest_part, principal_part, done)),
                        ),
                    }
                },
            },
        },
    }
}

/// A pass over the first `n` slices, in order: the slices as the pass leaves
/// them, and its running sums; or the first error met.
pub open spec fn spec_pass(
    slices: Seq<PoolSlice>,
    n: nat,
    senior: bool,
    interest: u128,
    principal: u128,
    reserve_fee_percent: u16,
    total_deployed: u128,
    junior_fee_percent: u16,
    principal_due: u128,
) -> Result<(Seq<PoolSlice>, PassTotals), Fault>
    decreases n,
{
    if n == 0 {
        Ok((Seq::empty(), PassTotals::zero()))
    } else {
        match spec_pass(
            slices,
            (n - 1) as nat,
            senior,
            interest,
            principal,
            reserve_fee_percent,
            total_deployed,
            junior_fee_percent,
            principal_due,
        ) {
            Err(e) => Err(e),
            Ok((settled, so_far)) => match spec_apply_step(
                slices[n - 1],
                so_far,
                senior,
                interest,
                principal,
                reserve_fee_percent,
                total_deployed,
                junior_fee_percent,
                principal_due,
            ) {
                Err(e) => Err(e),
                Ok((slice, totals)) => Ok((settled.push(slice), totals)),
            },
        }
    }
}

/// A whole pass: where the two amounts of the payment add up within 128
/// bits, the pass over all slices and its report.
pub open spec fn spec_apply_to_tranches(
    slices: Seq<PoolSlice>,
    senior: bool,
    interest: u128,
    principal: u128,
    reserve_fee_percent: u16,
    total_deployed: u128,
    junior_fee_percent: u16,
    principal_due: u128,
) -> Result<(Seq<PoolSlice>, ApplyResult), Fault> {
    if interest + principal > u128::MAX {
        Err(Fault::Overflow)
    } else {
        match spec_pass(
            slices,
            slices.len(),
            senior,
            interest,
            principal,
            reserve_fee_percent,
            total_deployed,
            junior_fee_percent,
            principal_due,
        ) {
            Err(e) => Err(e),
            Ok((settled, totals)) => Ok((settled, totals.report(interest, principal))),
        }
    }
}

/// What holds of every pass that succeeds on the first `n` slices: it leaves
/// as many slices as it was given, none with a lower share price and none
/// changed in anything but its share prices, and its sums are balanced.
pub proof fn lemma_pass(
    slices: Seq<PoolSlice>,
    n: nat,
    senior: bool,
    interest: u128,
    principal: u128,
    reserve_fee_percent: u16,
    total_deployed: u128,
    junior_fee_percent: u16,
    principal_due: u128,
)
    requires
        n <= slices.len(),
        interest + principal <= u128::MAX,
    ensures
        spec_pass(
            slices,
            n,
            senior,
            interest,
            principal,
            reserve_fee_percent,
            total_deployed,
            junior_fee_percent,
            principal_due,
        ) matches Ok((settled, totals)) ==> {
            &&& settled.len() == n
            &&& totals.balanced(interest, principal)
            &&& forall|i: int| 0 <= i < n ==> (#[trigger] slices[i]).prices_not_above(settled[i])
        },
    decreases n,
{
    if n > 0 {
        lemma_pass(
            slices,
            (n - 1) as nat,
            senior,
            interest,
            principal,
            reserve_fee_percent,
            total_deployed,
            junior_fee_percent,
            principal_due,
        );
        let slice = slices[n - 1];
        if let Ok(principal_accrued) = spec_principal_accrued(slice, principal_due, total_deployed) {
            if let Ok(interest_part) = spec_scale_for_slice(slice, interest, total_deployed) {
                if let Ok(principal_part) = spec_scale_for_slice(slice, principal, total_deployed) {
                    lemma_senior_step(
                        slice,
                        interest_part,
                        principal_part,
                        junior_fee_percent,
                        reserve_fee_percent,
                        principal_accrued,
                    );
                    lemma_junior_step(
                        slice,
                        interest_part,
                        principal_part,
                        reserve_fee_percent,
                        principal_accrued,
                    );
                }
            }
        }
    }
}

/// An error stops a pass: once the pass over the first `n` slices has failed,
/// the pass over more of them fails in the same way.
pub proof fn lemma_pass_stops(
    slices: Seq<PoolSlice>,
    n: nat,
    m: nat,
    senior: bool,
    interest: u128,
    principal: u128,
    reserve_fee_percent: u16,
    total_deployed: u128,
    junior_fee_percent: u16,
    principal_due: u128,
)
    requires
        n <= m,
        spec_pass(
            slices,
            n,
            senior,
            interest,
            principal,
            reserve_fee_percent,
            total_deployed,
            junior_fee_percent,
            principal_due,
        ) is Err,
    ensures
        spec_pass(
            slices,
            m,
            senior,
            interest,
            principal,
            reserve_fee_percent,
            total_deployed,
            junior_fee_percent,
            principal_due,
        ) == spec_pass(
            slices,
            n,
            senior,
            interest,
            principal,
            reserve_fee_percent,
            total_deployed,
            junior_fee_percent,
            principal_due,
        ),
    decreases m,
{
    if n < m {
        lemma_pass_stops(
            slices,
            n,
            (m - 1) as nat,
            senior,
            interest,
            principal,
            reserve_fee_percent,
            total_deployed,
            junior_fee_percent,
            principal_due,
        );
    }
}

fn apply_to_tranches(
    slices: &Vec<PoolSlice>,
    senior: bool,
    interest: u128,
    principal: u128,
    reserve_fee_percent: u16,
    total_deployed: u128,
    junior_fee_percent: u16,
    principal_due: u128,
) -> (r: Result<(Vec<PoolSlice>, ApplyResult), ContractError>)
    ensures
        match spec_apply_to_tranches(
            slices@,
            senior,
            interest,
            principal,
            reserve_fee_percent,
            total_deployed,
            junior_fee_percent,
            principal_due,
        ) {
            Ok((settled, done)) => r matches Ok((v, d)) && v@ == settled && d == done,
            Err(e) => r matches Err(x) && x@ == e,
        },
        r matches Ok((v, done)) ==> {
            &&& v.len() == slices.len()
            &&& done.total() == interest + principal
            &&& forall|i: int|
                0 <= i < slices.len() ==> (#[trigger] slices[i]).prices_not_above(v[i])
        },
{
    if interest > u128::MAX - principal {
        return Err(ContractError::Overflow);
    }
    let mut settled: Vec<PoolSlice> = Vec::new();
    let mut given_interest: u128 = 0;
    let mut given_principal: u128 = 0;
    let mut done = ApplyResult {
        interest_remaining: 0,
        principal_remaining: 0,
        reserve_deduction: 0,
        interest_applied: 0,
        principal_applied: 0,
    };
    let mut i: usize = 0;
    while i < slices.len()
        invariant
            i <= slices.len(),
            interest + principal <= u128::MAX,
            spec_pass(
                slices@,
                i as nat,
                senior,
                interest,
                principal,
                reserve_fee_percent,
                total_deployed,
                junior_fee_percent,
                principal_due,
            ) == Ok::<(Seq<PoolSlice>, PassTotals), Fault>(
                (settled@, PassTotals { given_interest, given_principal, done }),
            ),
        ensures
            i == slices.len(),
        decreases slices.len() - i,
    {
        let ghost so_far = PassTotals { given_interest, given_principal, done };
        proof {
            lemma_pass(
                slices@,
                i as nat,
                senior,
                interest,
                principal,
                reserve_fee_percent,
                total_deployed,
                junior_fee_percent,
                principal_due,
            );
            lemma_pass(
                slices@,
                (i + 1) as nat,
                senior,
                interest,
                principal,
                reserve_fee_percent,
                total_deployed,
                junior_fee_percent,
                principal_due,
            );
            if spec_apply_step(
                slices@[i as int],
                so_far,
                senior,
                interest,
                principal,
                reserve_fee_percent,
                total_deployed,
                junior_fee_percent,
                principal_due,
            ) is Err {
                lemma_pass_stops(
                    slices@,
                    (i + 1) as nat,
                    slices@.len(),
                    senior,
                    interest,
                    principal,
                    reserve_fee_percent,
                    total_deployed,
                    junior_fee_percent,
                    principal_due,
                );
            }
        }
        let mut slice: PoolSlice = slices[i];
        let part: u128 = scale_for_slice(&slice, principal_due, total_deployed)?;
        let deposited: u128 = slice.deposited()?;
        let undeployed: u128 = checked_sub(deposited, slice.principal_deployed)?;
        let principal_accrued: u128 = checked_add(undeployed, part)?;
        let interest_part: u128 = scale_for_slice(&slice, interest, total_deployed)?;
        let principal_part: u128 = scale_for_slice(&slice, principal, total_deployed)?;
        if interest_part > interest - given_interest || principal_part > principal
            - given_principal {
            return Err(ContractError::Underflow);
        }
        let step = if senior {
            slice.apply_to_senior_tranche(
                interest_part,
                principal_part,
                junior_fee_percent,
                reserve_fee_percent,
                principal_accrued,
            )?
        } else {
            slice.apply_to_junior_tranche(
                interest_part,
                principal_part,
                junior_fee_percent,
                reserve_fee_percent,
                principal_accrued,
            )?
        };
        given_interest = given_interest + interest_part;
        given_principal = given_principal + principal_part;
        done =
        ApplyResult {
            interest_remaining: done.interest_remaining + step.interest_remaining,
            principal_remaining: done.principal_remaining + step.principal_remaining,
            reserve_deduction: done.reserve_deduction + step.reserve_deduction,
            interest_applied: done.interest_applied + step.interest_applied,
            principal_applied: done.principal_applied + step.principal_applied,
        };
        settled.push(slice);
        i = i + 1;
    }
    proof {
        lemma_pass(
            slices@,
            slices@.len(),
            senior,
            interest,
            principal,
            reserve_fee_percent,
            total_deployed,
            junior_fee_percent,
            principal_due,
        );
    }
    let report = ApplyResult {
        interest_remaining: interest - given_interest + done.interest_remaining,
        principal_remaining: principal - given_principal + done.principal_remaining,
        reserve_deduction: done.reserve_deduction,
        interest_applied: done.interest_applied,
        principal_applied: done.principal_applied,
    };
    Ok((settled, report))
}

/// The senior pass over all slices of a pool.
pub open spec fn spec_apply_to_senior_tranches(
    slices: Seq<PoolSlice>,
    interest: u128,
    principal: u128,
    reserve_fee_percent: u16,
    total_deployed: u128,
    junior_fee_percent: u16,
    credit_line: CreditLine,
    now: Timestamp,
) -> Result<(Seq<PoolSlice>, ApplyResult), Fault> {
    match spec_principal_due(credit_line, now) {
        Err(e) => Err(e),
        Ok(due) => spec_apply_to_tranches(
            slices,
            true,
            interest,
            principal,
            reserve_fee_percent,
            total_deployed,
            junior_fee_percent,
            due,
        ),
    }
}

/// Pays the senior tranche of every slice its part of a payment.
///
/// Each slice is handed the part of `interest` and of `principal` that its
/// deployed capital makes of `total_deployed`, and pays its senior tranche
/// out of it. The result sums up what the slices applied and reserved; what
/// remains, the dust of rounding included, is for the junior tranches. The
/// five fields of the result add up to the payment. Slices change in their
/// senior share prices only, and these do not fall.
pub fn apply_to_senior_tranches(
    slices: &mut Vec<PoolSlice>,
    interest: u128,
    principal: u128,
    reserve_fee_percent: u16,
    total_deployed: u128,
    junior_fee_percent: u16,
    credit_line: &CreditLine,
    now: Timestamp,
) -> (r: Result<ApplyResult, ContractError>)
    ensures
        transition_with(
            old(slices)@,
            final(slices)@,
            r,
            spec_apply_to_senior_tranches(
                old(slices)@,
                interest,
                principal,
                reserve_fee_percent,
                total_deployed,
                junior_fee_percent,
                *credit_line,
                now,
            ),
        ),
        r matches Ok(done) ==> done.total() == interest + principal,
        prices_not_lowered(old(slices)@, final(slices)@),
{
    let due: u128 = principal_due(credit_line, now)?;
    let (settled, done) = apply_to_tranches(
        slices,
        true,
        interest,
        principal,
        reserve_fee_percent,
        total_deployed,
        junior_fee_percent,
        due,
    )?;
    *slices = settled;
    Ok(done)
}

/// The junior pass over all slices of a pool.
pub open spec fn spec_apply_to_junior_tranches(
    slices: Seq<PoolSlice>,
    interest: u128,
    principal: u128,
    junior_fee_percent: u16,
    reserve_fee_percent: u16,
    total_deployed: u128,
    credit_line: CreditLine,
    now: Timestamp,
) -> Result<(Seq<PoolSlice>, ApplyResult), Fault> {
    match spec_principal_due(credit_line, now) {
        Err(e) => Err(e),
        Ok(due) => spec_apply_to_tranches(
            slices,
            false,
            interest,
            principal,
            reserve_fee_percent,
            total_deployed,
            junior_fee_percent,
            due,
        ),
    }
}

/// Pays the junior tranche of every slice its part of what the senior
/// tranches left.
///
/// Each junior tranche takes all of its part, so what remains in the result
/// is only what rounding kept from every slice. The five fields of the result
/// add up to the payment. Slices change in their junior share prices only,
/// and these do not fall.
pub fn apply_to_junior_tranches(
    slices: &mut Vec<PoolSlice>,
    interest: u128,
    principal: u128,
    junior_fee_percent: u16,
    reserve_fee_percent: u16,
    total_deployed: u128,
    credit_line: &CreditLine,
    now: Timestamp,
) -> (r: Result<ApplyResult, ContractError>)
    ensures
        transition_with(
            old(slices)@,
            final(slices)@,
            r,
            spec_apply_to_junior_tranches(
                old(slices)@,
                interest,
                principal,
                junior_fee_percent,
                reserve_fee_percent,
                total_deployed,
                *credit_line,
                now,
            ),
        ),
        r matches Ok(done) ==> done.total() == interest + principal,
        prices_not_lowered(old(slices)@, final(slices)@),
{
    let due: u128 = principal_due(credit_line, now)?;
    let (settled, done) = apply_to_tranches(
        slices,
        false,
        interest,
        principal,
        reserve_fee_percent,
        total_deployed,
        junior_fee_percent,
        due,
    )?;
    *slices = settled;
    Ok(done)
}

/// The slices are the same in number, none has a lower share price than
/// before, and none differs from before in anything but its share prices.
pub open spec fn prices_not_lowered(before: Seq<PoolSlice>, after: Seq<PoolSlice>) -> bool {
    &&& after.len() == before.len()
    &&& forall|i: int| 0 <= i < before.len() ==> (#[trigger] before[i]).prices_not_above(after[i])
}

/// Both passes in turn: the senior pass on the payment, the junior pass on
/// what the senior pass left. What the junior pass leaves is the dust of
/// rounding, which goes to the reserve with the fees.
pub open spec fn spec_apply_to_all_slices(
    slices: Seq<PoolSlice>,
    interest: u128,
    principal: u128,
    reserve_fee: u16,
    total_deployed: u128,
    junior_fee_percent: u16,
    credit_line: CreditLine,
    now: Timestamp,
) -> Result<(Seq<PoolSlice>, RepaymentAllocation), Fault> {
    match spec_principal_due(credit_line, now) {
        Err(e) => Err(e),
        Ok(due) => match spec_apply_to_tranches(
            slices,
            true,
            interest,
            principal,
            reserve_fee,
            total_deployed,
            junior_fee_percent,
            due,
        ) {
            Err(e) => Err(e),
            Ok((first, senior)) => match spec_apply_to_tranches(
                first,
                false,
                senior.interest_remaining,
                senior.principal_remaining,
                reserve_fee,
                total_deployed,
                junior_fee_percent,
                due,
            ) {
                Err(e) => Err(e),
                Ok((second, junior)) => Ok(
                    (
                        second,
                        RepaymentAllocation {
                            interest_to_slices: (senior.interest_applied
                                + junior.interest_applied) as u128,
                            principal_to_slices: (senior.principal_applied
                                + junior.principal_applied) as u128,
                            reserve_deduction: (senior.reserve_deduction + junior.reserve_deduction
                                + junior.interest_remaining + junior.principal_remaining) as u128,
                        },
                    ),
                ),
            },
        },
    }
}

/// Spreads the interest and the principal of a repayment over all slices of
/// a pool, and returns where they went.
///
/// No value is created or destroyed: what went into the slices as interest
/// and as principal and what goes to the reserve add up to the payment. No
/// share price falls, and nothing else in a slice changes. On an error the
/// slices are left as they were.
pub fn apply_to_all_slices(
    slices: &mut Vec<PoolSlice>,
    interest: u128,
    principal: u128,
    reserve_fee: u16,
    total_deployed: u128,
    junior_fee_percent: u16,
    credit_line: &CreditLine,
    now: Timestamp,
) -> (r: Result<RepaymentAllocation, ContractError>)
    ensures
        transition_with(
            old(slices)@,
            final(slices)@,
            r,
            spec_apply_to_all_slices(
                old(slices)@,
                interest,
                principal,
                reserve_fee,
                total_deployed,
                junior_fee_percent,
                *credit_line,
                now,
            ),
        ),
        r matches Ok(allocation) ==> allocation.interest_to_slices + allocation.principal_to_slices
            + allocation.reserve_deduction == interest + principal,
        prices_not_lowered(old(slices)@, final(slices)@),
{
    let due: u128 = principal_due(credit_line, now)?;
    let (first, senior) = apply_to_tranches(
        slices,
        true,
        interest,
        principal,
        reserve_fee,
        total_deployed,
        junior_fee_percent,
        due,
    )?;
    let (second, junior) = apply_to_tranches(
        &first,
        false,
        senior.interest_remaining,
        senior.principal_remaining,
        reserve_fee,
        total_deployed,
        junior_fee_percent,
        due,
    )?;
    let allocation = RepaymentAllocation {
        interest_to_slices: senior.interest_applied + junior.interest_applied,
        principal_to_slices: senior.principal_applied + junior.principal_applied,
        reserve_deduction: senior.reserve_deduction + junior.reserve_deduction
            + junior.interest_remaining + junior.principal_remaining,
    };
    *slices = second;
    Ok(allocation)
}

/// What holds of every pass that succeeds: its report accounts for the whole
/// payment, and it lowers no share price.
pub proof fn lemma_apply_to_tranches(
    slices: Seq<PoolSlice>,
    senior: bool,
    interest: u128,
    principal: u128,
    reserve_fee_percent: u16,
    total_deployed: u128,
    junior_fee_percent: u16,
    principal_due: u128,
)
    ensures
        spec_apply_to_tranches(
            slices,
            senior,
            interest,
            principal,
            reserve_fee_percent,
            total_deployed,
            junior_fee_percent,
            principal_due,
        ) matches Ok((settled, done)) ==> done.total() == interest + principal
            && prices_not_lowered(slices, settled),
{
    if interest + principal <= u128::MAX {
        lemma_pass(
            slices,
            slices.len(),
            senior,
            interest,
            principal,
            reserve_fee_percent,
            total_deployed,
            junior_fee_percent,
            principal_due,
        );
    }
}

/// Conservation: whatever the rates and fees, a repayment that is spread
/// over the slices is accounted for to the last unit. What went into the
/// slices as interest, what went into them as principal and what goes to the
/// reserve add up to the interest and the principal of the payment.
pub proof fn lemma_repayment_conserved(
    slices: Seq<PoolSlice>,
    interest: u128,
    principal: u128,
    reserve_fee: u16,
    total_deployed: u128,
    junior_fee_percent: u16,
    credit_line: CreditLine,
    now: Timestamp,
)
    ensures
        spec_apply_to_all_slices(
            slices,
            interest,
            principal,
            reserve_fee,
            total_deployed,
            junior_fee_percent,
            credit_line,
            now,
        ) matches Ok((_, allocation)) ==> allocation.interest_to_slices
            + allocation.principal_to_slices + allocation.reserve_deduction == interest + principal,
{
    if let Ok(due) = spec_principal_due(credit_line, now) {
        lemma_apply_to_tranches(
            slices,
            true,
            interest,
            principal,
            reserve_fee,
            total_deployed,
            junior_fee_percent,
            due,
        );
        if let Ok((first, senior)) = spec_apply_to_tranches(
            slices,
            true,
            interest,
            principal,
            reserve_fee,
            total_deployed,
            junior_fee_percent,
            due,
        ) {
            lemma_apply_to_tranches(
                first,
                false,
                senior.interest_remaining,
                senior.principal_remaining,
                reserve_fee,
                total_deployed,
                junior_fee_percent,
                due,
            );
        }
    }
}

/// Monotonic share prices: a repayment that is spread over the slices leaves
/// every principal share price and every interest share price of every
/// tranche at or above what it was, and changes nothing else in a slice.
pub proof fn lemma_share_prices_monotonic(
    slices: Seq<PoolSlice>,
    interest: u128,
    principal: u128,
    reserve_fee: u16,
    total_deployed: u128,
    junior_fee_percent: u16,
    credit_line: CreditLine,
    now: Timestamp,
)
    ensures
        spec_apply_to_all_slices(
            slices,
            interest,
            principal,
            reserve_fee,
            total_deployed,
            junior_fee_percent,
            credit_line,
            now,
        ) matches Ok((after, _)) ==> prices_not_lowered(slices, after),
{
    if let Ok(due) = spec_principal_due(credit_line, now) {
        lemma_apply_to_tranches(
            slices,
            true,
            interest,
            principal,
            reserve_fee,
            total_deployed,
            junior_fee_percent,
            due,
        );
        if let Ok((first, senior)) = spec_apply_to_tranches(
            slices,
            true,
            interest,
            principal,
            reserve_fee,
            total_deployed,
            junior_fee_percent,
            due,
        ) {
            lemma_apply_to_tranches(
                first,
                false,
                senior.interest_remaining,
                senior.principal_remaining,
                reserve_fee,
                total_deployed,
                junior_fee_percent,
                due,
            );
        }
    }
}

/// The slice that holds tranche `tranche_id`: tranches `2k` and `2k + 1` are
/// the junior and the senior tranche of slice `k`.
pub open spec fn spec_slice_index(tranche_id: u64) -> int {
    tranche_id as int / 2
}

/// The tranche with the given id among `slices`, where there is one.
pub open spec fn spec_tranche_info(tranche_id: u64, slices: Seq<PoolSlice>) -> Result<
    TrancheInfo,
    Fault,
> {
    if spec_slice_index(tranche_id) >= slices.len() {
        Err(Fault::Custom("tranche id exceeds range"@))
    } else if tranche_id % 2 == 0 {
        Ok(slices[spec_slice_index(tranche_id)].junior_tranche)
    } else {
        Ok(slices[spec_slice_index(tranche_id)].senior_tranche)
    }
}

/// `slices` with the tranche of the given id replaced.
pub open spec fn spec_with_tranche(slices: Seq<PoolSlice>, tranche_id: u64, tranche: TrancheInfo)
    -> Seq<PoolSlice> {
    let index = spec_slice_index(tranche_id);
    if tranche_id % 2 == 0 {
        slices.update(index, PoolSlice { junior_tranche: tranche, ..slices[index] })
    } else {
        slices.update(index, PoolSlice { senior_tranche: tranche, ..slices[index] })
    }
}

/// A copy of the tranche with the given id.
pub fn find_tranche(tranche_id: u64, slices: &Vec<PoolSlice>) -> (r: Result<
    TrancheInfo,
    ContractError,
>)
    ensures
        outcome(r) == spec_tranche_info(tranche_id, slices@),
{
    let slice_index: u64 = tranche_id / 2;
    if slice_index >= slices.len() as u64 {
        return Err(ContractError::custom("tranche id exceeds range"));
    }
    if tranche_id % 2 == 0 {
        Ok(slices[slice_index as usize].junior_tranche)
    } else {
        Ok(slices[slice_index as usize].senior_tranche)
    }
}

/// The tranche with the given id, to read and to change: what the caller
/// leaves in it is what `slices` then holds in its place.
pub fn get_tranche_info(tranche_id: u64, slices: &mut Vec<PoolSlice>) -> (r: Result<
    &mut TrancheInfo,
    ContractError,
>)
    ensures
        match spec_tranche_info(tranche_id, old(slices)@) {
            Ok(tranche) => r matches Ok(found) && *found == tranche && final(slices)@
                == spec_with_tranche(old(slices)@, tranche_id, *final(found)),
            Err(e) => r matches Err(x) && x@ == e && final(slices)@ == old(slices)@,
        },
{
    let slice_index: u64 = tranche_id / 2;
    if slice_index >= slices.len() as u64 {
        return Err(ContractError::custom("tranche id exceeds range"));
    }
    Ok(
        if tranche_id % 2 == 0 {
            &mut slices[slice_index as usize].junior_tranche
        } else {
            &mut slices[slice_index as usize].senior_tranche
        },
    )
}

/// A message carries no funds where it names no coin, or one coin of amount
/// zero.
pub open spec fn spec_funds_empty(info: MessageInfo) -> bool {
    info.funds@.len() == 0 || (info.funds@.len() == 1 && info.funds@[0].amount == 0)
}

pub open spec fn spec_ensure_empty_funds(info: MessageInfo) -> Result<(), Fault> {
    if spec_funds_empty(info) {
        Ok(())
    } else {
        Err(Fault::FundsNotAllowed)
    }
}

/// Refuses a message that carries funds.
pub fn ensure_empty_funds(info: &MessageInfo) -> (r: Result<(), ContractError>)
    ensures
        outcome(r) == spec_ensure_empty_funds(*info),
{
    if info.funds.len() == 0 {
        return Ok(());
    }
    if info.funds.len() == 1 && info.funds[0].amount == 0 {
        return Ok(());
    }
    Err(ContractError::FundsNotAllowed)
}

/// An address has passed the identity check once its status is `Approved`.
pub fn has_kyc(status: KYCStatus) -> (approved: bool)
    ensures
        approved == (status == KYCStatus::Approved),
{
    match status {
        KYCStatus::Approved => true,
        _ => false,
    }
}

pub open spec fn spec_ensure_kyc(approved: bool) -> Result<(), Fault> {
    if approved {
        Ok(())
    } else {
        Err(Fault::Custom("non-KYC user"@))
    }
}

/// Refuses a user who has not passed the identity check.
pub fn ensure_kyc(approved: bool) -> (r: Result<(), ContractError>)
    ensures
        outcome(r) == spec_ensure_kyc(approved),
{
    if !approved {
        return Err(ContractError::custom("non-KYC user"));
    }
    Ok(())
}

/// Drawdowns are paused where the flag was stored and is set.
pub fn is_drawdown_paused(stored: Option<bool>) -> (paused: bool)
    ensures
        paused == (stored == Some(true)),
{
    match stored {
        Some(flag) => flag,
        None => false,
    }
}

pub open spec fn spec_ensure_drawdown_unpaused(paused: bool) -> Result<(), Fault> {
    if paused {
        Err(Fault::Custom("Drawdowns have been paused"@))
    } else {
        Ok(())
    }
}

pub fn ensure_drawdown_unpaused(paused: bool) -> (r: Result<(), ContractError>)
    ensures
        outcome(r) == spec_ensure_drawdown_unpaused(paused),
{
    if paused {
        return Err(ContractError::custom("Drawdowns have been paused"));
    }
    Ok(())
}

pub open spec fn spec_ensure_whitelisted_denom(whitelisted: bool) -> Result<(), Fault> {
    if whitelisted {
        Ok(())
    } else {
        Err(Fault::DenomNotWhitelisted)
    }
}

/// Refuses a currency that is not on the list of whitelisted tokens.
pub fn ensure_whitelisted_denom(whitelisted: bool) -> (r: Result<(), ContractError>)
    ensures
        outcome(r) == spec_ensure_whitelisted_denom(whitelisted),
{
    if !whitelisted {
        return Err(ContractError::DenomNotWhitelisted);
    }
    Ok(())
}

/// The first rule that a request for a new pool breaks, in this order: its
/// currency is whitelisted, its two names are not empty, its junior fee is at
/// most one hundred percent, its borrow limit and its term are not zero.
pub open spec fn spec_validate_create_pool_msg(denom_whitelisted: bool, msg: CreatePoolMsg)
    -> Result<(), Fault> {
    if !denom_whitelisted {
        Err(Fault::DenomNotWhitelisted)
    } else if msg.pool_name@.len() == 0 {
        Err(Fault::Custom("Pool name cannot be empty"@))
    } else if msg.borrower_name@.len() == 0 {
        Err(Fault::Custom("Borrower name cannot be empty"@))
    } else if msg.junior_fee_percent > 10000 {
        Err(Fault::Custom("junior fee percent cannot be greater than 100%"@))
    } else if msg.borrow_limit == 0 {
        Err(Fault::Custom("Borrow limit should be non-zero"@))
    } else if msg.term_length == 0 {
        Err(Fault::Custom("Term length should be non-zero"@))
    } else {
        Ok(())
    }
}

/// Checks a request for a new pool against the rules for its fields.
pub fn validate_create_pool_msg(denom_whitelisted: bool, msg: &CreatePoolMsg) -> (r: Result<
    (),
    ContractError,
>)
    ensures
        outcome(r) == spec_validate_create_pool_msg(denom_whitelisted, *msg),
{
    ensure_whitelisted_denom(denom_whitelisted)?;
    if msg.pool_name.as_str().is_empty() {
        return Err(ContractError::custom("Pool name cannot be empty"));
    }
    if msg.borrower_name.as_str().is_empty() {
        return Err(ContractError::custom("Borrower name cannot be empty"));
    }
    if msg.junior_fee_percent > 10000 {
        return Err(ContractError::custom("junior fee percent cannot be greater than 100%"));
    }
    if msg.borrow_limit == 0 {
        return Err(ContractError::custom("Borrow limit should be non-zero"));
    }
    if msg.term_length == 0 {
        return Err(ContractError::custom("Term length should be non-zero"));
    }
    Ok(())
}

/// The most slices that a pool can have.
pub const MAX_SLICES: usize = 5;

pub open spec fn spec_initialize_next_slice(slices: Seq<PoolSlice>) -> Result<
    Seq<PoolSlice>,
    Fault,
> {
    if slices.len() >= MAX_SLICES {
        Err(Fault::MaxSliceLimit)
    } else if slices.len() > 0 && !slices.last().spec_is_locked() {
        Err(Fault::Custom("All previous slices should be locked"@))
    } else {
        Ok(slices.push(PoolSlice::spec_new(slices.len() as u64)->Ok_0))
    }
}

/// Opens the next slice of a pool: the first one, or one more once the slice
/// before it is locked. A pool has at most five slices.
pub fn initialize_next_slice(slices: &mut Vec<PoolSlice>) -> (r: Result<(), ContractError>)
    ensures
        transition(old(slices)@, final(slices)@, r, spec_initialize_next_slice(old(slices)@)),
{
    if slices.len() >= MAX_SLICES {
        return Err(ContractError::MaxSliceLimit);
    }
    if slices.len() > 0 && !slices[slices.len() - 1].is_locked() {
        return Err(ContractError::custom("All previous slices should be locked"));
    }
    let slice = PoolSlice::new(slices.len() as u64)?;
    slices.push(slice);
    Ok(())
}

/// The grace period of the pools: the one that is configured, or seven days.
pub fn get_grace_period(config: &Config) -> (seconds: u64)
    ensures
        seconds == match config.grace_period {
            Some(configured) => configured,
            None => GRACE_PERIOD,
        },
{
    match config.grace_period {
        Some(configured) => configured,
        None => GRACE_PERIOD,
    }
}

} // verus!
