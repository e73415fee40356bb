//! Share-price accounting of tranches and slices: what a tranche expects,
//! how a payment raises its share prices, and what a token can redeem.

use crate::error::{ContractError, Fault, outcome, transition, transition_with};
use crate::math::{
    apply_to_share_price, checked_add, checked_sub, desired_amount_from_share_price,
    scale_by_fraction, share_price_to_usdc, spec_add, spec_applied, spec_apply_to_share_price,
    spec_desired_amount_from_share_price, spec_scale_by_fraction,
    spec_share_price_to_usdc, spec_sub, spec_usdc_to_share_price, usdc_to_share_price, Decimal,
    SCALING_FACTOR,
};
use crate::state::{InvestorToken, PoolSlice, TrancheInfo};
use crate::timestamp::{advance, spec_advance, Timestamp};
use crate::TEN_THOUSAND;
use vstd::prelude::*;

verus! {

/// What one step of the payment waterfall did with the interest and the
/// principal that it was handed.
///
/// Every unit handed in is in exactly one of the five fields: it raised a
/// share price (`interest_applied`, `principal_applied`), went to the
/// protocol reserve, or is left for the next step.
#[derive(Clone, Copy, Debug, PartialEq, Eq, Structural)]
pub struct ApplyResult {
    pub interest_remaining: u128,
    pub principal_remaining: u128,
    pub reserve_deduction: u128,
    pub interest_applied: u128,
    pub principal_applied: u128,
}

impl ApplyResult {
    /// The sum of the five fields.
    pub open spec fn total(self) -> int {
        self.interest_remaining + self.principal_remaining + self.reserve_deduction
            + self.interest_applied + self.principal_applied
    }
}

/// The part of `amount` that `basis_points` hundredths of a percent make,
/// rounded down.
pub open spec fn spec_basis_points_of(amount: u128, basis_points: u16) -> int {
    amount * basis_points / TEN_THOUSAND as int
}

/// The fee of `basis_points` on `amount`, for a fee of at most one hundred
/// percent.
fn basis_points_of(amount: u128, basis_points: u16) -> (fee: u128)
    requires
        basis_points <= TEN_THOUSAND,
    ensures
        fee == spec_basis_points_of(amount, basis_points),
        fee <= amount,
{
    proof {
        lemma_fraction_bounded(amount as int, basis_points as int, TEN_THOUSAND as int);
    }
    match crate::math::checked_multiply_ratio(amount, basis_points as u128, TEN_THOUSAND) {
        Ok(fee) => fee,
        Err(_) => 0,
    }
}

/// A fraction of at most one takes no more than the whole.
pub proof fn lemma_fraction_bounded(value: int, numerator: int, denominator: int)
    by (nonlinear_arith)
    requires
        0 <= value,
        0 <= numerator <= denominator,
        0 < denominator,
    ensures
        0 <= value * numerator / denominator <= value,
{
}

impl PoolSlice {
    pub open spec fn spec_new(slice_index: u64) -> Result<PoolSlice, Fault> {
        if slice_index * 2 + 1 > u64::MAX {
            Err(Fault::Overflow)
        } else {
            Ok(
                PoolSlice {
                    junior_tranche: TrancheInfo {
                        id: (slice_index * 2) as u64,
                        principal_deposited: 0,
                        principal_share_price: Decimal { atomics: SCALING_FACTOR },
                        interest_share_price: Decimal { atomics: 0 },
                        locked_until: Timestamp { nanos: 0 },
                    },
                    senior_tranche: TrancheInfo {
                        id: (slice_index * 2 + 1) as u64,
                        principal_deposited: 0,
                        principal_share_price: Decimal { atomics: SCALING_FACTOR },
                        interest_share_price: Decimal { atomics: 0 },
                        locked_until: Timestamp { nanos: 0 },
                    },
                    total_interest_accrued: 0,
                    principal_deployed: 0,
                },
            )
        }
    }

    /// The empty slice with the given index. Its junior tranche has twice the
    /// index as its id and its senior tranche the id after that; both start
    /// unlocked, with a principal share price of one and an interest share
    /// price of zero.
    pub fn new(slice_index: u64) -> (r: Result<PoolSlice, ContractError>)
        ensures
            outcome(r) == Self::spec_new(slice_index),
    {
        if slice_index > (u64::MAX - 1) / 2 {
            return Err(ContractError::Overflow);
        }
        let one = usdc_to_share_price(1, 1)?;
        Ok(
            PoolSlice {
                junior_tranche: TrancheInfo {
                    id: slice_index * 2,
                    principal_deposited: 0,
                    locked_until: Timestamp::default(),
                    principal_share_price: one,
                    interest_share_price: Decimal::zero(),
                },
                senior_tranche: TrancheInfo {
                    id: slice_index * 2 + 1,
                    principal_deposited: 0,
                    locked_until: Timestamp::default(),
                    principal_share_price: one,
                    interest_share_price: Decimal::zero(),
                },
                total_interest_accrued: 0,
                principal_deployed: 0,
            },
        )
    }

    pub open spec fn spec_deposited(self) -> Result<u128, Fault> {
        spec_add(self.junior_tranche.principal_deposited, self.senior_tranche.principal_deposited)
    }

    /// What both tranches hold in deposits.
    pub fn deposited(&self) -> (r: Result<u128, ContractError>)
        ensures
            outcome(r) == self.spec_deposited(),
    {
        checked_add(self.junior_tranche.principal_deposited, self.senior_tranche.principal_deposited)
    }

    /// A slice is locked once its senior tranche is.
    pub open spec fn spec_is_locked(self) -> bool {
        self.senior_tranche.locked_until.nanos != 0
    }

    pub fn is_locked(&self) -> (b: bool)
        ensures
            b == self.spec_is_locked(),
    {
        !self.senior_tranche.locked_until.is_unset()
    }

    /// The senior step of the waterfall on one slice.
    ///
    /// The reserve fee is taken off the interest first. The senior tranche is
    /// then paid interest up to the share price it expects from the interest
    /// accrued on the slice, less the junior fee and the reserve fee, and
    /// principal up to the share price it expects from `principal_accrued`.
    pub open spec fn spec_apply_to_senior_tranche(
        self,
        interest_remaining: u128,
        principal_remaining: u128,
        junior_fee_percent: u16,
        reserve_fee_percent: u16,
        principal_accrued: u128,
    ) -> Result<(PoolSlice, ApplyResult), Fault> {
        let senior = self.senior_tranche;
        match senior.spec_expected_share_price(self.total_interest_accrued, self) {
            Err(e) => Err(e),
            Ok(expected_interest) => match senior.spec_expected_share_price(
                principal_accrued,
                self,
            ) {
                Err(e) => Err(e),
                Ok(expected_principal) => if junior_fee_percent + reserve_fee_percent
                    > TEN_THOUSAND {
                    Err(Fault::Underflow)
                } else {
                    match spec_scale_by_fraction(
                        expected_interest,
                        (TEN_THOUSAND - junior_fee_percent - reserve_fee_percent) as u128,
                        TEN_THOUSAND,
                    ) {
                        Err(e) => Err(e),
                        Ok(desired_net_interest) => {
                            let reserve = spec_basis_points_of(
                                interest_remaining,
                                reserve_fee_percent,
                            ) as u128;
                            let net = (interest_remaining - reserve) as u128;
                            match senior.spec_apply_by_share_price(
                                net,
                                principal_remaining,
                                desired_net_interest,
                                expected_principal,
                            ) {
                                Err(e) => Err(e),
                                Ok((tranche, (interest_left, principal_left))) => Ok(
                                    (
                                        PoolSlice { senior_tranche: tranche, ..self },
                                        ApplyResult {
                                            interest_remaining: interest_left,
                                            principal_remaining: principal_left,
                                            reserve_deduction: reserve,
                                            interest_applied: (net - interest_left) as u128,
                                            principal_applied: (principal_remaining
                                                - principal_left) as u128,
                                        },
                                    ),
                                ),
                            }
                        },
                    }
                },
            },
        }
    }

    /// Pays the senior tranche of this slice out of the slice's part of a
    /// repayment, and reports what is left for the junior tranche.
    ///
    /// Nothing is lost: what was handed in is what was applied, reserved and
    /// left. No share price falls. Fees of more than one hundred percent
    /// together are refused with `Underflow`.
    pub fn apply_to_senior_tranche(
        &mut self,
        interest_remaining: u128,
        principal_remaining: u128,
        junior_fee_percent: u16,
        reserve_fee_percent: u16,
        principal_accrued: u128,
    ) -> (r: Result<ApplyResult, ContractError>)
        ensures
            transition_with(
                *old(self),
                *final(self),
                r,
                old(self).spec_apply_to_senior_tranche(
                    interest_remaining,
                    principal_remaining,
                    junior_fee_percent,
                    reserve_fee_percent,
                    principal_accrued,
                ),
            ),
            r matches Ok(done) ==> done.total() == interest_remaining + principal_remaining,
            old(self).prices_not_above(*final(self)),
    {
        let senior = self.senior_tranche;
        let expected_interest = senior.expected_share_price(self.total_interest_accrued, &*self)?;
        let expected_principal = senior.expected_share_price(principal_accrued, &*self)?;
        let fees: u32 = junior_fee_percent as u32 + reserve_fee_percent as u32;
        if fees > 10000 {
            return Err(ContractError::Underflow);
        }
        let desired_net_interest = scale_by_fraction(
            expected_interest,
            (10000 - fees) as u128,
            TEN_THOUSAND,
        )?;
        let reserve: u128 = basis_points_of(interest_remaining, reserve_fee_percent);
        let net: u128 = interest_remaining - reserve;
        let mut tranche = senior;
        let (interest_left, principal_left) = tranche.apply_by_share_price(
            net,
            principal_remaining,
            desired_net_interest,
            expected_principal,
        )?;
        self.senior_tranche = tranche;
        Ok(
            ApplyResult {
                interest_remaining: interest_left,
                principal_remaining: principal_left,
                reserve_deduction: reserve,
                interest_applied: net - interest_left,
                principal_applied: principal_remaining - principal_left,
            },
        )
    }

    /// The interest share price that the junior tranche reaches when all of
    /// `interest` is paid into it; its present price where it holds no
    /// deposits, so that an empty tranche asks for nothing.
    pub open spec fn spec_junior_interest_target(self, interest: u128) -> Result<Decimal, Fault> {
        let junior = self.junior_tranche;
        if junior.principal_deposited == 0 {
            Ok(junior.interest_share_price)
        } else {
            match spec_usdc_to_share_price(interest, junior.principal_deposited) {
                Err(e) => Err(e),
                Ok(rise) => junior.interest_share_price.spec_checked_add(rise),
            }
        }
    }

    /// The junior step of the waterfall on one slice.
    ///
    /// The junior tranche is paid the interest that is left, and principal up
    /// to the share price it expects from `principal_accrued`. Whatever is
    /// left after that is extra interest: the reserve fee is taken off the
    /// principal that was left over, and the rest raises the interest share
    /// price.
    pub open spec fn spec_apply_to_junior_tranche(
        self,
        interest_remaining: u128,
        principal_remaining: u128,
        reserve_fee_percent: u16,
        principal_accrued: u128,
    ) -> Result<(PoolSlice, ApplyResult), Fault> {
        let junior = self.junior_tranche;
        match self.spec_junior_interest_target(interest_remaining) {
            Err(e) => Err(e),
            Ok(expected_interest) => match junior.spec_expected_share_price(
                principal_accrued,
                self,
            ) {
                Err(e) => Err(e),
                Ok(expected_principal) => match junior.spec_apply_by_share_price(
                    interest_remaining,
                    principal_remaining,
                    expected_interest,
                    expected_principal,
                ) {
                    Err(e) => Err(e),
                    Ok((first, (interest_left, principal_left))) => if reserve_fee_percent
                        > TEN_THOUSAND {
                        Err(Fault::Underflow)
                    } else {
                        let reserve = spec_basis_points_of(principal_left, reserve_fee_percent) as u128;
                        match spec_add(interest_left, (principal_left - reserve) as u128) {
                            Err(e) => Err(e),
                            Ok(extra) => match first.spec_apply_by_amount(extra, 0, extra, 0) {
                                Err(e) => Err(e),
                                Ok((tranche, _)) => Ok(
                                    (
                                        PoolSlice { junior_tranche: tranche, ..self },
                                        ApplyResult {
                                            interest_remaining: 0,
                                            principal_remaining: 0,
                                            reserve_deduction: reserve,
                                            interest_applied: (interest_remaining - interest_left
                                                + extra) as u128,
                                            principal_applied: (principal_remaining
                                                - principal_left) as u128,
                                        },
                                    ),
                                ),
                            },
                        }
                    },
                },
            },
        }
    }

    /// Pays the junior tranche of this slice everything that the senior
    /// tranche left, less the reserve fee on principal that turned out to be
    /// extra interest.
    ///
    /// Nothing stays behind and nothing is lost: what was handed in is what
    /// was applied and reserved. No share price falls. A junior tranche
    /// without deposits can take nothing: a payment to it ends in
    /// `DivideByZero`. The junior fee is no deduction here; it was left out
    /// of what the senior tranche was paid.
    pub fn apply_to_junior_tranche(
        &mut self,
        interest_remaining: u128,
        principal_remaining: u128,
        _junior_fee_percent: u16,
        reserve_fee_percent: u16,
        principal_accrued: u128,
    ) -> (r: Result<ApplyResult, ContractError>)
        ensures
            transition_with(
                *old(self),
                *final(self),
                r,
                old(self).spec_apply_to_junior_tranche(
                    interest_remaining,
                    principal_remaining,
                    reserve_fee_percent,
                    principal_accrued,
                ),
            ),
            r matches Ok(done) ==> done.total() == interest_remaining + principal_remaining
                && done.interest_remaining == 0 && done.principal_remaining == 0,
            old(self).prices_not_above(*final(self)),
    {
        let junior = self.junior_tranche;
        let expected_interest = if junior.principal_deposited == 0 {
            junior.interest_share_price
        } else {
            let rise = usdc_to_share_price(interest_remaining, junior.principal_deposited)?;
            junior.interest_share_price.checked_add(rise)?
        };
        let expected_principal = junior.expected_share_price(principal_accrued, &*self)?;
        let mut tranche = junior;
        let (interest_left, principal_left) = tranche.apply_by_share_price(
            interest_remaining,
            principal_remaining,
            expected_interest,
            expected_principal,
        )?;
        if reserve_fee_percent > 10000 {
            return Err(ContractError::Underflow);
        }
        let reserve: u128 = basis_points_of(principal_left, reserve_fee_percent);
        let extra: u128 = checked_add(interest_left, principal_left - reserve)?;
        tranche.apply_by_amount(extra, 0, extra, 0)?;
        self.junior_tranche = tranche;
        Ok(
            ApplyResult {
                interest_remaining: 0,
                principal_remaining: 0,
                reserve_deduction: reserve,
                interest_applied: interest_remaining - interest_left + extra,
                principal_applied: principal_remaining - principal_left,
            },
        )
    }

    /// No share price of `later` is below the one of this slice, and nothing
    /// but share prices differs.
    pub open spec fn prices_not_above(self, later: PoolSlice) -> bool {
        &&& self.junior_tranche.prices_not_above(later.junior_tranche)
        &&& self.senior_tranche.prices_not_above(later.senior_tranche)
        &&& later.total_interest_accrued == self.total_interest_accrued
        &&& later.principal_deployed == self.principal_deployed
    }
}

impl TrancheInfo {
    /// No share price of `later` is below the one of this tranche, and
    /// nothing but share prices differs.
    pub open spec fn prices_not_above(self, later: TrancheInfo) -> bool {
        &&& later.principal_share_price.atomics >= self.principal_share_price.atomics
        &&& later.interest_share_price.atomics >= self.interest_share_price.atomics
        &&& later.id == self.id
        &&& later.principal_deposited == self.principal_deposited
        &&& later.locked_until == self.locked_until
    }

    /// What the token can redeem in interest and in principal: the value of
    /// its deposit at each of the two share prices, less what it has redeemed
    /// of each already.
    pub open spec fn spec_redeemable_interest_and_amount(self, token: InvestorToken) -> Result<
        (u128, u128),
        Fault,
    > {
        match spec_share_price_to_usdc(
            self.principal_share_price,
            token.lend_info.principal_deposited,
        ) {
            Err(e) => Err(e),
            Ok(max_principal) => match spec_share_price_to_usdc(
                self.interest_share_price,
                token.lend_info.principal_deposited,
            ) {
                Err(e) => Err(e),
                Ok(max_interest) => match spec_sub(
                    max_principal,
                    token.lend_info.principal_redeemed,
                ) {
                    Err(e) => Err(e),
                    Ok(principal) => match spec_sub(
                        max_interest,
                        token.lend_info.interest_redeemed,
                    ) {
                        Err(e) => Err(e),
                        Ok(interest) => Ok((interest, principal)),
                    },
                },
            },
        }
    }

    /// The interest and the principal, in this order, that `investor_token`
    /// can redeem from this tranche. A token that has redeemed more than its
    /// deposit is worth is refused with `Underflow`.
    pub fn redeemable_interest_and_amount(&self, investor_token: &InvestorToken) -> (r: Result<
        (u128, u128),
        ContractError,
    >)
        ensures
            outcome(r) == self.spec_redeemable_interest_and_amount(*investor_token),
    {
        let max_principal_redeemable: u128 = share_price_to_usdc(
            self.principal_share_price,
            investor_token.lend_info.principal_deposited,
        )?;
        let max_interest_redeemable: u128 = share_price_to_usdc(
            self.interest_share_price,
            investor_token.lend_info.principal_deposited,
        )?;
        let redeemable_principal: u128 = checked_sub(
            max_principal_redeemable,
            investor_token.lend_info.principal_redeemed,
        )?;
        let redeemable_interest: u128 = checked_sub(
            max_interest_redeemable,
            investor_token.lend_info.interest_redeemed,
        )?;
        Ok((redeemable_interest, redeemable_principal))
    }

    /// Senior tranches have odd ids.
    pub fn is_senior_tranche(&self) -> (b: bool)
        ensures
            b == (self.id % 2 == 1),
    {
        self.id % 2 == 1
    }

    pub open spec fn spec_lock_tranche(self, now: Timestamp, drawdown_period: u64) -> Result<
        TrancheInfo,
        Fault,
    > {
        match spec_advance(now, drawdown_period as int) {
            Err(e) => Err(e),
            Ok(until) => Ok(TrancheInfo { locked_until: until, ..self }),
        }
    }

    /// Locks the tranche until one drawdown period after `now`.
    pub fn lock_tranche(&mut self, now: Timestamp, drawdown_period: u64) -> (r: Result<
        (),
        ContractError,
    >)
        ensures
            transition(
                *old(self),
                *final(self),
                r,
                old(self).spec_lock_tranche(now, drawdown_period),
            ),
    {
        let until = advance(now, drawdown_period as u128)?;
        self.locked_until = until;
        Ok(())
    }

    /// The share price at which this tranche holds its part of `amount`,
    /// where `amount` is spread over the deposits of the whole slice: the
    /// price of `amount` over this tranche alone, scaled by the tranche's
    /// part of the slice's deposits. Zero for a tranche without deposits.
    pub open spec fn spec_expected_share_price(self, amount: u128, slice: PoolSlice) -> Result<
        Decimal,
        Fault,
    > {
        if self.principal_deposited == 0 {
            Ok(Decimal { atomics: 0 })
        } else {
            match spec_usdc_to_share_price(amount, self.principal_deposited) {
                Err(e) => Err(e),
                Ok(share_price) => self.spec_scale_by_percent_ownership(share_price, slice),
            }
        }
    }

    pub fn expected_share_price(&self, amount: u128, slice: &PoolSlice) -> (r: Result<
        Decimal,
        ContractError,
    >)
        ensures
            outcome(r) == self.spec_expected_share_price(amount, *slice),
    {
        if self.principal_deposited == 0 {
            return Ok(Decimal::zero());
        }
        let share_price = usdc_to_share_price(amount, self.principal_deposited)?;
        self.scale_by_percent_ownership(share_price, slice)
    }

    pub open spec fn spec_scale_by_percent_ownership(
        self,
        share_price: Decimal,
        slice: PoolSlice,
    ) -> Result<Decimal, Fault> {
        match slice.spec_deposited() {
            Err(e) => Err(e),
            Ok(total_deposited) => spec_scale_by_fraction(
                share_price,
                self.principal_deposited,
                total_deposited,
            ),
        }
    }

    /// Scales a share price by this tranche's part of the deposits of `slice`.
    pub fn scale_by_percent_ownership(&self, share_price: Decimal, slice: &PoolSlice) -> (r: Result<
        Decimal,
        ContractError,
    >)
        ensures
            outcome(r) == self.spec_scale_by_percent_ownership(share_price, *slice),
    {
        let total_deposited: u128 = slice.deposited()?;
        scale_by_fraction(share_price, self.principal_deposited, total_deposited)
    }

    pub open spec fn spec_apply_by_share_price(
        self,
        interest_remaining: u128,
        principal_remaining: u128,
        desired_interest_share_price: Decimal,
        desired_principal_share_price: Decimal,
    ) -> Result<(TrancheInfo, (u128, u128)), Fault> {
        match spec_desired_amount_from_share_price(
            desired_interest_share_price,
            self.interest_share_price,
            self.principal_deposited,
        ) {
            Err(e) => Err(e),
            Ok(desired_interest_amount) => match spec_desired_amount_from_share_price(
                desired_principal_share_price,
                self.principal_share_price,
                self.principal_deposited,
            ) {
                Err(e) => Err(e),
                Ok(desired_principal_amount) => self.spec_apply_by_amount(
                    interest_remaining,
                    principal_remaining,
                    desired_interest_amount,
                    desired_principal_amount,
                ),
            },
        }
    }

    /// Pays interest and principal into the tranche, each up to the amount
    /// that lifts its share price to the desired one, and returns what is
    /// left of each.
    pub fn apply_by_share_price(
        &mut self,
        interest_remaining: u128,
        principal_remaining: u128,
        desired_interest_share_price: Decimal,
        desired_principal_share_price: Decimal,
    ) -> (r: Result<(u128, u128), ContractError>)
        ensures
            transition_with(
                *old(self),
                *final(self),
                r,
                old(self).spec_apply_by_share_price(
                    interest_remaining,
                    principal_remaining,
                    desired_interest_share_price,
                    desired_principal_share_price,
                ),
            ),
            r matches Ok((interest_left, principal_left)) ==> interest_left <= interest_remaining
                && principal_left <= principal_remaining,
            old(self).prices_not_above(*final(self)),
    {
        let desired_interest_amount: u128 = desired_amount_from_share_price(
            desired_interest_share_price,
            self.interest_share_price,
            self.principal_deposited,
        )?;
        let desired_principal_amount: u128 = desired_amount_from_share_price(
            desired_principal_share_price,
            self.principal_share_price,
            self.principal_deposited,
        )?;
        self.apply_by_amount(
            interest_remaining,
            principal_remaining,
            desired_interest_amount,
            desired_principal_amount,
        )
    }

    pub open spec fn spec_apply_by_amount(
        self,
        interest_remaining: u128,
        principal_remaining: u128,
        desired_interest_amount: u128,
        desired_principal_amount: u128,
    ) -> Result<(TrancheInfo, (u128, u128)), Fault> {
        match spec_apply_to_share_price(
            interest_remaining,
            self.interest_share_price,
            desired_interest_amount,
            self.principal_deposited,
        ) {
            Err(e) => Err(e),
            Ok((interest_left, interest_share_price)) => match spec_apply_to_share_price(
                principal_remaining,
                self.principal_share_price,
                desired_principal_amount,
                self.principal_deposited,
            ) {
                Err(e) => Err(e),
                Ok((principal_left, principal_share_price)) => Ok(
                    (
                        TrancheInfo { interest_share_price, principal_share_price, ..self },
                        (interest_left, principal_left),
                    ),
                ),
            },
        }
    }

    /// Pays interest and principal into the tranche, each up to its desired
    /// amount, and returns what is left of each. What is paid raises the
    /// share price of its kind by the amount per unit of deposit.
    pub fn apply_by_amount(
        &mut self,
        interest_remaining: u128,
        principal_remaining: u128,
        desired_interest_amount: u128,
        desired_principal_amount: u128,
    ) -> (r: Result<(u128, u128), ContractError>)
        ensures
            transition_with(
                *old(self),
                *final(self),
                r,
                old(self).spec_apply_by_amount(
                    interest_remaining,
                    principal_remaining,
                    desired_interest_amount,
                    desired_principal_amount,
                ),
            ),
            r matches Ok((interest_left, principal_left)) ==> {
                &&& interest_left + spec_applied(interest_remaining, desired_interest_amount)
                    == interest_remaining
                &&& principal_left + spec_applied(principal_remaining, desired_principal_amount)
                    == principal_remaining
            },
            old(self).prices_not_above(*final(self)),
    {
        let total_shares: u128 = self.principal_deposited;
        let (interest_left, interest_share_price) = apply_to_share_price(
            interest_remaining,
            self.interest_share_price,
            desired_interest_amount,
            total_shares,
        )?;
        let (principal_left, principal_share_price) = apply_to_share_price(
            principal_remaining,
            self.principal_share_price,
            desired_principal_amount,
            total_shares,
        )?;
        self.interest_share_price = interest_share_price;
        self.principal_share_price = principal_share_price;
        Ok((interest_left, principal_left))
    }
}

/// What holds of every senior step that succeeds: no share price of the
/// slice falls, nothing else in it changes, and what was handed in is what
/// was applied, reserved and left.
pub proof fn lemma_senior_step(
    slice: PoolSlice,
    interest_remaining: u128,
    principal_remaining: u128,
    junior_fee_percent: u16,
    reserve_fee_percent: u16,
    principal_accrued: u128,
)
    ensures
        slice.spec_apply_to_senior_tranche(
            interest_remaining,
            principal_remaining,
            junior_fee_percent,
            reserve_fee_percent,
            principal_accrued,
        ) matches Ok((after, done)) ==> slice.prices_not_above(after) && done.total()
            == interest_remaining + principal_remaining,
{
    if junior_fee_percent + reserve_fee_percent <= TEN_THOUSAND {
        lemma_fraction_bounded(
            interest_remaining as int,
            reserve_fee_percent as int,
            TEN_THOUSAND as int,
        );
    }
}

/// What holds of every junior step that succeeds: no share price of the
/// slice falls, nothing else in it changes, nothing is left, and what was
/// handed in is what was applied and reserved.
pub proof fn lemma_junior_step(
    slice: PoolSlice,
    interest_remaining: u128,
    principal_remaining: u128,
    reserve_fee_percent: u16,
    principal_accrued: u128,
)
    ensures
        slice.spec_apply_to_junior_tranche(
            interest_remaining,
            principal_remaining,
            reserve_fee_percent,
            principal_accrued,
        ) matches Ok((after, done)) ==> slice.prices_not_above(after) && done.total()
            == interest_remaining + principal_remaining && done.interest_remaining == 0
            && done.principal_remaining == 0,
{
    let junior = slice.junior_tranche;
    if let Ok(expected_interest) = slice.spec_junior_interest_target(interest_remaining) {
        if let Ok(expected_principal) = junior.spec_expected_share_price(principal_accrued, slice) {
            if let Ok((first, (interest_left, principal_left))) = junior.spec_apply_by_share_price(
                interest_remaining,
                principal_remaining,
                expected_interest,
                expected_principal,
            ) {
                if reserve_fee_percent <= TEN_THOUSAND {
                    lemma_fraction_bounded(
                        principal_left as int,
                        reserve_fee_percent as int,
                        TEN_THOUSAND as int,
                    );
                }
            }
        }
    }
}

/// A token can redeem no more than its deposit is worth: the interest and the
/// principal that it can redeem are each within the value of the deposit at
/// the share price of their kind, and together within its value at the sum of
/// the two share prices.
pub proof fn lemma_redeemable_within_value(tranche: TrancheInfo, token: InvestorToken)
    requires
        tranche.spec_redeemable_interest_and_amount(token) is Ok,
    ensures
        tranche.spec_redeemable_interest_and_amount(token) matches Ok((interest, principal)) && {
            let deposit = token.lend_info.principal_deposited as int;
            let scale = SCALING_FACTOR as int;
            &&& interest <= tranche.interest_share_price.atomics * deposit / scale
            &&& principal <= tranche.principal_share_price.atomics * deposit / scale
            &&& interest + principal <= (tranche.interest_share_price.atomics
                + tranche.principal_share_price.atomics) * deposit / scale
        },
{
    let deposit = token.lend_info.principal_deposited as int;
    let a = tranche.interest_share_price.atomics as int;
    let b = tranche.principal_share_price.atomics as int;
    assert(a * deposit / 1000000000000000000 + b * deposit / 1000000000000000000 <= (a + b)
        * deposit / 1000000000000000000) by (nonlinear_arith)
        requires
            0 <= a,
            0 <= b,
            0 <= deposit,
    ;
}

} // verus!
