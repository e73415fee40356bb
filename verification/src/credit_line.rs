//! The credit line of a pool: its term, its due dates, the interest and late
//! fees that accrue on what is drawn, and how a drawdown and a repayment
//! change it.
//!
//! Every function that depends on time takes the present moment as `now`.
//! A function that changes the line either succeeds or leaves it untouched.

use crate::error::{ContractError, Fault, outcome, transition, transition_with};
use crate::math::{checked_add, checked_mul, checked_sub, spec_add, spec_sub};
use crate::state::{BorrowInfo, CreditLine, PaymentFrequency, RepaymentInfo};
use crate::timestamp::{advance, spec_advance, Timestamp};
use crate::{SIY, TEN_THOUSAND};
use vstd::prelude::*;

verus! {

/// The first step of a grid that starts at `start` and repeats every `period`
/// seconds which lies at or after `now`, counted in whole seconds. Before the
/// grid starts this is its first step after `start`.
pub open spec fn spec_next_boundary(start: Timestamp, period: int, now: Timestamp) -> Result<
    Timestamp,
    Fault,
> {
    if now.nanos < start.nanos {
        spec_advance(start, period)
    } else {
        let elapsed = now.spec_seconds() - start.spec_seconds();
        if elapsed % period == 0 {
            spec_advance(start, elapsed)
        } else {
            spec_advance(start, (elapsed / period + 1) * period)
        }
    }
}

/// The last step of the same grid at or before `now`, counted in whole seconds.
pub open spec fn spec_prev_boundary(start: Timestamp, period: int, now: Timestamp) -> Result<
    Timestamp,
    Fault,
> {
    spec_advance(start, (now.spec_seconds() - start.spec_seconds()) / period * period)
}

fn next_boundary(start: Timestamp, period: u64, now: Timestamp) -> (r: Result<
    Timestamp,
    ContractError,
>)
    requires
        period > 0,
    ensures
        outcome(r) == spec_next_boundary(start, period as int, now),
{
    if now.nanos < start.nanos {
        return advance(start, period as u128);
    }
    let elapsed: u64 = now.seconds() - start.seconds();
    if elapsed % period == 0 {
        advance(start, elapsed as u128)
    } else {
        let periods: u64 = elapsed / period;
        assert((periods + 1) * period <= u128::MAX) by (nonlinear_arith)
            requires
                periods <= u64::MAX,
                period <= u64::MAX,
        ;
        advance(start, (periods as u128 + 1) * (period as u128))
    }
}

fn prev_boundary(start: Timestamp, period: u64, now: Timestamp) -> (r: Result<
    Timestamp,
    ContractError,
>)
    requires
        period > 0,
        now.nanos >= start.nanos,
    ensures
        outcome(r) == spec_prev_boundary(start, period as int, now),
{
    let elapsed: u64 = now.seconds() - start.seconds();
    let periods: u64 = elapsed / period;
    assert(periods * period <= u128::MAX) by (nonlinear_arith)
        requires
            periods <= u64::MAX,
            period <= u64::MAX,
    ;
    advance(start, (periods as u128) * (period as u128))
}

/// The smaller of two results, where both are there; else the first error.
pub open spec fn spec_earlier(a: Result<Timestamp, Fault>, b: Result<Timestamp, Fault>) -> Result<
    Timestamp,
    Fault,
> {
    match a {
        Err(e) => Err(e),
        Ok(x) => match b {
            Err(e) => Err(e),
            Ok(y) => Ok(
                if x.nanos < y.nanos {
                    x
                } else {
                    y
                },
            ),
        },
    }
}

/// The greater of two results, where both are there; else the first error.
pub open spec fn spec_later_of(a: Result<Timestamp, Fault>, b: Result<Timestamp, Fault>) -> Result<
    Timestamp,
    Fault,
> {
    match a {
        Err(e) => Err(e),
        Ok(x) => match b {
            Err(e) => Err(e),
            Ok(y) => Ok(
                if x.nanos > y.nanos {
                    x
                } else {
                    y
                },
            ),
        },
    }
}

/// `a` less what was repaid, and zero where more was repaid than `a`.
pub open spec fn spec_net(gross: Result<u128, Fault>, repaid: u128) -> Result<u128, Fault> {
    match gross {
        Err(e) => Err(e),
        Ok(g) => Ok(
            if g < repaid {
                0u128
            } else {
                (g - repaid) as u128
            },
        ),
    }
}

/// The smaller of two amounts.
pub open spec fn spec_min(a: u128, b: u128) -> u128 {
    if a < b {
        a
    } else {
        b
    }
}

impl CreditLine {
    pub open spec fn spec_new(
        borrow_limit: u128,
        term_length: u64,
        drawdown_period: u64,
        grace_period: u64,
        principal_grace_period: u64,
        interest_apr: u16,
        late_fee_apr: u16,
        junior_fee_percent: u16,
        interest_frequency: PaymentFrequency,
        principal_frequency: PaymentFrequency,
        now: Timestamp,
    ) -> CreditLine {
        CreditLine {
            term_start: Timestamp { nanos: 0 },
            term_end: Timestamp { nanos: 0 },
            term_length,
            grace_period,
            principal_grace_period,
            drawdown_period,
            borrow_info: BorrowInfo {
                current_limit: 0,
                borrow_limit,
                total_borrowed: 0,
                borrowed_amount: 0,
                interest_repaid: 0,
                principal_repaid: 0,
            },
            interest_apr,
            junior_fee_percent,
            late_fee_apr,
            interest_frequency,
            principal_frequency,
            interest_accrued: 0,
            interest_owed: 0,
            last_full_payment: Timestamp { nanos: 0 },
            last_update_ts: now,
        }
    }

    /// A line over `borrow_limit` on which nothing may be drawn yet: its limit
    /// is raised when capital is locked, and its term starts with the first
    /// drawdown.
    pub fn new(
        borrow_limit: u128,
        term_length: u64,
        drawdown_period: u64,
        grace_period: u64,
        principal_grace_period: u64,
        interest_apr: u16,
        late_fee_apr: u16,
        junior_fee_percent: u16,
        interest_frequency: PaymentFrequency,
        principal_frequency: PaymentFrequency,
        now: Timestamp,
    ) -> (line: CreditLine)
        ensures
            line == Self::spec_new(
                borrow_limit,
                term_length,
                drawdown_period,
                grace_period,
                principal_grace_period,
                interest_apr,
                late_fee_apr,
                junior_fee_percent,
                interest_frequency,
                principal_frequency,
                now,
            ),
            line.limits_hold(),
    {
        let mut borrow_info = BorrowInfo::default();
        borrow_info.borrow_limit = borrow_limit;
        CreditLine {
            term_start: Timestamp::default(),
            term_end: Timestamp::default(),
            term_length,
            grace_period,
            principal_grace_period,
            drawdown_period,
            borrow_info,
            interest_apr,
            junior_fee_percent,
            late_fee_apr,
            interest_frequency,
            principal_frequency,
            interest_accrued: 0,
            interest_owed: 0,
            last_full_payment: Timestamp::default(),
            last_update_ts: now,
        }
    }

    /// What is outstanding is within the current limit, and the current limit
    /// within the hard maximum.
    pub open spec fn limits_hold(self) -> bool {
        self.borrow_info.borrowed_amount <= self.borrow_info.current_limit
            <= self.borrow_info.borrow_limit
    }

    /// True once the first drawdown has set the term.
    pub open spec fn term_started(self) -> bool {
        self.term_start.nanos != 0
    }

    pub open spec fn spec_set_limit(self, amount: u128) -> Result<CreditLine, Fault> {
        if amount > self.borrow_info.borrow_limit {
            Err(Fault::Custom("New limit cannot exceed max limit"@))
        } else {
            Ok(CreditLine { borrow_info: BorrowInfo { current_limit: amount, ..self.borrow_info }, ..self })
        }
    }

    /// Sets the current limit, which cannot exceed the hard maximum.
    ///
    /// The new limit stays within the maximum whatever `amount` is; it covers
    /// what is outstanding where `amount` does.
    pub fn set_limit(&mut self, amount: u128) -> (r: Result<(), ContractError>)
        ensures
            transition(*old(self), *final(self), r, old(self).spec_set_limit(amount)),
            r is Ok ==> final(self).borrow_info.current_limit <= final(self).borrow_info.borrow_limit,
            r is Ok && old(self).borrow_info.borrowed_amount <= amount ==> final(self).limits_hold(),
            old(self).limits_hold() && old(self).borrow_info.borrowed_amount <= amount ==> final(self).limits_hold(),
    {
        if amount > self.borrow_info.borrow_limit {
            return Err(ContractError::custom("New limit cannot exceed max limit"));
        }
        self.borrow_info.current_limit = amount;
        Ok(())
    }

    pub open spec fn spec_limit(self, now: Timestamp) -> Result<u128, Fault> {
        match self.spec_principal_owed(now) {
            Err(e) => Err(e),
            Ok(owed) => spec_sub(self.borrow_info.current_limit, owed),
        }
    }

    /// What may be outstanding at `now`: the current limit less the principal
    /// that is owed.
    pub fn limit(&self, now: Timestamp) -> (r: Result<u128, ContractError>)
        ensures
            outcome(r) == self.spec_limit(now),
            r matches Ok(l) ==> l <= self.borrow_info.current_limit,
    {
        let owed: u128 = self.principal_owed(now)?;
        checked_sub(self.borrow_info.current_limit, owed)
    }

    /// The hard maximum of the limit.
    pub fn max_limit(&self) -> (l: u128)
        ensures
            l == self.borrow_info.borrow_limit,
    {
        self.borrow_info.borrow_limit
    }

    /// The line after its first steps of a drawdown: with nothing outstanding
    /// the clock of full payments restarts, and the very first drawdown sets
    /// the term.
    pub open spec fn spec_open_term(self, now: Timestamp) -> Result<CreditLine, Fault> {
        if self.borrow_info.borrowed_amount != 0 {
            Ok(self)
        } else if self.term_started() {
            Ok(CreditLine { last_full_payment: now, ..self })
        } else {
            match spec_advance(now, self.drawdown_period as int) {
                Err(e) => Err(e),
                Ok(start) => match spec_advance(start, self.term_length as int) {
                    Err(e) => Err(e),
                    Ok(end) => Ok(
                        CreditLine {
                            last_full_payment: now,
                            term_start: start,
                            term_end: end,
                            ..self
                        },
                    ),
                },
            }
        }
    }

    pub open spec fn spec_drawdown(
        self,
        amount: u128,
        total_principal_available: u128,
        now: Timestamp,
    ) -> Result<CreditLine, Fault> {
        match spec_add(self.borrow_info.borrowed_amount, amount) {
            Err(e) => Err(e),
            Ok(total) => match self.spec_limit(now) {
                Err(e) => Err(e),
                Ok(limit) => if total > limit {
                    Err(Fault::DrawdownExceedsLimit(limit))
                } else if amount > total_principal_available {
                    Err(Fault::DrawdownExceedsLimit(total_principal_available))
                } else {
                    match self.spec_open_term(now) {
                        Err(e) => Err(e),
                        Ok(opened) => match opened.spec_checkpoint(now) {
                            Err(e) => Err(e),
                            Ok(line) => match spec_add(line.borrow_info.total_borrowed, amount) {
                                Err(e) => Err(e),
                                Ok(drawn) => {
                                    let after = CreditLine {
                                        borrow_info: BorrowInfo {
                                            borrowed_amount: total,
                                            total_borrowed: drawn,
                                            ..line.borrow_info
                                        },
                                        ..line
                                    };
                                    match after.spec_is_late(now) {
                                        Err(e) => Err(e),
                                        Ok(late) => if late {
                                            Err(
                                                Fault::Custom(
                                                    "Drawdown not allowed when payments are due"@,
                                                ),
                                            )
                                        } else {
                                            Ok(after)
                                        },
                                    }
                                },
                            },
                        },
                    }
                },
            },
        }
    }

    /// Draws `amount` on the line.
    ///
    /// The drawdown is refused with `DrawdownExceedsLimit` where what would
    /// then be outstanding exceeds the limit at `now`, or where `amount`
    /// exceeds `total_principal_available`, the funds at hand in the tranches;
    /// and it is refused while a payment is overdue. The first drawdown starts
    /// the term one drawdown period after `now`. After a drawdown what is
    /// outstanding is within the current limit.
    pub fn drawdown(&mut self, amount: u128, total_principal_available: u128, now: Timestamp) -> (r:
        Result<(), ContractError>)
        ensures
            transition(
                *old(self),
                *final(self),
                r,
                old(self).spec_drawdown(amount, total_principal_available, now),
            ),
            r is Ok ==> {
                &&& final(self).borrow_info.borrowed_amount == old(self).borrow_info.borrowed_amount
                    + amount
                &&& final(self).borrow_info.total_borrowed == old(self).borrow_info.total_borrowed
                    + amount
                &&& final(self).borrow_info.borrowed_amount <= final(self).borrow_info.current_limit
                &&& final(self).borrow_info.current_limit == old(self).borrow_info.current_limit
                &&& final(self).borrow_info.borrow_limit == old(self).borrow_info.borrow_limit
                &&& amount <= total_principal_available
            },
    {
        let total: u128 = checked_add(self.borrow_info.borrowed_amount, amount)?;
        let limit: u128 = self.limit(now)?;
        if total > limit {
            return Err(ContractError::DrawdownExceedsLimit { limit });
        }
        if amount > total_principal_available {
            return Err(ContractError::DrawdownExceedsLimit { limit: total_principal_available });
        }
        let mut line: CreditLine = *self;
        if line.borrow_info.borrowed_amount == 0 {
            line.last_full_payment = now;
            if line.term_start.is_unset() {
                line.term_start = advance(now, line.drawdown_period as u128)?;
                line.term_end = advance(line.term_start, line.term_length as u128)?;
            }
        }
        line.checkpoint(now)?;
        line.borrow_info.borrowed_amount = total;
        line.borrow_info.total_borrowed = checked_add(line.borrow_info.total_borrowed, amount)?;
        if line.is_late(now)? {
            return Err(ContractError::custom("Drawdown not allowed when payments are due"));
        }
        *self = line;
        Ok(())
    }

    /// The next date on which either interest or principal falls due.
    pub open spec fn spec_next_due_date(self, now: Timestamp) -> Result<Timestamp, Fault> {
        spec_earlier(self.spec_next_interest_due_date(now), self.spec_next_principal_due_date(now))
    }

    pub fn next_due_date(&self, now: Timestamp) -> (r: Result<Timestamp, ContractError>)
        ensures
            outcome(r) == self.spec_next_due_date(now),
    {
        let interest_due_date = self.next_interest_due_date(now)?;
        let principal_due_date = self.next_principal_due_date(now)?;
        if interest_due_date.nanos < principal_due_date.nanos {
            return Ok(interest_due_date);
        }
        Ok(principal_due_date)
    }

    /// The last date on which either interest or principal fell due.
    pub open spec fn spec_prev_due_date(self, now: Timestamp) -> Result<Timestamp, Fault> {
        spec_later_of(self.spec_prev_interest_due_date(now), self.spec_prev_principal_due_date(now))
    }

    pub fn prev_due_date(&self, now: Timestamp) -> (r: Result<Timestamp, ContractError>)
        ensures
            outcome(r) == self.spec_prev_due_date(now),
    {
        let interest_due_date = self.prev_interest_due_date(now)?;
        let principal_due_date = self.prev_principal_due_date(now)?;
        if interest_due_date.nanos > principal_due_date.nanos {
            return Ok(interest_due_date);
        }
        Ok(principal_due_date)
    }

    /// Interest falls due at the start of the term and every interest period
    /// after it.
    pub open spec fn spec_next_interest_due_date(self, now: Timestamp) -> Result<
        Timestamp,
        Fault,
    > {
        if !self.term_started() {
            Err(Fault::Custom("Term not started"@))
        } else {
            spec_next_boundary(self.term_start, self.interest_frequency.spec_to_seconds(), now)
        }
    }

    pub fn next_interest_due_date(&self, now: Timestamp) -> (r: Result<Timestamp, ContractError>)
        ensures
            outcome(r) == self.spec_next_interest_due_date(now),
    {
        if self.term_start.is_unset() {
            return Err(ContractError::custom("Term not started"));
        }
        next_boundary(self.term_start, self.interest_frequency.to_seconds(), now)
    }

    /// The date from which principal falls due: the start of the term moved by
    /// the principal grace period.
    pub open spec fn spec_principal_start(self) -> Result<Timestamp, Fault> {
        spec_advance(self.term_start, self.principal_grace_period as int)
    }

    /// Principal falls due at the end of its grace period and every principal
    /// period after it.
    pub open spec fn spec_next_principal_due_date(self, now: Timestamp) -> Result<
        Timestamp,
        Fault,
    > {
        if !self.term_started() {
            Err(Fault::Custom("Term not started"@))
        } else {
            match self.spec_principal_start() {
                Err(e) => Err(e),
                Ok(start) => spec_next_boundary(
                    start,
                    self.principal_frequency.spec_to_seconds(),
                    now,
                ),
            }
        }
    }

    pub fn next_principal_due_date(&self, now: Timestamp) -> (r: Result<Timestamp, ContractError>)
        ensures
            outcome(r) == self.spec_next_principal_due_date(now),
    {
        if self.term_start.is_unset() {
            return Err(ContractError::custom("Term not started"));
        }
        let start = advance(self.term_start, self.principal_grace_period as u128)?;
        next_boundary(start, self.principal_frequency.to_seconds(), now)
    }

    pub open spec fn spec_prev_interest_due_date(self, now: Timestamp) -> Result<
        Timestamp,
        Fault,
    > {
        if !self.term_started() {
            Err(Fault::Custom("Term not started"@))
        } else if now.nanos < self.term_start.nanos {
            Err(Fault::Custom("Term not started yet"@))
        } else {
            spec_prev_boundary(self.term_start, self.interest_frequency.spec_to_seconds(), now)
        }
    }

    /// The last date at or before `now` on which interest fell due.
    pub fn prev_interest_due_date(&self, now: Timestamp) -> (r: Result<Timestamp, ContractError>)
        ensures
            outcome(r) == self.spec_prev_interest_due_date(now),
    {
        if self.term_start.is_unset() {
            return Err(ContractError::custom("Term not started"));
        }
        if now.nanos < self.term_start.nanos {
            return Err(ContractError::custom("Term not started yet"));
        }
        prev_boundary(self.term_start, self.interest_frequency.to_seconds(), now)
    }

    pub open spec fn spec_prev_principal_due_date(self, now: Timestamp) -> Result<
        Timestamp,
        Fault,
    > {
        if !self.term_started() {
            Err(Fault::Custom("Term not started"@))
        } else {
            match self.spec_principal_start() {
                Err(e) => Err(e),
                Ok(start) => if now.nanos < start.nanos {
                    Err(Fault::Custom("Within principal grace period"@))
                } else {
                    spec_prev_boundary(start, self.principal_frequency.spec_to_seconds(), now)
                },
            }
        }
    }

    /// The last date at or before `now` on which principal fell due.
    pub fn prev_principal_due_date(&self, now: Timestamp) -> (r: Result<Timestamp, ContractError>)
        ensures
            outcome(r) == self.spec_prev_principal_due_date(now),
    {
        if self.term_start.is_unset() {
            return Err(ContractError::custom("Term not started"));
        }
        let start = advance(self.term_start, self.principal_grace_period as u128)?;
        if now.nanos < start.nanos {
            return Err(ContractError::custom("Within principal grace period"));
        }
        prev_boundary(start, self.principal_frequency.to_seconds(), now)
    }

    /// What accrues on the outstanding amount over `seconds` at an annual
    /// `rate` in basis points. Each division rounds down: first the amount by
    /// ten thousand, then the yearly charge by the seconds of a year.
    pub open spec fn spec_accrual(self, rate: u16, seconds: int) -> Result<u128, Fault> {
        let base = self.borrow_info.borrowed_amount as int / TEN_THOUSAND as int;
        if base * rate > u128::MAX {
            Err(Fault::Overflow)
        } else {
            let per_second = base * rate / SIY as int;
            if per_second * seconds > u128::MAX {
                Err(Fault::Overflow)
            } else {
                Ok((per_second * seconds) as u128)
            }
        }
    }

    fn accrual(&self, rate: u16, seconds: u64) -> (r: Result<u128, ContractError>)
        ensures
            outcome(r) == self.spec_accrual(rate, seconds as int),
    {
        let base: u128 = self.borrow_info.borrowed_amount / TEN_THOUSAND;
        let yearly: u128 = checked_mul(base, rate as u128)?;
        let per_second: u128 = yearly / SIY;
        checked_mul(per_second, seconds as u128)
    }

    pub open spec fn spec_gross_interest_accrued(self, now: Timestamp) -> Result<u128, Fault> {
        if !self.term_started() || now.nanos < self.term_start.nanos {
            Ok(0)
        } else {
            match self.spec_interest_over_period(self.last_update_ts, now) {
                Err(e) => Err(e),
                Ok(latest) => spec_add(self.interest_accrued, latest),
            }
        }
    }

    /// Interest accrued up to `now`: nothing before the term starts, and from
    /// then on what had accrued at the last update plus what the time since
    /// has added.
    pub fn _interest_accrued(&self, now: Timestamp) -> (r: Result<u128, ContractError>)
        ensures
            outcome(r) == self.spec_gross_interest_accrued(now),
    {
        if self.term_start.is_unset() {
            return Ok(0);
        }
        if now.nanos < self.term_start.nanos {
            return Ok(0);
        }
        let latest: u128 = self.interest_over_period(self.last_update_ts, now)?;
        checked_add(self.interest_accrued, latest)
    }

    pub open spec fn spec_interest_over_period(self, begin: Timestamp, end: Timestamp) -> Result<
        u128,
        Fault,
    > {
        if end.nanos < begin.nanos {
            Err(Fault::Custom("end timestamp is smaller than begin timestamp"@))
        } else {
            match self.spec_accrual(self.interest_apr, end.spec_seconds() - begin.spec_seconds()) {
                Err(e) => Err(e),
                Ok(interest) => match self.spec_late_fee_accrued_over_period(begin, end) {
                    Err(e) => Err(e),
                    Ok(late_fee) => spec_add(interest, late_fee),
                },
            }
        }
    }

    /// Interest and late fee on the outstanding amount between two moments.
    pub fn interest_over_period(&self, begin: Timestamp, end: Timestamp) -> (r: Result<
        u128,
        ContractError,
    >)
        ensures
            outcome(r) == self.spec_interest_over_period(begin, end),
    {
        if end.nanos < begin.nanos {
            return Err(ContractError::custom("end timestamp is smaller than begin timestamp"));
        }
        let period: u64 = end.seconds() - begin.seconds();
        let interest: u128 = self.accrual(self.interest_apr, period)?;
        let late_fee: u128 = self.late_fee_accrued_over_period(begin, end)?;
        checked_add(interest, late_fee)
    }

    /// The moment from which a late fee is charged within a period that
    /// begins at `begin`: the end of the grace period that follows the first
    /// due date after the last full payment, or `begin` where that is later.
    pub open spec fn spec_late_fee_start(self, begin: Timestamp) -> Result<Timestamp, Fault> {
        match self.spec_next_due_date(self.last_full_payment) {
            Err(e) => Err(e),
            Ok(oldest_unpaid) => match spec_advance(oldest_unpaid, self.grace_period as int) {
                Err(e) => Err(e),
                Ok(grace_end) => Ok(
                    if begin.nanos > grace_end.nanos {
                        begin
                    } else {
                        grace_end
                    },
                ),
            },
        }
    }

    pub open spec fn spec_late_fee_accrued_over_period(
        self,
        begin: Timestamp,
        end: Timestamp,
    ) -> Result<u128, Fault> {
        match self.spec_late_fee_start(begin) {
            Err(e) => Err(e),
            Ok(start) => if start.nanos > end.nanos {
                Ok(0)
            } else {
                self.spec_accrual(self.late_fee_apr, end.spec_seconds() - start.spec_seconds())
            },
        }
    }

    /// The late fee between two moments: the late-fee rate on the outstanding
    /// amount, for the part of the period that lies after the grace period.
    pub fn late_fee_accrued_over_period(&self, begin: Timestamp, end: Timestamp) -> (r: Result<
        u128,
        ContractError,
    >)
        ensures
            outcome(r) == self.spec_late_fee_accrued_over_period(begin, end),
    {
        let oldest_unpaid = self.next_due_date(self.last_full_payment)?;
        let grace_end = advance(oldest_unpaid, self.grace_period as u128)?;
        let late_fee_start = if begin.nanos > grace_end.nanos {
            begin
        } else {
            grace_end
        };
        if late_fee_start.nanos > end.nanos {
            return Ok(0);
        }
        let period: u64 = end.seconds() - late_fee_start.seconds();
        self.accrual(self.late_fee_apr, period)
    }

    /// Interest owed at `now`, before what was repaid is taken off.
    ///
    /// Nothing is owed before the term starts. After the term ends everything
    /// accrued is owed. In between, what is owed changes only on a due date:
    /// where the last interest due date lies between the last update and
    /// `now`, everything accrued is owed; otherwise the amount recorded at the
    /// last update stands.
    pub open spec fn spec_gross_interest_owed(self, now: Timestamp) -> Result<u128, Fault> {
        if !self.term_started() || now.nanos < self.term_start.nanos {
            Ok(0)
        } else if now.nanos > self.term_end.nanos {
            self.spec_gross_interest_accrued(now)
        } else {
            match self.spec_prev_interest_due_date(now) {
                Err(e) => Err(e),
                Ok(due) => if self.last_update_ts.nanos <= due.nanos && due.nanos <= now.nanos {
                    self.spec_gross_interest_accrued(now)
                } else {
                    Ok(self.interest_owed)
                },
            }
        }
    }

    pub fn _interest_owed(&self, now: Timestamp) -> (r: Result<u128, ContractError>)
        ensures
            outcome(r) == self.spec_gross_interest_owed(now),
    {
        if self.term_start.is_unset() {
            return Ok(0);
        }
        if now.nanos < self.term_start.nanos {
            return Ok(0);
        }
        if now.nanos > self.term_end.nanos {
            return self._interest_accrued(now);
        }
        let due = self.prev_interest_due_date(now)?;
        if self.last_update_ts.nanos <= due.nanos && due.nanos <= now.nanos {
            return self._interest_accrued(now);
        }
        Ok(self.interest_owed)
    }

    pub open spec fn spec_checkpoint(self, now: Timestamp) -> Result<CreditLine, Fault> {
        match self.spec_gross_interest_accrued(now) {
            Err(e) => Err(e),
            Ok(accrued) => match self.spec_gross_interest_owed(now) {
                Err(e) => Err(e),
                Ok(owed) => Ok(
                    CreditLine {
                        interest_accrued: accrued,
                        interest_owed: owed,
                        last_update_ts: now,
                        ..self
                    },
                ),
            },
        }
    }

    /// Brings the line up to `now`: records what has accrued and what is owed
    /// at `now`, both as they follow from the line before the call, and makes
    /// `now` the time of the last update.
    pub fn checkpoint(&mut self, now: Timestamp) -> (r: Result<(), ContractError>)
        ensures
            transition(*old(self), *final(self), r, old(self).spec_checkpoint(now)),
            r is Ok ==> final(self).borrow_info == old(self).borrow_info,
    {
        let accrued: u128 = self._interest_accrued(now)?;
        let owed: u128 = self._interest_owed(now)?;
        self.interest_accrued = accrued;
        self.interest_owed = owed;
        self.last_update_ts = now;
        Ok(())
    }

    /// Principal owed at `now`, before what was repaid is taken off: nothing
    /// within the principal grace period, and after it one instalment for
    /// each principal period that has passed, an instalment being what was
    /// drawn divided by the number of principal periods in the term.
    pub open spec fn spec_gross_principal_owed(self, now: Timestamp) -> Result<u128, Fault> {
        if !self.term_started() {
            Ok(0)
        } else {
            match self.spec_principal_start() {
                Err(e) => Err(e),
                Ok(start) => if now.nanos < start.nanos {
                    Ok(0)
                } else if self.term_end.nanos < self.term_start.nanos {
                    Err(Fault::Underflow)
                } else {
                    let period = self.principal_frequency.spec_to_seconds();
                    let periods_passed = (now.spec_seconds() - start.spec_seconds()) / period;
                    let total_payments = (self.term_end.spec_seconds()
                        - self.term_start.spec_seconds()) / period;
                    if total_payments == 0 {
                        Err(Fault::DivideByZero)
                    } else if self.borrow_info.total_borrowed as int / total_payments
                        * periods_passed > u128::MAX {
                        Err(Fault::Overflow)
                    } else {
                        Ok(
                            (self.borrow_info.total_borrowed as int / total_payments
                                * periods_passed) as u128,
                        )
                    }
                },
            }
        }
    }

    pub fn _principal_owed(&self, now: Timestamp) -> (r: Result<u128, ContractError>)
        ensures
            outcome(r) == self.spec_gross_principal_owed(now),
    {
        if self.term_start.is_unset() {
            return Ok(0);
        }
        let start = advance(self.term_start, self.principal_grace_period as u128)?;
        if now.nanos < start.nanos {
            return Ok(0);
        }
        if self.term_end.nanos < self.term_start.nanos {
            return Err(ContractError::Underflow);
        }
        let period: u64 = self.principal_frequency.to_seconds();
        let periods_passed: u64 = (now.seconds() - start.seconds()) / period;
        let total_payments: u64 = (self.term_end.seconds() - self.term_start.seconds()) / period;
        if total_payments == 0 {
            return Err(ContractError::DivideByZero);
        }
        let instalment: u128 = self.borrow_info.total_borrowed / (total_payments as u128);
        checked_mul(instalment, periods_passed as u128)
    }

    pub open spec fn spec_interest_owed(self, now: Timestamp) -> Result<u128, Fault> {
        spec_net(self.spec_gross_interest_owed(now), self.borrow_info.interest_repaid)
    }

    /// Interest owed at `now` and not yet repaid.
    pub fn interest_owed(&self, now: Timestamp) -> (r: Result<u128, ContractError>)
        ensures
            outcome(r) == self.spec_interest_owed(now),
    {
        let gross: u128 = self._interest_owed(now)?;
        Ok(gross.saturating_sub(self.borrow_info.interest_repaid))
    }

    /// Interest accrued up to `now`.
    pub fn interest_accrued(&self, now: Timestamp) -> (r: Result<u128, ContractError>)
        ensures
            outcome(r) == self.spec_gross_interest_accrued(now),
    {
        self._interest_accrued(now)
    }

    pub open spec fn spec_principal_owed(self, now: Timestamp) -> Result<u128, Fault> {
        spec_net(self.spec_gross_principal_owed(now), self.borrow_info.principal_repaid)
    }

    /// Principal owed at `now` and not yet repaid.
    pub fn principal_owed(&self, now: Timestamp) -> (r: Result<u128, ContractError>)
        ensures
            outcome(r) == self.spec_principal_owed(now),
    {
        let gross: u128 = self._principal_owed(now)?;
        Ok(gross.saturating_sub(self.borrow_info.principal_repaid))
    }

    /// A line is late once something is outstanding and the first due date
    /// after the last full payment has passed.
    pub open spec fn spec_is_late(self, now: Timestamp) -> Result<bool, Fault> {
        match self.spec_next_due_date(self.last_full_payment) {
            Err(e) => Err(e),
            Ok(due) => Ok(self.borrow_info.borrowed_amount > 0 && now.nanos > due.nanos),
        }
    }

    pub fn is_late(&self, now: Timestamp) -> (r: Result<bool, ContractError>)
        ensures
            outcome(r) == self.spec_is_late(now),
    {
        let due = self.next_due_date(self.last_full_payment)?;
        Ok(self.borrow_info.borrowed_amount > 0 && now.nanos > due.nanos)
    }

    pub open spec fn spec_repay(self, amount: u128, now: Timestamp) -> Result<
        (CreditLine, RepaymentInfo),
        Fault,
    > {
        if amount == 0 {
            Err(Fault::Custom("repayment amount is zero"@))
        } else {
            match self.spec_checkpoint(now) {
                Err(e) => Err(e),
                Ok(line) => match line.spec_interest_owed(now) {
                    Err(e) => Err(e),
                    Ok(interest_owed) => match line.spec_principal_owed(now) {
                        Err(e) => Err(e),
                        Ok(principal_owed) => {
                            let interest_repaid = spec_min(amount, interest_owed);
                            let rest = (amount - interest_repaid) as u128;
                            let principal_repaid = spec_min(rest, principal_owed);
                            let info = RepaymentInfo {
                                timestamp: now,
                                principal_repaid,
                                interest_repaid,
                                principal_pending: (principal_owed - principal_repaid) as u128,
                                interest_pending: (interest_owed - interest_repaid) as u128,
                                excess_amount: (rest - principal_repaid) as u128,
                            };
                            match spec_add(line.borrow_info.interest_repaid, interest_repaid) {
                                Err(e) => Err(e),
                                Ok(interest_total) => match spec_add(
                                    line.borrow_info.principal_repaid,
                                    principal_repaid,
                                ) {
                                    Err(e) => Err(e),
                                    Ok(principal_total) => Ok(
                                        (
                                            CreditLine {
                                                borrow_info: BorrowInfo {
                                                    interest_repaid: interest_total,
                                                    principal_repaid: principal_total,
                                                    ..line.borrow_info
                                                },
                                                last_full_payment: if info.interest_pending == 0
                                                    && info.principal_pending == 0 {
                                                    now
                                                } else {
                                                    line.last_full_payment
                                                },
                                                ..line
                                            },
                                            info,
                                        ),
                                    ),
                                },
                            }
                        },
                    },
                },
            }
        }
    }

    /// Takes a payment of `amount` at `now`.
    ///
    /// The line is brought up to `now` first. The payment goes to the interest
    /// owed, then to the principal owed, and what is left is the excess that
    /// goes back to the payer. What stays owed is reported as pending; where
    /// nothing stays owed, `now` becomes the date of the last full payment. A
    /// payment of zero is refused.
    pub fn repay(&mut self, amount: u128, now: Timestamp) -> (r: Result<
        RepaymentInfo,
        ContractError,
    >)
        ensures
            transition_with(*old(self), *final(self), r, old(self).spec_repay(amount, now)),
            r matches Ok(info) ==> {
                &&& info.interest_repaid + info.principal_repaid + info.excess_amount == amount
                &&& info.timestamp == now
                &&& info.interest_pending > 0 ==> info.principal_repaid == 0 && info.excess_amount
                    == 0
                &&& info.principal_pending > 0 ==> info.excess_amount == 0
                &&& final(self).borrow_info.interest_repaid == old(self).borrow_info.interest_repaid
                    + info.interest_repaid
                &&& final(self).borrow_info.principal_repaid == old(self).borrow_info.principal_repaid + info.principal_repaid
                &&& final(self).borrow_info.borrowed_amount == old(self).borrow_info.borrowed_amount
                &&& final(self).borrow_info.total_borrowed == old(self).borrow_info.total_borrowed
                &&& final(self).borrow_info.current_limit == old(self).borrow_info.current_limit
                &&& final(self).borrow_info.borrow_limit == old(self).borrow_info.borrow_limit
                &&& info.interest_pending == 0 && info.principal_pending == 0 ==> final(self).last_full_payment == now
            },
    {
        if amount == 0 {
            return Err(ContractError::custom("repayment amount is zero"));
        }
        let mut line: CreditLine = *self;
        line.checkpoint(now)?;
        let interest_owed: u128 = line.interest_owed(now)?;
        let principal_owed: u128 = line.principal_owed(now)?;
        let interest_repaid: u128 = if amount < interest_owed {
            amount
        } else {
            interest_owed
        };
        let rest: u128 = amount - interest_repaid;
        let principal_repaid: u128 = if rest < principal_owed {
            rest
        } else {
            principal_owed
        };
        let info = RepaymentInfo {
            timestamp: now,
            principal_repaid,
            interest_repaid,
            principal_pending: principal_owed - principal_repaid,
            interest_pending: interest_owed - interest_repaid,
            excess_amount: rest - principal_repaid,
        };
        line.borrow_info.interest_repaid = checked_add(
            line.borrow_info.interest_repaid,
            interest_repaid,
        )?;
        line.borrow_info.principal_repaid = checked_add(
            line.borrow_info.principal_repaid,
            principal_repaid,
        )?;
        if info.interest_pending == 0 && info.principal_pending == 0 {
            line.last_full_payment = now;
        }
        *self = line;
        Ok(info)
    }
}

/// A second checkpoint at the same moment changes nothing: it succeeds, and
/// leaves what has accrued, what is owed and everything else as the first
/// checkpoint left them.
pub proof fn lemma_checkpoint_idempotent(line: CreditLine, now: Timestamp)
    requires
        line.spec_checkpoint(now) is Ok,
    ensures
        line.spec_checkpoint(now) matches Ok(once) && once.spec_checkpoint(now) == Ok::<
            CreditLine,
            Fault,
        >(once),
{
    // Over a period of no length nothing accrues, at either rate.
    let base = line.borrow_info.borrowed_amount as int / TEN_THOUSAND as int;
    assert(base * line.interest_apr / SIY as int * 0 == 0) by (nonlinear_arith);
    assert(base * line.late_fee_apr / SIY as int * 0 == 0) by (nonlinear_arith);
}

/// The limits survive every change of a line: where what is outstanding is
/// within the current limit and the current limit within the maximum, the
/// same holds after a checkpoint, a drawdown and a repayment.
pub proof fn lemma_limits_preserved(
    line: CreditLine,
    amount: u128,
    total_principal_available: u128,
    now: Timestamp,
)
    requires
        line.limits_hold(),
    ensures
        line.spec_checkpoint(now) matches Ok(next) ==> next.limits_hold(),
        line.spec_drawdown(amount, total_principal_available, now) matches Ok(next)
            ==> next.limits_hold(),
        line.spec_repay(amount, now) matches Ok((next, _)) ==> next.limits_hold(),
        line.spec_set_limit(amount) matches Ok(next) ==> next.borrow_info.current_limit
            <= next.borrow_info.borrow_limit && (line.borrow_info.borrowed_amount <= amount
            ==> next.limits_hold()),
{
}

} // verus!
