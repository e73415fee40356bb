//! What a pool answers to questions about itself.

use crate::error::{ContractError, Fault, outcome};
use crate::math::{checked_add, checked_sub, spec_add, spec_sub, Decimal};
use crate::msg::{Asset, PoolInfo, PoolResponse};
use crate::state::{CreditLine, InvestorToken, PoolSlice, TranchePool};
use crate::timestamp::Timestamp;
use vstd::prelude::*;
use vstd::string::StringExecFns;

verus! {

/// Pools on one page of the list of pools where no limit is asked for.
pub const DEFAULT_LIMIT: u8 = 50;

/// The most pools on one page.
pub const MAX_LIMIT: u8 = 99;

/// One hundredth, in the atomic units of a decimal.
pub const ONE_PERCENT: u128 = 10000000000000000;

/// An annual rate in basis points as a decimal number of percent: 1250 is
/// 12.50.
pub fn apr_in_percent(interest_apr: u16) -> (apr: Decimal)
    ensures
        apr.atomics == interest_apr * ONE_PERCENT,
{
    Decimal::new(interest_apr as u128 * ONE_PERCENT)
}

/// The deposits of a slice, counted as zero where they do not fit.
pub open spec fn spec_deposited_or_zero(slice: PoolSlice) -> u128 {
    match slice.spec_deposited() {
        Ok(deposited) => deposited,
        Err(_) => 0,
    }
}

/// The deposits of the first `n` slices, summed up in order; a sum that does
/// not fit starts again from zero.
pub open spec fn spec_invested(slices: Seq<PoolSlice>, n: nat) -> u128
    decreases n,
{
    if n == 0 {
        0
    } else {
        match spec_add(
            spec_invested(slices, (n - 1) as nat),
            spec_deposited_or_zero(slices[n - 1]),
        ) {
            Ok(sum) => sum,
            Err(_) => 0,
        }
    }
}

fn invested(slices: &Vec<PoolSlice>) -> (sum: u128)
    ensures
        sum == spec_invested(slices@, slices@.len()),
{
    let mut sum: u128 = 0;
    let mut i: usize = 0;
    while i < slices.len()
        invariant
            i <= slices.len(),
            sum == spec_invested(slices@, i as nat),
        decreases slices.len() - i,
    {
        let deposited: u128 = match slices[i].deposited() {
            Ok(deposited) => deposited,
            Err(_) => 0,
        };
        sum =
        match checked_add(sum, deposited) {
            Ok(next) => next,
            Err(_) => 0,
        };
        i = i + 1;
    }
    sum
}

/// What can still be drawn from the newest slice: nothing unless the slice is
/// locked and its lock has not passed, else its deposits less what was drawn.
pub open spec fn spec_available_to_draw(slices: Seq<PoolSlice>, now: Timestamp) -> u128 {
    if slices.len() > 0 && slices.last().spec_is_locked()
        && slices.last().senior_tranche.locked_until.nanos > now.nanos {
        let deposited = spec_deposited_or_zero(slices.last());
        if deposited < slices.last().principal_deployed {
            0
        } else {
            (deposited - slices.last().principal_deployed) as u128
        }
    } else {
        0
    }
}

/// The interest that was owed at the last due date and is not repaid; zero
/// where there is no such date or the amount cannot be computed.
pub open spec fn spec_interest_pending(credit_line: CreditLine, now: Timestamp) -> u128 {
    let due = match credit_line.spec_prev_due_date(now) {
        Ok(date) => date,
        Err(_) => Timestamp { nanos: 0 },
    };
    match credit_line.spec_interest_owed(due) {
        Ok(owed) => owed,
        Err(_) => 0,
    }
}

fn find_asset(assets: &Vec<Asset>, denom: &String) -> (found: Option<usize>)
    ensures
        match found {
            Some(i) => i < assets@.len() && assets@[i as int].denom@ == denom@ && forall|j: int|
                0 <= j < i ==> (#[trigger] assets@[j]).denom@ != denom@,
            None => forall|j: int| 0 <= j < assets@.len() ==> (#[trigger] assets@[j]).denom@
                != denom@,
        },
{
    let mut i: usize = 0;
    while i < assets.len()
        invariant
            i <= assets.len(),
            forall|j: int| 0 <= j < i ==> (#[trigger] assets@[j]).denom@ != denom@,
        decreases assets.len() - i,
    {
        if assets[i].denom == *denom {
            return Some(i);
        }
        i = i + 1;
    }
    None
}

/// What a description of a pool says of the pool, its credit line and its
/// slices at `now`: every field of the description.
pub open spec fn spec_describes(
    info: PoolInfo,
    pool: TranchePool,
    credit_line: CreditLine,
    slices: Seq<PoolSlice>,
    accepted_assets: Seq<Asset>,
    now: Timestamp,
) -> bool {
    &&& info.pool_id == pool.pool_id
    &&& info.pool_name == pool.pool_name
    &&& info.borrower_name == pool.borrower_name
    &&& info.borrower == pool.borrower_addr
    &&& info.assets == credit_line.borrow_info.borrowed_amount
    &&& match info.asset_info {
        Some(asset) => exists|i: int|
            0 <= i < accepted_assets.len() && accepted_assets[i].denom@ == pool.denom@ && asset
                == accepted_assets[i] && (forall|j: int|
                0 <= j < i ==> (#[trigger] accepted_assets[j]).denom@ != pool.denom@),
        None => forall|j: int|
            0 <= j < accepted_assets.len() ==> (#[trigger] accepted_assets[j]).denom@
                != pool.denom@,
    }
    &&& info.apr.atomics == credit_line.interest_apr * ONE_PERCENT
    &&& info.pool_type == pool.pool_type
    &&& info.status@ == "Open"@
    &&& info.invested == spec_invested(slices, slices.len())
    &&& info.drawn == credit_line.borrow_info.total_borrowed
    &&& info.available_to_draw == spec_available_to_draw(slices, now)
    &&& info.interest_paid == credit_line.borrow_info.interest_repaid
    &&& info.interest_accrued == match credit_line.spec_gross_interest_accrued(now) {
        Ok(accrued) => accrued,
        Err(_) => 0,
    }
    &&& info.interest_pending == spec_interest_pending(credit_line, now)
    &&& slices.len() == 0 || slices.last().spec_is_locked() ==> info.tranche_id@ == ""@
    &&& slices.len() > 0 && !slices.last().spec_is_locked()
        ==> vstd::string::to_string_from_display_ensures::<u64>(
        &slices.last().junior_tranche.id,
        info.tranche_id,
    )
    &&& info.borrow_limit == credit_line.borrow_info.borrow_limit
    &&& info.junior_capital_locked == (slices.len() > 0
        && slices.last().junior_tranche.locked_until.nanos != 0)
    &&& info.pool_locked == (slices.len() > 0 && slices.last().spec_is_locked()
        && slices.last().senior_tranche.locked_until.nanos > now.nanos)
}

/// Describes a pool to the outside at `now`.
///
/// The description names the pool and its borrower, what is outstanding,
/// drawn and repaid in interest, the interest accrued up to `now` and the
/// interest pending since the last due date, the deposits of all slices,
/// what can still be drawn, the junior tranche that takes deposits, and the
/// first of `accepted_assets` in the currency of the pool. An amount that
/// cannot be computed is reported as zero.
pub fn get_pool_info(
    pool: &TranchePool,
    credit_line: &CreditLine,
    slices: &Vec<PoolSlice>,
    accepted_assets: &Vec<Asset>,
    now: Timestamp,
) -> (info: PoolInfo)
    ensures
        spec_describes(info, *pool, *credit_line, slices@, accepted_assets@, now),
{
    let invested: u128 = invested(slices);
    let mut junior_capital_locked = false;
    let mut pool_locked = false;
    let mut amount_available: u128 = 0;
    if slices.len() > 0 {
        let slice = &slices[slices.len() - 1];
        if !slice.junior_tranche.locked_until.is_unset() {
            junior_capital_locked = true;
        }
        if slice.is_locked() && slice.senior_tranche.locked_until.nanos > now.nanos {
            pool_locked = true;
            let deposited: u128 = match slice.deposited() {
                Ok(deposited) => deposited,
                Err(_) => 0,
            };
            amount_available = deposited.saturating_sub(slice.principal_deployed);
        }
    }
    let due = match credit_line.prev_due_date(now) {
        Ok(date) => date,
        Err(_) => Timestamp::default(),
    };
    let interest_pending: u128 = match credit_line.interest_owed(due) {
        Ok(owed) => owed,
        Err(_) => 0,
    };
    let tranche_id: String = if slices.len() == 0 || slices[slices.len() - 1].is_locked() {
        String::from_str("")
    } else {
        slices[slices.len() - 1].junior_tranche.id.to_string()
    };
    let asset_info: Option<Asset> = match find_asset(accepted_assets, &pool.denom) {
        Some(i) => Some(copy_asset(&accepted_assets[i])),
        None => None,
    };
    let interest_accrued: u128 = match credit_line.interest_accrued(now) {
        Ok(accrued) => accrued,
        Err(_) => 0,
    };
    PoolInfo {
        pool_id: pool.pool_id,
        pool_name: pool.pool_name.clone(),
        borrower_name: pool.borrower_name.clone(),
        borrower: pool.borrower_addr.clone(),
        assets: credit_line.borrow_info.borrowed_amount,
        asset_info,
        apr: apr_in_percent(credit_line.interest_apr),
        pool_type: pool.pool_type,
        status: String::from_str("Open"),
        invested,
        drawn: credit_line.borrow_info.total_borrowed,
        available_to_draw: amount_available,
        interest_paid: credit_line.borrow_info.interest_repaid,
        interest_accrued,
        interest_pending,
        tranche_id,
        borrow_limit: credit_line.borrow_info.borrow_limit,
        junior_capital_locked,
        pool_locked,
    }
}

fn copy_asset(asset: &Asset) -> (copy: Asset)
    ensures
        copy == *asset,
{
    Asset {
        name: asset.name.clone(),
        denom: asset.denom.clone(),
        decimal: asset.decimal,
        uri: match &asset.uri {
            Some(uri) => Some(uri.clone()),
            None => None,
        },
    }
}

/// The ids on one page of the list of pools: from `start`, or from the first
/// pool, as many as `limit` asks for, fifty where it asks for none and never
/// more than ninety-nine.
pub open spec fn spec_page(start: Option<u64>, limit: Option<u8>) -> Result<(u64, u64), Fault> {
    let first = match start {
        Some(id) => id,
        None => 1u64,
    };
    let asked = match limit {
        Some(n) => n,
        None => DEFAULT_LIMIT,
    };
    let count = if asked < MAX_LIMIT {
        asked
    } else {
        MAX_LIMIT
    };
    if first + count > u64::MAX {
        Err(Fault::Overflow)
    } else {
        Ok((first, (first + count) as u64))
    }
}

/// The first id of a page of the list of pools, and the id after its last.
pub fn page(start: Option<u64>, limit: Option<u8>) -> (r: Result<(u64, u64), ContractError>)
    ensures
        outcome(r) == spec_page(start, limit),
{
    let first: u64 = match start {
        Some(id) => id,
        None => 1,
    };
    let asked: u8 = match limit {
        Some(n) => n,
        None => DEFAULT_LIMIT,
    };
    let count: u8 = if asked < MAX_LIMIT {
        asked
    } else {
        MAX_LIMIT
    };
    match first.checked_add(count as u64) {
        Some(end) => Ok((first, end)),
        None => Err(ContractError::Overflow),
    }
}

/// What a line of the list of pools says of a pool and its credit line.
pub open spec fn spec_lists(
    line: PoolResponse,
    pool: TranchePool,
    credit_line: CreditLine,
    decimals: u32,
) -> bool {
    &&& line.pool_id == pool.pool_id
    &&& line.pool_name == pool.pool_name
    &&& line.borrower_name == pool.borrower_name
    &&& line.borrower == pool.borrower_addr
    &&& line.assets == credit_line.borrow_info.borrowed_amount
    &&& line.denom == pool.denom
    &&& line.decimals == decimals
    &&& line.apr.atomics == credit_line.interest_apr * ONE_PERCENT
    &&& line.pool_type == pool.pool_type
    &&& line.status@ == "OPEN"@
}

/// The line of a pool in the list of pools.
pub fn pool_response(pool: &TranchePool, credit_line: &CreditLine, decimals: u32) -> (line:
    PoolResponse)
    ensures
        spec_lists(line, *pool, *credit_line, decimals),
{
    PoolResponse {
        pool_id: pool.pool_id,
        pool_name: pool.pool_name.clone(),
        borrower_name: pool.borrower_name.clone(),
        borrower: pool.borrower_addr.clone(),
        assets: credit_line.borrow_info.borrowed_amount,
        denom: pool.denom.clone(),
        decimals,
        apr: apr_in_percent(credit_line.interest_apr),
        pool_type: pool.pool_type,
        status: String::from_str("OPEN"),
    }
}

/// The deposits of the first `n` slices, or `Overflow`.
pub open spec fn spec_total_pool_deposit(slices: Seq<PoolSlice>, n: nat) -> Result<u128, Fault>
    decreases n,
{
    if n == 0 {
        Ok(0)
    } else {
        match spec_total_pool_deposit(slices, (n - 1) as nat) {
            Err(e) => Err(e),
            Ok(sum) => match slices[n - 1].spec_deposited() {
                Err(e) => Err(e),
                Ok(deposited) => spec_add(sum, deposited),
            },
        }
    }
}

/// Once the sum over the first `n` slices has failed, so has the sum over more.
pub proof fn lemma_total_pool_deposit_stops(slices: Seq<PoolSlice>, n: nat, m: nat)
    requires
        n <= m,
        spec_total_pool_deposit(slices, n) is Err,
    ensures
        spec_total_pool_deposit(slices, m) == spec_total_pool_deposit(slices, n),
    decreases m,
{
    if n < m {
        lemma_total_pool_deposit_stops(slices, n, (m - 1) as nat);
    }
}

/// Everything deposited in the slices of a pool.
pub fn total_pool_deposit(slices: &Vec<PoolSlice>) -> (r: Result<u128, ContractError>)
    ensures
        outcome(r) == spec_total_pool_deposit(slices@, slices@.len()),
{
    let mut amount: u128 = 0;
    let mut i: usize = 0;
    while i < slices.len()
        invariant
            i <= slices.len(),
            spec_total_pool_deposit(slices@, i as nat) == Ok::<u128, Fault>(amount),
        decreases slices.len() - i,
    {
        proof {
            if spec_total_pool_deposit(slices@, (i + 1) as nat) is Err {
                lemma_total_pool_deposit_stops(slices@, (i + 1) as nat, slices@.len());
            }
        }
        let deposited: u128 = slices[i].deposited()?;
        amount = checked_add(amount, deposited)?;
        i = i + 1;
    }
    Ok(amount)
}

/// What a pool has drawn and not repaid in principal.
pub fn pool_value_locked(credit_line: &CreditLine) -> (r: Result<u128, ContractError>)
    ensures
        outcome(r) == spec_sub(
            credit_line.borrow_info.total_borrowed,
            credit_line.borrow_info.principal_repaid,
        ),
{
    checked_sub(credit_line.borrow_info.total_borrowed, credit_line.borrow_info.principal_repaid)
}

/// What one pool adds to the value locked: what it has drawn and not repaid
/// in principal, and nothing where it has repaid more than it drew.
pub open spec fn spec_locked_in(credit_line: CreditLine) -> u128 {
    if credit_line.borrow_info.total_borrowed < credit_line.borrow_info.principal_repaid {
        0
    } else {
        (credit_line.borrow_info.total_borrowed
            - credit_line.borrow_info.principal_repaid) as u128
    }
}

/// The value locked in the first `n` pools, summed up in order; a pool that
/// would take the sum beyond 128 bits is left out.
pub open spec fn spec_total_value_locked(credit_lines: Seq<CreditLine>, n: nat) -> u128
    decreases n,
{
    if n == 0 {
        0
    } else {
        let so_far = spec_total_value_locked(credit_lines, (n - 1) as nat);
        match spec_add(so_far, spec_locked_in(credit_lines[n - 1])) {
            Ok(sum) => sum,
            Err(_) => so_far,
        }
    }
}

/// The value locked in all the given pools.
pub fn total_value_locked(credit_lines: &Vec<CreditLine>) -> (locked: u128)
    ensures
        locked == spec_total_value_locked(credit_lines@, credit_lines@.len()),
{
    let mut locked_amount: u128 = 0;
    let mut i: usize = 0;
    while i < credit_lines.len()
        invariant
            i <= credit_lines.len(),
            locked_amount == spec_total_value_locked(credit_lines@, i as nat),
        decreases credit_lines.len() - i,
    {
        let pool_value_locked: u128 = match pool_value_locked(&credit_lines[i]) {
            Ok(value) => value,
            Err(_) => 0,
        };
        locked_amount =
        match checked_add(locked_amount, pool_value_locked) {
            Ok(sum) => sum,
            Err(_) => locked_amount,
        };
        i = i + 1;
    }
    locked_amount
}

/// Those of the first `n` tokens that belong to the pool, in their order.
pub open spec fn spec_investments(tokens: Seq<InvestorToken>, n: nat, pool_id: u64) -> Seq<
    InvestorToken,
>
    decreases n,
{
    if n == 0 {
        Seq::empty()
    } else if tokens[n - 1].pool_id == pool_id {
        spec_investments(tokens, (n - 1) as nat, pool_id).push(tokens[n - 1])
    } else {
        spec_investments(tokens, (n - 1) as nat, pool_id)
    }
}

/// The investor tokens of an owner that belong to the pool `pool_id`.
pub fn get_investments(tokens: &Vec<InvestorToken>, pool_id: u64) -> (investments: Vec<
    InvestorToken,
>)
    ensures
        investments@ == spec_investments(tokens@, tokens@.len(), pool_id),
{
    let mut investments: Vec<InvestorToken> = Vec::new();
    let mut i: usize = 0;
    while i < tokens.len()
        invariant
            i <= tokens.len(),
            investments@ == spec_investments(tokens@, i as nat, pool_id),
        decreases tokens.len() - i,
    {
        if tokens[i].pool_id == pool_id {
            investments.push(tokens[i]);
        }
        i = i + 1;
    }
    investments
}

} // verus!
