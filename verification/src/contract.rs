//! The operations of a pool: create, deposit, lock, draw down, repay and
//! withdraw.
//!
//! An operation is a decision on values: it is handed the records of the pool
//! it concerns, the sender and the funds of the message, what the identity
//! provider said of the sender, and the present moment. It checks the message,
//! changes the records and says what is to be paid or minted. An operation
//! that fails leaves every record as it was.

use crate::error::{ContractError, Fault, outcome, transition_with};
use crate::credit_line::{lemma_limits_preserved, spec_min};
use crate::helpers::{
    apply_to_all_slices, ensure_drawdown_unpaused, ensure_empty_funds, ensure_kyc, find_tranche,
    get_grace_period, get_tranche_info, initialize_next_slice, prices_not_lowered,
    scale_for_slice, spec_apply_to_all_slices, spec_funds_empty, spec_scale_for_slice,
    spec_tranche_info, spec_validate_create_pool_msg, spec_with_tranche,
    validate_create_pool_msg, RepaymentAllocation,
};
use crate::math::{
    checked_add, checked_sub, share_price_to_usdc, spec_add, spec_share_price_to_usdc, spec_sub,
};
use crate::msg::{
    CreatePoolMsg, DepositMsg, DrawdownMsg, InstantiateMsg, MessageInfo, RepayMsg, WithdrawMsg,
};
use crate::state::{
    Config, CreditLine, InvestorToken, LendInfo, PoolSlice, RepaymentInfo, TrancheInfo,
    TranchePool,
};
use crate::timestamp::{advance, spec_advance, Timestamp};
use crate::GRACE_PERIOD;
use vstd::prelude::*;
use vstd::string::StringExecFns;

verus! {

/// The least that an address which is no backer of a pool can deposit.
pub const MIN_DEPOSIT: u128 = 10000000000;

/// Ten to the power of `n`.
pub open spec fn spec_pow10(n: nat) -> nat
    decreases n,
{
    if n == 0 {
        1
    } else {
        10 * spec_pow10((n - 1) as nat)
    }
}

pub open spec fn spec_decimals_pow(decimals: u8) -> Result<u32, Fault> {
    if spec_pow10(decimals as nat) > u32::MAX {
        Err(Fault::Overflow)
    } else {
        Ok(spec_pow10(decimals as nat) as u32)
    }
}

/// Ten to the power of `decimals`: the number of base units in one unit of a
/// currency with so many decimals. `Overflow` beyond 32 bits.
pub fn decimals_pow(decimals: u8) -> (r: Result<u32, ContractError>)
    ensures
        outcome(r) == spec_decimals_pow(decimals),
{
    let mut power: u32 = 1;
    let mut i: u8 = 0;
    while i < decimals
        invariant
            i <= decimals,
            power == spec_pow10(i as nat),
        decreases decimals - i,
    {
        proof {
            lemma_pow10_grows((i + 1) as nat, decimals as nat);
        }
        match power.checked_mul(10) {
            Some(next) => {
                power = next;
            },
            None => {
                return Err(ContractError::Overflow);
            },
        }
        i = i + 1;
    }
    Ok(power)
}

/// Powers of ten grow with the exponent.
pub proof fn lemma_pow10_grows(n: nat, m: nat)
    requires
        n <= m,
    ensures
        1 <= spec_pow10(n) <= spec_pow10(m),
    decreases m,
{
    if n < m {
        lemma_pow10_grows(n, (m - 1) as nat);
    } else if n > 0 {
        lemma_pow10_grows((n - 1) as nat, (n - 1) as nat);
    }
}

pub open spec fn spec_instantiate(info: MessageInfo, msg: InstantiateMsg) -> Result<
    (Config, u32),
    Fault,
> {
    if !spec_funds_empty(info) {
        Err(Fault::FundsNotAllowed)
    } else {
        match spec_decimals_pow(msg.decimals) {
            Err(e) => Err(e),
            Ok(unit) => Ok(
                (
                    Config {
                        pool_id: 0,
                        admin: msg.admin,
                        grace_period: None,
                        token_id: 0,
                        token_issuer: info.sender,
                        reserve_fee: msg.reserves_fee,
                    },
                    unit,
                ),
            ),
        }
    }
}

/// Sets the contract up: the message carries no funds, the sender issues the
/// investor tokens until the token contract has answered, and the first
/// currency is whitelisted. Returns the configuration and the number of base
/// units in one unit of that currency.
pub fn instantiate(info: &MessageInfo, msg: &InstantiateMsg) -> (r: Result<
    (Config, u32),
    ContractError,
>)
    ensures
        outcome(r) == spec_instantiate(*info, *msg),
{
    ensure_empty_funds(info)?;
    let unit: u32 = decimals_pow(msg.decimals)?;
    let config = Config {
        pool_id: 0,
        admin: msg.admin.clone(),
        grace_period: None,
        token_id: 0,
        token_issuer: info.sender.clone(),
        reserve_fee: msg.reserves_fee,
    };
    Ok((config, unit))
}

/// Only the admin may change the settings of the contract.
pub open spec fn spec_ensure_admin(config: Config, info: MessageInfo) -> Result<(), Fault> {
    if info.sender@ == config.admin@ {
        Ok(())
    } else {
        Err(Fault::Unauthorized)
    }
}

/// Whitelists a currency of `decimals` decimals, for the admin alone, and
/// returns the number of base units in one unit of it.
pub fn whitelist_token(config: &Config, info: &MessageInfo, decimals: u8) -> (r: Result<
    u32,
    ContractError,
>)
    ensures
        outcome(r) == match spec_ensure_admin(*config, *info) {
            Err(e) => Err(e),
            Ok(_) => spec_decimals_pow(decimals),
        },
{
    if !(info.sender == config.admin) {
        return Err(ContractError::Unauthorized {  });
    }
    decimals_pow(decimals)
}

/// Lets the admin, and nobody else, name another identity provider.
pub fn set_kyc_contract(config: &Config, info: &MessageInfo) -> (r: Result<(), ContractError>)
    ensures
        outcome(r) == spec_ensure_admin(*config, *info),
{
    if !(info.sender == config.admin) {
        return Err(ContractError::Unauthorized {  });
    }
    Ok(())
}

/// The records of a pool that was just created.
pub struct NewPool {
    pub pool: TranchePool,
    pub credit_line: CreditLine,
    pub slices: Vec<PoolSlice>,
}

/// The first reason, if any, for which a request for a new pool is refused.
pub open spec fn spec_create_pool_check(
    config: Config,
    info: MessageInfo,
    msg: CreatePoolMsg,
    borrower_has_kyc: bool,
    denom_whitelisted: bool,
    senior_pool_set: bool,
) -> Result<(), Fault> {
    if info.sender@ != msg.borrower@ && info.sender@ != config.admin@ {
        Err(Fault::Unauthorized)
    } else if !spec_funds_empty(info) {
        Err(Fault::FundsNotAllowed)
    } else if !borrower_has_kyc {
        Err(Fault::Custom("non-KYC user"@))
    } else {
        match spec_validate_create_pool_msg(denom_whitelisted, msg) {
            Err(e) => Err(e),
            Ok(_) => if !senior_pool_set {
                Err(Fault::Custom("Senior Pool not set for "@ + msg.denom@))
            } else if config.pool_id == u64::MAX {
                Err(Fault::Overflow)
            } else {
                Ok(())
            },
        }
    }
}

/// The record of the pool that a request creates at `now`: it gets the id
/// after the last one handed out.
pub open spec fn spec_new_pool(config: Config, msg: CreatePoolMsg, now: Timestamp) -> TranchePool {
    TranchePool {
        pool_id: (config.pool_id + 1) as u64,
        pool_name: msg.pool_name,
        borrower_addr: msg.borrower,
        borrower_name: msg.borrower_name,
        creation_info: now,
        pool_type: msg.pool_type,
        denom: msg.denom,
        backers: msg.backers,
    }
}

/// The credit line of the pool that a request creates at `now`: the terms of
/// the request, with the grace period that is configured, or seven days.
pub open spec fn spec_new_credit_line(config: Config, msg: CreatePoolMsg, now: Timestamp)
    -> CreditLine {
    CreditLine::spec_new(
        msg.borrow_limit,
        msg.term_length,
        msg.drawdown_period,
        match config.grace_period {
            Some(configured) => configured,
            None => GRACE_PERIOD,
        },
        msg.principal_grace_period,
        msg.interest_apr,
        msg.late_fee_apr,
        msg.junior_fee_percent,
        msg.interest_frequency,
        msg.principal_frequency,
        now,
    )
}

/// Creates a pool for the borrower that `msg` names.
///
/// The sender is the borrower or the admin and sends no funds; the borrower
/// has passed the identity check; the message is valid for a whitelisted
/// currency; and a senior pool is set for that currency. The pool gets the
/// next pool id, a credit line with the terms of the message on which nothing
/// may be drawn yet, and one empty slice.
pub fn create_pool(
    config: &mut Config,
    info: &MessageInfo,
    msg: CreatePoolMsg,
    borrower_has_kyc: bool,
    denom_whitelisted: bool,
    senior_pool_set: bool,
    now: Timestamp,
) -> (r: Result<NewPool, ContractError>)
    ensures
        match spec_create_pool_check(
            *old(config),
            *info,
            msg,
            borrower_has_kyc,
            denom_whitelisted,
            senior_pool_set,
        ) {
            Err(e) => r matches Err(x) && x@ == e && *final(config) == *old(config),
            Ok(_) => r matches Ok(created) && {
                &&& *final(config) == (Config {
                    pool_id: (old(config).pool_id + 1) as u64,
                    ..*old(config)
                })
                &&& created.pool == spec_new_pool(*old(config), msg, now)
                &&& created.credit_line == spec_new_credit_line(*old(config), msg, now)
                &&& created.slices@ == seq![PoolSlice::spec_new(0)->Ok_0]
            },
        },
{
    if !(info.sender == msg.borrower) && !(info.sender == config.admin) {
        return Err(ContractError::Unauthorized {  });
    }
    ensure_empty_funds(info)?;
    ensure_kyc(borrower_has_kyc)?;
    validate_create_pool_msg(denom_whitelisted, &msg)?;
    if !senior_pool_set {
        let text = String::from_str("Senior Pool not set for ").concat(msg.denom.as_str());
        return Err(ContractError::CustomError { msg: text });
    }
    if config.pool_id == u64::MAX {
        return Err(ContractError::Overflow);
    }
    let grace_period: u64 = get_grace_period(config);
    let credit_line = CreditLine::new(
        msg.borrow_limit,
        msg.term_length,
        msg.drawdown_period,
        grace_period,
        msg.principal_grace_period,
        msg.interest_apr,
        msg.late_fee_apr,
        msg.junior_fee_percent,
        msg.interest_frequency,
        msg.principal_frequency,
        now,
    );
    let mut slices: Vec<PoolSlice> = Vec::new();
    initialize_next_slice(&mut slices)?;
    config.pool_id = config.pool_id + 1;
    let pool = TranchePool::new(
        config.pool_id,
        msg.pool_name,
        msg.borrower,
        msg.borrower_name,
        msg.denom,
        msg.backers,
        msg.pool_type,
        now,
    );
    Ok(NewPool { pool, credit_line, slices })
}

/// The funds of a deposit or a repayment: one coin, not of amount zero, of
/// the amount that the message names.
pub open spec fn spec_deposit_funds(info: MessageInfo, amount: u128) -> Result<(), Fault> {
    if info.funds@.len() == 0 {
        Err(Fault::EmptyFunds)
    } else if info.funds@.len() == 1 && info.funds@[0].amount == 0 {
        Err(Fault::EmptyFunds)
    } else if info.funds@.len() > 1 {
        Err(Fault::MultipleTokens)
    } else if info.funds@[0].amount != amount {
        Err(Fault::FundDiscrepancy { required: amount, sent: info.funds@[0].amount })
    } else {
        Ok(())
    }
}

/// What a deposit does, or the first reason for which it is refused.
pub open spec fn spec_deposit(
    pool: TranchePool,
    slices: Seq<PoolSlice>,
    config: Config,
    senior_pool: Option<String>,
    sender_has_kyc: bool,
    info: MessageInfo,
    msg: DepositMsg,
) -> Result<(Seq<PoolSlice>, InvestorToken), Fault> {
    if !sender_has_kyc {
        Err(Fault::Custom("non-KYC user"@))
    } else {
        match spec_deposit_funds(info, msg.amount) {
            Err(e) => Err(e),
            Ok(_) => if pool.denom@ != info.funds@[0].denom@ {
                Err(Fault::Custom("Incorrect denom for deposit"@))
            } else if !pool.spec_is_backer(info.sender@) && msg.amount < MIN_DEPOSIT {
                Err(Fault::Custom("Minimum deposit amount for non backers is 10000000000"@))
            } else {
                match senior_pool {
                    None => Err(Fault::SeniorPoolNotFound(pool.denom@)),
                    Some(senior) => if config.token_id == u128::MAX {
                        Err(Fault::Overflow)
                    } else {
                        match spec_tranche_info(msg.tranche_id, slices) {
                            Err(e) => Err(e),
                            Ok(tranche) => if tranche.id % 2 == 1 && info.sender@ != senior@ {
                                Err(Fault::NotSeniorPool)
                            } else if tranche.locked_until.nanos != 0 {
                                Err(Fault::Custom("Tranche is locked"@))
                            } else {
                                match spec_add(tranche.principal_deposited, msg.amount) {
                                    Err(e) => Err(e),
                                    Ok(deposited) => Ok(
                                        (
                                            spec_with_tranche(
                                                slices,
                                                msg.tranche_id,
                                                TrancheInfo {
                                                    principal_deposited: deposited,
                                                    ..tranche
                                                },
                                            ),
                                            InvestorToken {
                                                token_id: (config.token_id + 1) as u128,
                                                pool_id: msg.pool_id,
                                                tranche_id: tranche.id,
                                                lend_info: LendInfo {
                                                    principal_deposited: msg.amount,
                                                    principal_redeemed: 0,
                                                    interest_redeemed: 0,
                                                },
                                            },
                                        ),
                                    ),
                                }
                            },
                        }
                    },
                }
            },
        }
    }
}

/// Takes a deposit into a tranche of the pool and returns the investor token
/// to mint for it.
///
/// The sender has passed the identity check and sends exactly the amount
/// that the message names, in the currency of the pool. Who is no backer of
/// the pool deposits at least the minimum. Only the senior pool of the
/// currency deposits into a senior tranche, and nobody into a tranche that
/// is locked. The deposit is added to the tranche, and the token gets the
/// next token id.
pub fn deposit(
    pool: &TranchePool,
    slices: &mut Vec<PoolSlice>,
    config: &mut Config,
    senior_pool: &Option<String>,
    sender_has_kyc: bool,
    info: &MessageInfo,
    msg: &DepositMsg,
) -> (r: Result<InvestorToken, ContractError>)
    ensures
        match spec_deposit(
            *pool,
            old(slices)@,
            *old(config),
            *senior_pool,
            sender_has_kyc,
            *info,
            *msg,
        ) {
            Ok((after, token)) => r == Ok::<InvestorToken, ContractError>(token) && final(slices)@
                == after && *final(config) == (Config { token_id: token.token_id, ..*old(config) }),
            Err(e) => r matches Err(x) && x@ == e && final(slices)@ == old(slices)@ && *final(config) == *old(config),
        },
{
    ensure_kyc(sender_has_kyc)?;
    if info.funds.len() == 0 {
        return Err(ContractError::EmptyFunds);
    }
    if info.funds.len() == 1 && info.funds[0].amount == 0 {
        return Err(ContractError::EmptyFunds);
    }
    if info.funds.len() > 1 {
        return Err(ContractError::MultipleTokens);
    }
    if info.funds[0].amount != msg.amount {
        return Err(
            ContractError::FundDiscrepancy { required: msg.amount, sent: info.funds[0].amount },
        );
    }
    if !(pool.denom == info.funds[0].denom) {
        return Err(ContractError::custom("Incorrect denom for deposit"));
    }
    if !pool.is_backer(&info.sender) && msg.amount < MIN_DEPOSIT {
        return Err(
            ContractError::custom("Minimum deposit amount for non backers is 10000000000"),
        );
    }
    let senior = match senior_pool {
        Some(address) => address,
        None => {
            return Err(ContractError::SeniorPoolNotFound { denom: pool.denom.clone() });
        },
    };
    if config.token_id == u128::MAX {
        return Err(ContractError::Overflow);
    }
    let tranche_info = get_tranche_info(msg.tranche_id, slices)?;
    let tranche_id: u64 = tranche_info.id;
    if tranche_info.is_senior_tranche() && !(info.sender == *senior) {
        return Err(ContractError::NotSeniorPool);
    }
    if !tranche_info.locked_until.is_unset() {
        return Err(ContractError::custom("Tranche is locked"));
    }
    let deposited: u128 = checked_add(tranche_info.principal_deposited, msg.amount)?;
    tranche_info.principal_deposited = deposited;
    config.token_id = config.token_id + 1;
    let mut nft = InvestorToken::new(config.token_id, msg.pool_id, tranche_id);
    nft.lend_info.principal_deposited = msg.amount;
    Ok(nft)
}

/// The funds at hand in a slice: the value of each tranche's deposits at its
/// principal share price.
pub open spec fn spec_tranche_funds(slice: PoolSlice) -> Result<u128, Fault> {
    match spec_share_price_to_usdc(
        slice.junior_tranche.principal_share_price,
        slice.junior_tranche.principal_deposited,
    ) {
        Err(e) => Err(e),
        Ok(junior) => match spec_share_price_to_usdc(
            slice.senior_tranche.principal_share_price,
            slice.senior_tranche.principal_deposited,
        ) {
            Err(e) => Err(e),
            Ok(senior) => spec_add(junior, senior),
        },
    }
}

/// The funds that a drawdown can still take from a slice.
pub fn tranche_funds(slice: &PoolSlice) -> (r: Result<u128, ContractError>)
    ensures
        outcome(r) == spec_tranche_funds(*slice),
{
    let junior: u128 = share_price_to_usdc(
        slice.junior_tranche.principal_share_price,
        slice.junior_tranche.principal_deposited,
    )?;
    let senior: u128 = share_price_to_usdc(
        slice.senior_tranche.principal_share_price,
        slice.senior_tranche.principal_deposited,
    )?;
    checked_add(junior, senior)
}

/// A slice after `amount` of the `funds` at hand in it was drawn: both
/// tranches hold their part of what is left, and the amount counts as
/// deployed.
pub open spec fn spec_deploy(slice: PoolSlice, funds: u128, amount: u128) -> Result<
    PoolSlice,
    Fault,
> {
    let remaining = (funds - amount) as u128;
    match slice.junior_tranche.spec_expected_share_price(remaining, slice) {
        Err(e) => Err(e),
        Ok(junior_price) => {
            let first = PoolSlice {
                junior_tranche: TrancheInfo {
                    principal_share_price: junior_price,
                    ..slice.junior_tranche
                },
                ..slice
            };
            match first.senior_tranche.spec_expected_share_price(remaining, first) {
                Err(e) => Err(e),
                Ok(senior_price) => match spec_add(slice.principal_deployed, amount) {
                    Err(e) => Err(e),
                    Ok(deployed) => Ok(
                        PoolSlice {
                            senior_tranche: TrancheInfo {
                                principal_share_price: senior_price,
                                ..first.senior_tranche
                            },
                            principal_deployed: deployed,
                            ..first
                        },
                    ),
                },
            }
        },
    }
}

/// What a drawdown does to the credit line and the slices of a pool, or the
/// first reason for which it is refused.
pub open spec fn spec_drawdown(
    pool: TranchePool,
    slices: Seq<PoolSlice>,
    credit_line: CreditLine,
    paused: bool,
    sender_has_kyc: bool,
    info: MessageInfo,
    msg: DrawdownMsg,
    now: Timestamp,
) -> Result<(CreditLine, Seq<PoolSlice>), Fault> {
    if !spec_funds_empty(info) {
        Err(Fault::FundsNotAllowed)
    } else if paused {
        Err(Fault::Custom("Drawdowns have been paused"@))
    } else if !sender_has_kyc {
        Err(Fault::Custom("non-KYC user"@))
    } else if info.sender@ != pool.borrower_addr@ {
        Err(Fault::Unauthorized)
    } else if slices.len() == 0 {
        Err(Fault::Custom("Tranches not initialized"@))
    } else if !slices.last().spec_is_locked() {
        Err(Fault::Custom("Pool not locked"@))
    } else {
        match spec_tranche_funds(slices.last()) {
            Err(e) => Err(e),
            Ok(funds) => if msg.amount > funds {
                Err(Fault::DrawdownExceedsLimit(funds))
            } else {
                match credit_line.spec_drawdown(msg.amount, funds, now) {
                    Err(e) => Err(e),
                    Ok(line) => match spec_deploy(slices.last(), funds, msg.amount) {
                        Err(e) => Err(e),
                        Ok(top) => Ok((line, slices.update(slices.len() - 1, top))),
                    },
                }
            },
        }
    }
}

/// Lets the borrower draw `msg.amount` from the newest slice of the pool.
///
/// The message carries no funds, drawdowns are not paused, and the sender
/// is the borrower and has passed the identity check. The newest slice is
/// locked, and the amount fits both the funds at hand in its tranches and
/// the limit of the credit line. The credit line records the drawdown; in
/// the slice the principal share price of both tranches falls to their part
/// of what is left, and the amount is added to what is deployed. The caller
/// pays the amount out to the borrower.
pub fn drawdown(
    pool: &TranchePool,
    slices: &mut Vec<PoolSlice>,
    credit_line: &mut CreditLine,
    paused: bool,
    sender_has_kyc: bool,
    info: &MessageInfo,
    msg: &DrawdownMsg,
    now: Timestamp,
) -> (r: Result<(), ContractError>)
    ensures
        match spec_drawdown(
            *pool,
            old(slices)@,
            *old(credit_line),
            paused,
            sender_has_kyc,
            *info,
            *msg,
            now,
        ) {
            Ok((line, after)) => r is Ok && *final(credit_line) == line && final(slices)@ == after,
            Err(e) => r matches Err(x) && x@ == e && *final(credit_line) == *old(credit_line)
                && final(slices)@ == old(slices)@,
        },
        old(credit_line).limits_hold() ==> final(credit_line).limits_hold(),
{
    ensure_empty_funds(info)?;
    ensure_drawdown_unpaused(paused)?;
    ensure_kyc(sender_has_kyc)?;
    if !(info.sender == pool.borrower_addr) {
        return Err(ContractError::Unauthorized {  });
    }
    if slices.len() == 0 {
        return Err(ContractError::custom("Tranches not initialized"));
    }
    let last: usize = slices.len() - 1;
    let mut top: PoolSlice = slices[last];
    if !top.is_locked() {
        return Err(ContractError::custom("Pool not locked"));
    }
    let funds: u128 = tranche_funds(&top)?;
    if msg.amount > funds {
        return Err(ContractError::DrawdownExceedsLimit { limit: funds });
    }
    let mut line: CreditLine = *credit_line;
    line.drawdown(msg.amount, funds, now)?;
    let remaining: u128 = funds - msg.amount;
    let junior_price = top.junior_tranche.expected_share_price(remaining, &top)?;
    top.junior_tranche.principal_share_price = junior_price;
    let senior_price = top.senior_tranche.expected_share_price(remaining, &top)?;
    top.senior_tranche.principal_share_price = senior_price;
    top.principal_deployed = checked_add(top.principal_deployed, msg.amount)?;
    *credit_line = line;
    slices[last] = top;
    Ok(())
}

/// What locking the junior capital does: nothing where there is no slice or
/// the newest slice is locked already, in its senior or its junior tranche;
/// else the junior tranche of the newest slice is locked for one drawdown
/// period, and its deposits are reported.
pub open spec fn spec_lock_junior_capital(
    slices: Seq<PoolSlice>,
    credit_line: CreditLine,
    now: Timestamp,
) -> Result<(Seq<PoolSlice>, Option<u128>), Fault> {
    if slices.len() == 0 || slices.last().spec_is_locked()
        || slices.last().junior_tranche.locked_until.nanos != 0 {
        Ok((slices, None))
    } else {
        match spec_advance(now, credit_line.drawdown_period as int) {
            Err(e) => Err(e),
            Ok(until) => Ok(
                (
                    slices.update(
                        slices.len() - 1,
                        PoolSlice {
                            junior_tranche: TrancheInfo {
                                locked_until: until,
                                ..slices.last().junior_tranche
                            },
                            ..slices.last()
                        },
                    ),
                    Some(slices.last().junior_tranche.principal_deposited),
                ),
            ),
        }
    }
}

/// Closes the junior tranche of the newest slice for deposits, and returns
/// the junior capital that is then locked; `None` where there was nothing to
/// lock.
pub fn lock_junior_capital(
    slices: &mut Vec<PoolSlice>,
    credit_line: &CreditLine,
    now: Timestamp,
) -> (r: Result<Option<u128>, ContractError>)
    ensures
        transition_with(
            old(slices)@,
            final(slices)@,
            r,
            spec_lock_junior_capital(old(slices)@, *credit_line, now),
        ),
{
    if slices.len() == 0 {
        return Ok(None);
    }
    let last: usize = slices.len() - 1;
    let mut top: PoolSlice = slices[last];
    if top.is_locked() || !top.junior_tranche.locked_until.is_unset() {
        return Ok(None);
    }
    let junior_deposits: u128 = top.junior_tranche.principal_deposited;
    top.junior_tranche.locked_until = advance(now, credit_line.drawdown_period as u128)?;
    slices[last] = top;
    Ok(Some(junior_deposits))
}

/// What locking a pool reports: the two tranches that are now locked and the
/// deposits behind them.
#[derive(Clone, Copy, Debug, PartialEq, Eq, Structural)]
pub struct LockedPool {
    pub junior_tranche: u64,
    pub senior_tranche: u64,
    pub amount_locked: u128,
}

/// The limit of the credit line once `tranche_deposit` more is locked: the
/// current limit raised by the deposit, and at most the hard maximum.
pub open spec fn spec_raised_limit(credit_line: CreditLine, tranche_deposit: u128) -> Result<
    u128,
    Fault,
> {
    match spec_add(credit_line.borrow_info.current_limit, tranche_deposit) {
        Err(e) => Err(e),
        Ok(raised) => Ok(
            if raised < credit_line.borrow_info.borrow_limit {
                raised
            } else {
                credit_line.borrow_info.borrow_limit
            },
        ),
    }
}

/// What locking a pool does, or the first reason for which it is refused.
pub open spec fn spec_lock_pool(
    pool: TranchePool,
    slices: Seq<PoolSlice>,
    credit_line: CreditLine,
    info: MessageInfo,
    now: Timestamp,
) -> Result<(CreditLine, Seq<PoolSlice>, Option<LockedPool>), Fault> {
    if pool.borrower_addr@ != info.sender@ {
        Err(Fault::Unauthorized)
    } else if slices.len() == 0 {
        Ok((credit_line, slices, None))
    } else {
        let top = slices.last();
        if top.junior_tranche.locked_until.nanos == 0 {
            Err(Fault::Custom("Junior tranche not locked"@))
        } else if top.senior_tranche.locked_until.nanos != 0 {
            Err(Fault::Custom("Senior tranche already locked"@))
        } else {
            match top.spec_deposited() {
                Err(e) => Err(e),
                Ok(tranche_deposit) => match spec_raised_limit(credit_line, tranche_deposit) {
                    Err(e) => Err(e),
                    Ok(limit) => match credit_line.spec_set_limit(limit) {
                        Err(e) => Err(e),
                        Ok(line) => match spec_advance(now, line.drawdown_period as int) {
                            Err(e) => Err(e),
                            Ok(until) => Ok(
                                (
                                    line,
                                    slices.update(
                                        slices.len() - 1,
                                        PoolSlice {
                                            junior_tranche: TrancheInfo {
                                                locked_until: until,
                                                ..top.junior_tranche
                                            },
                                            senior_tranche: TrancheInfo {
                                                locked_until: until,
                                                ..top.senior_tranche
                                            },
                                            ..top
                                        },
                                    ),
                                    Some(
                                        LockedPool {
                                            junior_tranche: top.junior_tranche.id,
                                            senior_tranche: top.senior_tranche.id,
                                            amount_locked: tranche_deposit,
                                        },
                                    ),
                                ),
                            ),
                        },
                    },
                },
            }
        }
    }
}

/// Locks the newest slice of the pool, for its borrower.
///
/// The junior tranche of the slice is locked already and the senior tranche
/// is not. The limit of the credit line is raised by the deposits of the
/// slice, up to the hard maximum, and both tranches are locked until one
/// drawdown period after `now`. A pool without slices is left alone.
pub fn lock_pool(
    pool: &TranchePool,
    slices: &mut Vec<PoolSlice>,
    credit_line: &mut CreditLine,
    info: &MessageInfo,
    now: Timestamp,
) -> (r: Result<Option<LockedPool>, ContractError>)
    ensures
        match spec_lock_pool(*pool, old(slices)@, *old(credit_line), *info, now) {
            Ok((line, after, locked)) => r == Ok::<Option<LockedPool>, ContractError>(locked)
                && *final(credit_line) == line && final(slices)@ == after,
            Err(e) => r matches Err(x) && x@ == e && *final(credit_line) == *old(credit_line)
                && final(slices)@ == old(slices)@,
        },
        old(credit_line).limits_hold() ==> final(credit_line).limits_hold(),
{
    if !(pool.borrower_addr == info.sender) {
        return Err(ContractError::Unauthorized {  });
    }
    if slices.len() == 0 {
        return Ok(None);
    }
    let last: usize = slices.len() - 1;
    let mut top: PoolSlice = slices[last];
    if top.junior_tranche.locked_until.is_unset() {
        return Err(ContractError::custom("Junior tranche not locked"));
    }
    if !top.senior_tranche.locked_until.is_unset() {
        return Err(ContractError::custom("Senior tranche already locked"));
    }
    let junior_tranche_id: u64 = top.junior_tranche.id;
    let senior_tranche_id: u64 = top.senior_tranche.id;
    let tranche_deposit: u128 = top.deposited()?;
    let mut line: CreditLine = *credit_line;
    let raised: u128 = checked_add(line.borrow_info.current_limit, tranche_deposit)?;
    let limit: u128 = if raised < line.max_limit() {
        raised
    } else {
        line.max_limit()
    };
    line.set_limit(limit)?;
    top.junior_tranche.lock_tranche(now, line.drawdown_period)?;
    top.senior_tranche.lock_tranche(now, line.drawdown_period)?;
    *credit_line = line;
    slices[last] = top;
    Ok(
        Some(
            LockedPool {
                junior_tranche: junior_tranche_id,
                senior_tranche: senior_tranche_id,
                amount_locked: tranche_deposit,
            },
        ),
    )
}

/// What a repayment did: what it paid and left unpaid on the credit line,
/// and, where it paid anything, where that went among the slices.
#[derive(Clone, Copy, Debug, PartialEq, Eq, Structural)]
pub struct RepaymentOutcome {
    /// The excess in it goes back to the payer.
    pub repayment: RepaymentInfo,
    /// The reserve deduction in it goes to the protocol reserve.
    pub allocation: Option<RepaymentAllocation>,
}

/// The first `n` slices, each with its part of `interest_accrued` added to
/// the interest accrued on it; or the first error met.
pub open spec fn spec_accrue_interest(
    slices: Seq<PoolSlice>,
    n: nat,
    interest_accrued: u128,
    total_deployed: u128,
) -> Result<Seq<PoolSlice>, Fault>
    decreases n,
{
    if n == 0 {
        Ok(Seq::empty())
    } else {
        match spec_accrue_interest(slices, (n - 1) as nat, interest_accrued, total_deployed) {
            Err(e) => Err(e),
            Ok(done) => match spec_scale_for_slice(slices[n - 1], interest_accrued, total_deployed) {
                Err(e) => Err(e),
                Ok(part) => match spec_add(slices[n - 1].total_interest_accrued, part) {
                    Err(e) => Err(e),
                    Ok(total) => Ok(
                        done.push(PoolSlice { total_interest_accrued: total, ..slices[n - 1] }),
                    ),
                },
            },
        }
    }
}

/// Once the first `n` slices have met an error, more slices meet the same.
pub proof fn lemma_accrue_interest_stops(
    slices: Seq<PoolSlice>,
    n: nat,
    m: nat,
    interest_accrued: u128,
    total_deployed: u128,
)
    requires
        n <= m,
        spec_accrue_interest(slices, n, interest_accrued, total_deployed) is Err,
    ensures
        spec_accrue_interest(slices, m, interest_accrued, total_deployed) == spec_accrue_interest(
            slices,
            n,
            interest_accrued,
            total_deployed,
        ),
    decreases m,
{
    if n < m {
        lemma_accrue_interest_stops(slices, n, (m - 1) as nat, interest_accrued, total_deployed);
    }
}

/// Adds to every slice its part, by deployed capital, of the interest that a
/// repayment found accrued.
pub fn accrue_interest(slices: &Vec<PoolSlice>, interest_accrued: u128, total_deployed: u128) -> (r:
    Result<Vec<PoolSlice>, ContractError>)
    ensures
        match spec_accrue_interest(slices@, slices@.len(), interest_accrued, total_deployed) {
            Ok(after) => r matches Ok(v) && v@ == after,
            Err(e) => r matches Err(x) && x@ == e,
        },
{
    let mut done: Vec<PoolSlice> = Vec::new();
    let mut i: usize = 0;
    while i < slices.len()
        invariant
            i <= slices.len(),
            spec_accrue_interest(slices@, i as nat, interest_accrued, total_deployed) == Ok::<
                Seq<PoolSlice>,
                Fault,
            >(done@),
        decreases slices.len() - i,
    {
        proof {
            if spec_accrue_interest(slices@, (i + 1) as nat, interest_accrued, total_deployed)
                is Err {
                lemma_accrue_interest_stops(
                    slices@,
                    (i + 1) as nat,
                    slices@.len(),
                    interest_accrued,
                    total_deployed,
                );
            }
        }
        let mut slice: PoolSlice = slices[i];
        let part: u128 = scale_for_slice(&slice, interest_accrued, total_deployed)?;
        slice.total_interest_accrued = checked_add(slice.total_interest_accrued, part)?;
        done.push(slice);
        i = i + 1;
    }
    Ok(done)
}

/// The funds of a repayment: something was sent and named, in one coin, and
/// what was sent is what was named.
pub open spec fn spec_repay_funds(info: MessageInfo, amount: u128) -> Result<(), Fault> {
    if info.funds@.len() == 0 || info.funds@[0].amount == 0 || amount == 0 {
        Err(Fault::EmptyFunds)
    } else if info.funds@.len() > 1 {
        Err(Fault::MultipleTokens)
    } else if info.funds@[0].amount != amount {
        Err(Fault::FundDiscrepancy { required: amount, sent: info.funds@[0].amount })
    } else {
        Ok(())
    }
}

/// What a repayment does to the credit line and the slices of a pool, or the
/// first reason for which it is refused.
pub open spec fn spec_repay(
    pool: TranchePool,
    credit_line: CreditLine,
    slices: Seq<PoolSlice>,
    reserve_fee: u16,
    sender_has_kyc: bool,
    info: MessageInfo,
    msg: RepayMsg,
    now: Timestamp,
) -> Result<(CreditLine, Seq<PoolSlice>, RepaymentOutcome), Fault> {
    if !sender_has_kyc {
        Err(Fault::Custom("non-KYC user"@))
    } else {
        match spec_repay_funds(info, msg.amount) {
            Err(e) => Err(e),
            Ok(_) => if info.funds@[0].denom@ != pool.denom@ {
                Err(Fault::Custom("Incorrect denom used for repayment"@))
            } else if info.sender@ != pool.borrower_addr@ {
                Err(Fault::Unauthorized)
            } else if credit_line.borrow_info.total_borrowed == 0 {
                Err(Fault::Custom("Repayment not allowed when not borrowed"@))
            } else {
                match credit_line.spec_repay(msg.amount, now) {
                    Err(e) => Err(e),
                    Ok((line, repayment)) => match spec_add(
                        repayment.interest_repaid,
                        repayment.interest_pending,
                    ) {
                        Err(e) => Err(e),
                        Ok(interest_accrued) => match spec_accrue_interest(
                            slices,
                            slices.len(),
                            interest_accrued,
                            line.borrow_info.borrowed_amount,
                        ) {
                            Err(e) => Err(e),
                            Ok(accrued) => if repayment.interest_repaid == 0
                                && repayment.principal_repaid == 0 {
                                Ok((line, accrued, RepaymentOutcome { repayment, allocation: None }))
                            } else {
                                match spec_apply_to_all_slices(
                                    accrued,
                                    repayment.interest_repaid,
                                    repayment.principal_repaid,
                                    reserve_fee,
                                    line.borrow_info.borrowed_amount,
                                    line.junior_fee_percent,
                                    line,
                                    now,
                                ) {
                                    Err(e) => Err(e),
                                    Ok((after, allocation)) => Ok(
                                        (
                                            line,
                                            after,
                                            RepaymentOutcome {
                                                repayment,
                                                allocation: Some(allocation),
                                            },
                                        ),
                                    ),
                                }
                            },
                        },
                    },
                }
            },
        }
    }
}

/// Takes a repayment from the borrower of the pool.
///
/// The sender is the borrower, has passed the identity check, and sends
/// exactly the amount that the message names, in the currency of the pool;
/// and something has been drawn. The credit line takes the payment: interest
/// first, then principal, and what is left is excess. The repayment is added
/// to the history of the pool. Every slice is credited its part of the
/// interest that had accrued, and what was paid is spread over the slices.
///
/// Of the amount sent, the excess goes back to the payer and the reserve
/// deduction to the protocol reserve; the rest is in the share prices of the
/// slices.
pub fn repay(
    pool: &TranchePool,
    credit_line: &mut CreditLine,
    slices: &mut Vec<PoolSlice>,
    repayments: &mut Vec<RepaymentInfo>,
    config: &Config,
    sender_has_kyc: bool,
    info: &MessageInfo,
    msg: &RepayMsg,
    now: Timestamp,
) -> (r: Result<RepaymentOutcome, ContractError>)
    ensures
        match spec_repay(
            *pool,
            *old(credit_line),
            old(slices)@,
            config.reserve_fee,
            sender_has_kyc,
            *info,
            *msg,
            now,
        ) {
            Ok((line, after, outcome)) => r == Ok::<RepaymentOutcome, ContractError>(outcome)
                && *final(credit_line) == line && final(slices)@ == after && final(repayments)@
                == old(repayments)@.push(outcome.repayment),
            Err(e) => r matches Err(x) && x@ == e && *final(credit_line) == *old(credit_line)
                && final(slices)@ == old(slices)@ && final(repayments)@ == old(repayments)@,
        },
        r matches Ok(outcome) ==> {
            &&& outcome.repayment.interest_repaid + outcome.repayment.principal_repaid
                + outcome.repayment.excess_amount == msg.amount
            &&& outcome.allocation matches Some(allocation) ==> allocation.interest_to_slices
                + allocation.principal_to_slices + allocation.reserve_deduction
                == outcome.repayment.interest_repaid + outcome.repayment.principal_repaid
        },
        old(credit_line).limits_hold() ==> final(credit_line).limits_hold(),
{
    ensure_kyc(sender_has_kyc)?;
    if info.funds.len() == 0 || info.funds[0].amount == 0 || msg.amount == 0 {
        return Err(ContractError::EmptyFunds);
    } else if info.funds.len() > 1 {
        return Err(ContractError::MultipleTokens);
    }
    if info.funds[0].amount != msg.amount {
        return Err(
            ContractError::FundDiscrepancy { required: msg.amount, sent: info.funds[0].amount },
        );
    }
    if !(info.funds[0].denom == pool.denom) {
        return Err(ContractError::custom("Incorrect denom used for repayment"));
    }
    if !(info.sender == pool.borrower_addr) {
        return Err(ContractError::Unauthorized {  });
    }
    if credit_line.borrow_info.total_borrowed == 0 {
        return Err(ContractError::custom("Repayment not allowed when not borrowed"));
    }
    let mut line: CreditLine = *credit_line;
    let repayment = line.repay(msg.amount, now)?;
    let interest_accrued: u128 = checked_add(
        repayment.interest_repaid,
        repayment.interest_pending,
    )?;
    let mut settled = accrue_interest(slices, interest_accrued, line.borrow_info.borrowed_amount)?;
    let allocation = if repayment.interest_repaid != 0 || repayment.principal_repaid != 0 {
        Some(
            collect_interest_and_principal(
                &mut settled,
                repayment.interest_repaid,
                repayment.principal_repaid,
                config.reserve_fee,
                line.borrow_info.borrowed_amount,
                line.junior_fee_percent,
                &line,
                now,
            )?,
        )
    } else {
        None
    };
    *credit_line = line;
    *slices = settled;
    repayments.push(repayment);
    Ok(RepaymentOutcome { repayment, allocation })
}

/// Collects the interest and the principal of a repayment into the slices,
/// and returns where they went; the reserve deduction is what goes to the
/// protocol reserve.
pub fn collect_interest_and_principal(
    slices: &mut Vec<PoolSlice>,
    interest: u128,
    principal: u128,
    reserve_fee: u16,
    total_deployed: u128,
    junior_fee_percent: u16,
    credit_line: &CreditLine,
    now: Timestamp,
) -> (r: Result<RepaymentAllocation, ContractError>)
    ensures
        transition_with(
            old(slices)@,
            final(slices)@,
            r,
            spec_apply_to_all_slices(
                old(slices)@,
                interest,
                principal,
                reserve_fee,
                total_deployed,
                junior_fee_percent,
                *credit_line,
                now,
            ),
        ),
        r matches Ok(allocation) ==> allocation.interest_to_slices + allocation.principal_to_slices
            + allocation.reserve_deduction == interest + principal,
        prices_not_lowered(old(slices)@, final(slices)@),
{
    apply_to_all_slices(
        slices,
        interest,
        principal,
        reserve_fee,
        total_deployed,
        junior_fee_percent,
        credit_line,
        now,
    )
}

/// How a withdrawal is booked on the investor token.
#[derive(Clone, Copy, Debug, PartialEq, Eq, Structural)]
pub enum WithdrawalKind {
    /// Principal taken back from a tranche that was never locked: the
    /// deposit of the token shrinks.
    Principal,
    /// Interest and principal redeemed from a tranche after its lock: what
    /// the token has redeemed grows.
    Redemption,
}

/// What a token withdrew. The two amounts together are paid out to its owner.
#[derive(Clone, Copy, Debug, PartialEq, Eq, Structural)]
pub struct Withdrawal {
    pub token_id: u128,
    pub interest_withdrawn: u128,
    pub principal_withdrawn: u128,
    pub kind: WithdrawalKind,
}

/// What an investor token withdraws from its tranche, or the first reason
/// for which the withdrawal is refused. Where no amount is named, the
/// withdrawal asks for as much as 128 bits can hold.
pub open spec fn spec_withdraw_token(
    slices: Seq<PoolSlice>,
    token: InvestorToken,
    amount: Option<u128>,
    now: Timestamp,
) -> Result<(Seq<PoolSlice>, Withdrawal), Fault> {
    match spec_tranche_info(token.tranche_id, slices) {
        Err(e) => Err(e),
        Ok(tranche) => match tranche.spec_redeemable_interest_and_amount(token) {
            Err(e) => Err(e),
            Ok((interest_redeemable, principal_redeemable)) => match spec_add(
                interest_redeemable,
                principal_redeemable,
            ) {
                Err(e) => Err(e),
                Ok(total_redeemable) => if amount is Some && amount->Some_0 > total_redeemable {
                    Err(Fault::Custom("Redemption amount exceeds redeemable"@))
                } else if now.nanos <= tranche.locked_until.nanos {
                    Err(Fault::LockedPoolWithdrawal)
                } else {
                    let asked = match amount {
                        Some(named) => named,
                        None => u128::MAX,
                    };
                    if tranche.locked_until.nanos == 0 {
                        match spec_sub(tranche.principal_deposited, asked) {
                            Err(e) => Err(e),
                            Ok(left) => Ok(
                                (
                                    spec_with_tranche(
                                        slices,
                                        token.tranche_id,
                                        TrancheInfo { principal_deposited: left, ..tranche },
                                    ),
                                    Withdrawal {
                                        token_id: token.token_id,
                                        interest_withdrawn: 0,
                                        principal_withdrawn: asked,
                                        kind: WithdrawalKind::Principal,
                                    },
                                ),
                            ),
                        }
                    } else {
                        let interest = spec_min(interest_redeemable, asked);
                        Ok(
                            (
                                slices,
                                Withdrawal {
                                    token_id: token.token_id,
                                    interest_withdrawn: interest,
                                    principal_withdrawn: spec_min(
                                        principal_redeemable,
                                        (asked - interest) as u128,
                                    ),
                                    kind: WithdrawalKind::Redemption,
                                },
                            ),
                        )
                    }
                },
            },
        },
    }
}

fn withdraw_token(
    slices: &mut Vec<PoolSlice>,
    token: &InvestorToken,
    amount: Option<u128>,
    now: Timestamp,
) -> (r: Result<Withdrawal, ContractError>)
    ensures
        transition_with(
            old(slices)@,
            final(slices)@,
            r,
            spec_withdraw_token(old(slices)@, *token, amount, now),
        ),
{
    let tranche_info = find_tranche(token.tranche_id, slices)?;
    let (interest_redeemable, principal_redeemable) = tranche_info.redeemable_interest_and_amount(
        token,
    )?;
    let total_redeemable: u128 = checked_add(interest_redeemable, principal_redeemable)?;
    match amount {
        Some(named) => {
            if named > total_redeemable {
                return Err(ContractError::custom("Redemption amount exceeds redeemable"));
            }
        },
        None => {},
    }
    if now.nanos <= tranche_info.locked_until.nanos {
        return Err(ContractError::LockedPoolWithdrawal);
    }
    let asked: u128 = match amount {
        Some(named) => named,
        None => u128::MAX,
    };
    if tranche_info.locked_until.is_unset() {
        let left: u128 = checked_sub(tranche_info.principal_deposited, asked)?;
        let tranche = get_tranche_info(token.tranche_id, slices)?;
        tranche.principal_deposited = left;
        Ok(
            Withdrawal {
                token_id: token.token_id,
                interest_withdrawn: 0,
                principal_withdrawn: asked,
                kind: WithdrawalKind::Principal,
            },
        )
    } else {
        let interest_withdrawn: u128 = if interest_redeemable < asked {
            interest_redeemable
        } else {
            asked
        };
        let rest: u128 = asked - interest_withdrawn;
        let principal_withdrawn: u128 = if principal_redeemable < rest {
            principal_redeemable
        } else {
            rest
        };
        Ok(
            Withdrawal {
                token_id: token.token_id,
                interest_withdrawn,
                principal_withdrawn,
                kind: WithdrawalKind::Redemption,
            },
        )
    }
}

pub open spec fn spec_withdraw(
    slices: Seq<PoolSlice>,
    investor_token: InvestorToken,
    nft_owner: String,
    info: MessageInfo,
    msg: WithdrawMsg,
    now: Timestamp,
) -> Result<(Seq<PoolSlice>, Withdrawal), Fault> {
    if nft_owner@ != info.sender@ {
        Err(Fault::Unauthorized)
    } else {
        spec_withdraw_token(slices, investor_token, msg.amount, now)
    }
}

/// Lets the owner of an investor token withdraw from the tranche of the
/// token.
///
/// The sender owns the token, asks for no more than the token can redeem,
/// and the lock of the tranche has passed. From a tranche that was never
/// locked the principal comes back and the deposits of the tranche shrink.
/// From a tranche that was locked the token redeems interest first and then
/// principal, each up to what it can redeem; the slices stay as they are.
/// The caller pays the two amounts out and books them on the token.
pub fn withdraw(
    slices: &mut Vec<PoolSlice>,
    investor_token: &InvestorToken,
    nft_owner: &String,
    info: &MessageInfo,
    msg: &WithdrawMsg,
    now: Timestamp,
) -> (r: Result<Withdrawal, ContractError>)
    ensures
        transition_with(
            old(slices)@,
            final(slices)@,
            r,
            spec_withdraw(old(slices)@, *investor_token, *nft_owner, *info, *msg, now),
        ),
{
    if !(*nft_owner == info.sender) {
        return Err(ContractError::Unauthorized {  });
    }
    withdraw_token(slices, investor_token, msg.amount, now)
}

/// The withdrawals of the first `n` tokens in turn, each of everything; or
/// the first error met.
pub open spec fn spec_withdraw_all(
    slices: Seq<PoolSlice>,
    investments: Seq<InvestorToken>,
    n: nat,
    now: Timestamp,
) -> Result<(Seq<PoolSlice>, Seq<Withdrawal>), Fault>
    decreases n,
{
    if n == 0 {
        Ok((slices, Seq::empty()))
    } else {
        match spec_withdraw_all(slices, investments, (n - 1) as nat, now) {
            Err(e) => Err(e),
            Ok((so_far, withdrawals)) => match spec_withdraw_token(
                so_far,
                investments[n - 1],
                None,
                now,
            ) {
                Err(e) => Err(e),
                Ok((after, withdrawal)) => Ok((after, withdrawals.push(withdrawal))),
            },
        }
    }
}

/// Once the first `n` tokens have met an error, more tokens meet the same.
pub proof fn lemma_withdraw_all_stops(
    slices: Seq<PoolSlice>,
    investments: Seq<InvestorToken>,
    n: nat,
    m: nat,
    now: Timestamp,
)
    requires
        n <= m,
        spec_withdraw_all(slices, investments, n, now) is Err,
    ensures
        spec_withdraw_all(slices, investments, m, now) == spec_withdraw_all(
            slices,
            investments,
            n,
            now,
        ),
    decreases m,
{
    if n < m {
        lemma_withdraw_all_stops(slices, investments, n, (m - 1) as nat, now);
    }
}

pub(crate) fn copy_slices(slices: &Vec<PoolSlice>) -> (copy: Vec<PoolSlice>)
    ensures
        copy@ == slices@,
{
    let mut copy: Vec<PoolSlice> = Vec::new();
    let mut i: usize = 0;
    while i < slices.len()
        invariant
            i <= slices.len(),
            copy@ == slices@.take(i as int),
        decreases slices.len() - i,
    {
        copy.push(slices[i]);
        i = i + 1;
    }
    copy
}

/// Withdraws everything that the given investor tokens of one owner can
/// take from the pool, token by token, and returns one withdrawal for each.
/// Where one token is refused, nothing is withdrawn for any.
pub fn withdraw_all(slices: &mut Vec<PoolSlice>, investments: &Vec<InvestorToken>, now: Timestamp)
    -> (r: Result<Vec<Withdrawal>, ContractError>)
    ensures
        match spec_withdraw_all(old(slices)@, investments@, investments@.len(), now) {
            Ok((after, withdrawals)) => r matches Ok(v) && v@ == withdrawals && final(slices)@
                == after,
            Err(e) => r matches Err(x) && x@ == e && final(slices)@ == old(slices)@,
        },
{
    let mut work = copy_slices(slices);
    let mut withdrawals: Vec<Withdrawal> = Vec::new();
    let mut i: usize = 0;
    while i < investments.len()
        invariant
            i <= investments.len(),
            spec_withdraw_all(old(slices)@, investments@, i as nat, now) == Ok::<
                (Seq<PoolSlice>, Seq<Withdrawal>),
                Fault,
            >((work@, withdrawals@)),
            slices@ == old(slices)@,
        decreases investments.len() - i,
    {
        proof {
            if spec_withdraw_all(old(slices)@, investments@, (i + 1) as nat, now) is Err {
                lemma_withdraw_all_stops(
                    old(slices)@,
                    investments@,
                    (i + 1) as nat,
                    investments@.len(),
                    now,
                );
            }
        }
        let withdrawal = withdraw_token(&mut work, &investments[i], None, now)?;
        withdrawals.push(withdrawal);
        i = i + 1;
    }
    *slices = work;
    Ok(withdrawals)
}

/// The limit invariant of a pool: whatever is done to a pool, what is
/// outstanding on its credit line stays within the current limit, and the
/// current limit within the hard maximum. A new pool starts within its
/// limits, and locking the pool, a drawdown and a repayment keep it there;
/// no other operation touches the credit line.
pub proof fn lemma_pool_limits_hold(
    pool: TranchePool,
    credit_line: CreditLine,
    slices: Seq<PoolSlice>,
    reserve_fee: u16,
    paused: bool,
    sender_has_kyc: bool,
    info: MessageInfo,
    drawdown_msg: DrawdownMsg,
    repay_msg: RepayMsg,
    now: Timestamp,
)
    requires
        credit_line.limits_hold(),
    ensures
        spec_lock_pool(pool, slices, credit_line, info, now) matches Ok((line, _, _))
            ==> line.limits_hold(),
        spec_drawdown(
            pool,
            slices,
            credit_line,
            paused,
            sender_has_kyc,
            info,
            drawdown_msg,
            now,
        ) matches Ok((line, _)) ==> line.limits_hold(),
        spec_repay(
            pool,
            credit_line,
            slices,
            reserve_fee,
            sender_has_kyc,
            info,
            repay_msg,
            now,
        ) matches Ok((line, _, _)) ==> line.limits_hold(),
{
    if slices.len() > 0 {
        if let Ok(funds) = spec_tranche_funds(slices.last()) {
            lemma_limits_preserved(credit_line, drawdown_msg.amount, funds, now);
        }
    }
    lemma_limits_preserved(credit_line, repay_msg.amount, 0, now);
}

} // verus!
