//! The messages that a pool takes and the answers that it gives.

use crate::math::Decimal;
use crate::state::{PaymentFrequency, PoolType};
use vstd::prelude::*;

verus! {

/// An amount of one currency.
#[derive(Clone, Debug, PartialEq, Eq)]
pub struct Coin {
    pub denom: String,
    pub amount: u128,
}

/// Who sent a message, and the funds that came with it.
#[derive(Clone, Debug, PartialEq, Eq)]
pub struct MessageInfo {
    pub sender: String,
    pub funds: Vec<Coin>,
}

#[derive(Clone, Debug, PartialEq, Eq)]
pub struct InstantiateMsg {
    pub admin: String,
    pub code_id: u64,
    pub reserves_fee: u16,
    pub reserves_addr: String,
    pub kyc_addr: String,
    pub denom: String,
    pub decimals: u8,
}

#[derive(Clone, Debug, PartialEq, Eq)]
pub enum ExecuteMsg {
    NewPool { msg: CreatePoolMsg },
    Deposit { msg: DepositMsg },
    Repay { msg: RepayMsg },
    Drawdown { msg: DrawdownMsg },
    AddBackers { backers: Vec<String> },
    LockPool { msg: LockPoolMsg },
    LockJuniorCapital { msg: LockJuniorCapitalMsg },
    SetKycContract { addr: String },
    WhitelistToken { denom: String, decimals: u8 },
    SetSeniorPool { denom: String, addr: String },
    Withdraw { msg: WithdrawMsg },
    WithdrawAll { pool_id: u64 },
}

#[derive(Clone, Copy, Debug, PartialEq, Eq, Structural)]
pub struct MigrateMsg {}

#[derive(Clone, Debug, PartialEq, Eq)]
pub struct CreatePoolMsg {
    pub pool_name: String,
    pub borrower: String,
    pub borrower_name: String,
    pub uid_token: u128,
    pub interest_apr: u16,
    pub junior_fee_percent: u16,
    pub late_fee_apr: u16,
    pub borrow_limit: u128,
    pub interest_frequency: PaymentFrequency,
    pub principal_frequency: PaymentFrequency,
    pub principal_grace_period: u64,
    pub drawdown_period: u64,
    pub term_length: u64,
    pub denom: String,
    pub backers: Vec<String>,
    pub pool_type: PoolType,
}

#[derive(Clone, Copy, Debug, PartialEq, Eq, Structural)]
pub struct DepositMsg {
    pub pool_id: u64,
    pub tranche_id: u64,
    pub amount: u128,
}

#[derive(Clone, Copy, Debug, PartialEq, Eq, Structural)]
pub struct DrawdownMsg {
    pub pool_id: u64,
    pub amount: u128,
}

#[derive(Clone, Copy, Debug, PartialEq, Eq, Structural)]
pub struct LockPoolMsg {
    pub pool_id: u64,
}

#[derive(Clone, Copy, Debug, PartialEq, Eq, Structural)]
pub struct LockJuniorCapitalMsg {
    pub pool_id: u64,
}

#[derive(Clone, Copy, Debug, PartialEq, Eq, Structural)]
pub struct RepayMsg {
    pub pool_id: u64,
    pub amount: u128,
}

#[derive(Clone, Copy, Debug, PartialEq, Eq, Structural)]
pub struct WithdrawMsg {
    pub token_id: u64,
    /// What to withdraw; everything where no amount is named.
    pub amount: Option<u128>,
}

#[derive(Clone, Copy, Debug, PartialEq, Eq, Structural)]
pub enum QueryMsg {
    GetConfig {},
    GetPoolInfo { id: u64 },
    GetAllPools { start: Option<u64>, limit: Option<u8> },
    RepaymentInfo { id: u64 },
    GetCreditLine { id: u64 },
    GetSlices { id: u64 },
    GetInvestmentInfo { token_id: u64 },
}

/// A currency that the payment contract accepts.
#[derive(Clone, Debug, PartialEq, Eq)]
pub struct Asset {
    pub name: String,
    pub denom: String,
    pub decimal: u64,
    pub uri: Option<String>,
}

/// What a pool looks like from outside.
#[derive(Clone, Debug, PartialEq, Eq)]
pub struct PoolInfo {
    pub pool_id: u64,
    pub pool_name: String,
    pub borrower_name: String,
    pub borrower: String,
    /// What is outstanding.
    pub assets: u128,
    pub asset_info: Option<Asset>,
    /// The annual interest rate in percent.
    pub apr: Decimal,
    pub pool_type: PoolType,
    pub status: String,
    /// The deposits of all slices.
    pub invested: u128,
    /// Everything drawn so far.
    pub drawn: u128,
    pub available_to_draw: u128,
    pub interest_paid: u128,
    pub interest_accrued: u128,
    pub interest_pending: u128,
    /// The junior tranche that takes deposits; empty where none does.
    pub tranche_id: String,
    pub borrow_limit: u128,
    pub junior_capital_locked: bool,
    pub pool_locked: bool,
}

#[derive(Clone, Debug, PartialEq, Eq)]
pub struct PoolResponse {
    pub pool_id: u64,
    pub pool_name: String,
    pub borrower_name: String,
    pub borrower: String,
    pub assets: u128,
    pub denom: String,
    pub decimals: u32,
    pub apr: Decimal,
    pub pool_type: PoolType,
    pub status: String,
}

#[derive(Clone, Debug, PartialEq, Eq)]
pub struct AllPoolsResponse {
    pub data: Vec<PoolResponse>,
}

#[derive(Clone, Debug, PartialEq, Eq)]
pub struct PaymentInfo {
    pub addr: String,
    pub paid: u128,
    pub expected: u128,
}

} // verus!
