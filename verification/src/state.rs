//! The records that a pool is made of.

use crate::math::Decimal;
use crate::timestamp::Timestamp;
use vstd::prelude::*;

verus! {

/// Settings of the pool contract, and the counters from which pool and token
/// ids are drawn.
#[derive(Clone, Debug, PartialEq, Eq)]
pub struct Config {
    /// Id of the pool created last; zero before the first.
    pub pool_id: u64,
    pub token_issuer: String,
    /// Id of the investor token minted last; zero before the first.
    pub token_id: u128,
    pub admin: String,
    pub grace_period: Option<u64>,
    /// Share of interest that goes to the protocol reserve, in basis points.
    pub reserve_fee: u16,
}

#[derive(Clone, Debug, PartialEq, Eq)]
pub struct TranchePool {
    pub pool_id: u64,
    pub pool_name: String,
    pub borrower_addr: String,
    pub borrower_name: String,
    pub creation_info: Timestamp,
    pub pool_type: PoolType,
    /// The currency in which the pool settles.
    pub denom: String,
    /// Addresses that may deposit less than the minimum.
    pub backers: Vec<String>,
}

/// How far the identity check of an address has come.
#[derive(Clone, Copy, Debug, PartialEq, Eq, Structural)]
pub enum KYCStatus {
    Unverified,
    InProcess,
    Rejected,
    Approved,
    ReVerify,
}

#[derive(Clone, Copy, Debug, PartialEq, Eq, Structural)]
pub enum PoolStatus {
    Open,
    Late,
    Closed,
}

#[derive(Clone, Copy, Debug, PartialEq, Eq, Structural)]
pub enum PoolType {
    Undefined,
    Junior,
}

/// What a borrower may draw and has drawn and repaid.
#[derive(Clone, Copy, Debug, PartialEq, Eq, Structural)]
pub struct BorrowInfo {
    /// What may be outstanding at present.
    pub current_limit: u128,
    /// The most that `current_limit` can ever be.
    pub borrow_limit: u128,
    /// Everything drawn so far.
    pub total_borrowed: u128,
    /// What is outstanding.
    pub borrowed_amount: u128,
    pub interest_repaid: u128,
    pub principal_repaid: u128,
}

impl Default for BorrowInfo {
    fn default() -> (b: BorrowInfo)
        ensures
            b == (BorrowInfo {
                current_limit: 0,
                borrow_limit: 0,
                total_borrowed: 0,
                borrowed_amount: 0,
                interest_repaid: 0,
                principal_repaid: 0,
            }),
    {
        BorrowInfo {
            current_limit: 0,
            borrow_limit: 0,
            total_borrowed: 0,
            borrowed_amount: 0,
            interest_repaid: 0,
            principal_repaid: 0,
        }
    }
}

/// One risk class of one slice. Tranche `2k` is the junior tranche of slice
/// `k`, tranche `2k + 1` its senior tranche.
#[derive(Clone, Copy, Debug, PartialEq, Eq, Structural)]
pub struct TrancheInfo {
    pub id: u64,
    pub principal_deposited: u128,
    /// Principal at hand per unit deposited: one until capital is drawn.
    pub principal_share_price: Decimal,
    /// Interest earned per unit deposited.
    pub interest_share_price: Decimal,
    /// Unset while the tranche is open for deposits.
    pub locked_until: Timestamp,
}

/// One funding round of a pool.
#[derive(Clone, Copy, Debug, PartialEq, Eq, Structural)]
pub struct PoolSlice {
    pub junior_tranche: TrancheInfo,
    pub senior_tranche: TrancheInfo,
    pub total_interest_accrued: u128,
    /// What the borrower has drawn from this slice.
    pub principal_deployed: u128,
}

/// The borrowing side of a pool: its terms, and what has accrued and is owed
/// as of `last_update_ts`.
#[derive(Clone, Copy, Debug, PartialEq, Eq, Structural)]
pub struct CreditLine {
    /// Before this date the line shows no interest as accrued or owed. Unset
    /// until the first drawdown.
    pub term_start: Timestamp,
    /// After this date all accrued interest is due.
    pub term_end: Timestamp,
    pub term_length: u64,
    /// Seconds after a due date before a late fee is charged.
    pub grace_period: u64,
    /// Seconds after the start of the term before principal falls due.
    pub principal_grace_period: u64,
    pub drawdown_period: u64,
    pub borrow_info: BorrowInfo,
    /// Annual interest in basis points: 12.50% is 1250.
    pub interest_apr: u16,
    pub junior_fee_percent: u16,
    pub late_fee_apr: u16,
    pub interest_frequency: PaymentFrequency,
    pub principal_frequency: PaymentFrequency,
    pub interest_accrued: u128,
    pub interest_owed: u128,
    pub last_full_payment: Timestamp,
    pub last_update_ts: Timestamp,
}

/// How often a payment falls due.
#[derive(Clone, Copy, Debug, PartialEq, Eq, Structural)]
pub enum PaymentFrequency {
    Monthly,
    Quaterly,
    Biannually,
    Annually,
}

impl Default for PaymentFrequency {
    fn default() -> (f: PaymentFrequency)
        ensures
            f == PaymentFrequency::Monthly,
    {
        PaymentFrequency::Monthly
    }
}

impl PaymentFrequency {
    /// The length of one period in seconds, with months of thirty days.
    pub open spec fn spec_to_seconds(self) -> int {
        match self {
            PaymentFrequency::Monthly => 2592000,
            PaymentFrequency::Quaterly => 7776000,
            PaymentFrequency::Biannually => 15552000,
            PaymentFrequency::Annually => 31104000,
        }
    }

    pub fn to_seconds(&self) -> (s: u64)
        ensures
            s == self.spec_to_seconds(),
            s > 0,
    {
        match self {
            PaymentFrequency::Monthly => 30u64 * 3600u64 * 24,
            PaymentFrequency::Quaterly => 90u64 * 3600u64 * 24,
            PaymentFrequency::Biannually => 180u64 * 3600u64 * 24,
            PaymentFrequency::Annually => 360u64 * 3600u64 * 24,
        }
    }
}

/// One line of a list of pools.
#[derive(Clone, Debug, PartialEq, Eq)]
pub struct AllPoolsResponse {
    pub pool_id: u64,
    pub pool_name: String,
    pub borrower_name: String,
    pub interest_apr: u16,
    pub tvl: u128,
}

/// Access control info of a borrower.
#[derive(Clone, Debug, PartialEq, Eq)]
pub struct ACI {
    pub borrow_limit: String,
    /// Number of pools that the borrower can create.
    pub pool_auth: u64,
}

/// What one repayment paid and left unpaid.
#[derive(Clone, Copy, Debug, PartialEq, Eq, Structural)]
pub struct RepaymentInfo {
    pub timestamp: Timestamp,
    pub principal_repaid: u128,
    pub interest_repaid: u128,
    pub principal_pending: u128,
    pub interest_pending: u128,
    /// What the payment held beyond everything owed; it goes back to the payer.
    pub excess_amount: u128,
}

impl Default for RepaymentInfo {
    fn default() -> (r: RepaymentInfo)
        ensures
            r == (RepaymentInfo {
                timestamp: Timestamp { nanos: 0 },
                principal_repaid: 0,
                interest_repaid: 0,
                principal_pending: 0,
                interest_pending: 0,
                excess_amount: 0,
            }),
    {
        RepaymentInfo {
            timestamp: Timestamp { nanos: 0 },
            principal_repaid: 0,
            interest_repaid: 0,
            principal_pending: 0,
            interest_pending: 0,
            excess_amount: 0,
        }
    }
}

/// The amounts behind one investor token.
#[derive(Clone, Copy, Debug, PartialEq, Eq, Structural)]
pub struct LendInfo {
    pub principal_deposited: u128,
    pub principal_redeemed: u128,
    pub interest_redeemed: u128,
}

impl Default for LendInfo {
    fn default() -> (l: LendInfo)
        ensures
            l == (LendInfo { principal_deposited: 0, principal_redeemed: 0, interest_redeemed: 0 }),
    {
        LendInfo { principal_deposited: 0, principal_redeemed: 0, interest_redeemed: 0 }
    }
}

/// The claim ticket of one deposit. It is minted on deposit and never
/// deleted; what it can still redeem follows from the share prices of its
/// tranche and from what it has redeemed already.
#[derive(Clone, Copy, Debug, PartialEq, Eq, Structural)]
pub struct InvestorToken {
    pub token_id: u128,
    pub pool_id: u64,
    pub tranche_id: u64,
    pub lend_info: LendInfo,
}

impl InvestorToken {
    pub fn new(token_id: u128, pool_id: u64, tranche_id: u64) -> (t: InvestorToken)
        ensures
            t == (InvestorToken {
                token_id,
                pool_id,
                tranche_id,
                lend_info: LendInfo {
                    principal_deposited: 0,
                    principal_redeemed: 0,
                    interest_redeemed: 0,
                },
            }),
    {
        InvestorToken { token_id, pool_id, tranche_id, lend_info: LendInfo::default() }
    }
}

} // verus!
