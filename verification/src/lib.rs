//! Accounting core of a multi-tranche credit pool.
//!
//! A borrower draws against a credit line whose limit is raised as investors
//! lock capital into junior and senior tranches. Interest and late fees accrue
//! over time, repayments are split across the slices of a pool, and each
//! investor's claim is derived from the share prices of the tranche that holds
//! the deposit. Every amount is an integer number of base units; share prices
//! are fixed-point numbers with eighteen fractional digits.

pub mod contract;
pub mod credit_line;
pub mod error;
pub mod helpers;
pub mod implementation;
pub mod math;
pub mod msg;
pub mod query;
pub mod registry;
pub mod state;
pub mod timestamp;
pub mod tranche_pool;

use vstd::prelude::*;

verus! {

/// Basis points in one whole: an annual rate of 12.50% is written 1250.
pub const TEN_THOUSAND: u128 = 10000;

/// Seconds in a year of 365 days.
pub const SIY: u128 = 31536000;

/// Grace period after a due date, in seconds, where a pool sets none: seven days.
pub const GRACE_PERIOD: u64 = 604800;

} // verus!
