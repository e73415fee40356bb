//! The error type shared by every operation, and its mathematical model.

use vstd::prelude::*;

verus! {

/// What a [`ContractError`] says, with its texts as sequences of characters.
///
/// Contracts speak of errors through this model: two errors with the same
/// model are the same failure.
pub enum Fault {
    Std(Seq<char>),
    Overflow,
    Underflow,
    DivideByZero,
    DecimalRangeExceeded,
    InvalidAdmin(Seq<char>),
    Unauthorized,
    FundsNotAllowed,
    EmptyFunds,
    MultipleTokens,
    FundDiscrepancy { required: u128, sent: u128 },
    InvalidPoolId(u64),
    DrawdownExceedsLimit(u128),
    NotInDrawdownPeriod,
    MaxSliceLimit,
    DenomNotWhitelisted,
    NotSeniorPool,
    SeniorPoolNotFound(Seq<char>),
    LockedPoolWithdrawal,
    Custom(Seq<char>),
}

/// Why an operation was refused. An error is terminal for the transaction that
/// met it: nothing is retried, and the state that the operation was given is
/// left as it was.
#[derive(Debug, Clone, PartialEq, Eq)]
pub enum ContractError {
    /// A failure of the host, reported by the code around this library.
    Std { msg: String },
    /// A sum or a product does not fit in the integer that holds it.
    Overflow,
    /// A difference would fall below zero.
    Underflow,
    /// A division by zero.
    DivideByZero,
    /// A whole number is too large to be written as a fixed-point decimal.
    DecimalRangeExceeded,
    InvalidAdmin { address: String },
    Unauthorized {},
    /// The transaction carries funds and must not.
    FundsNotAllowed,
    /// The transaction carries no funds and must.
    EmptyFunds,
    /// The transaction carries more than one denomination.
    MultipleTokens,
    /// The funds sent differ from the amount that the message names.
    FundDiscrepancy { required: u128, sent: u128 },
    InvalidPoolId { id: u64 },
    /// A drawdown asks for more than `limit` allows.
    DrawdownExceedsLimit { limit: u128 },
    NotInDrawdownPeriod,
    /// The pool already has its five slices.
    MaxSliceLimit,
    DenomNotWhitelisted,
    /// A deposit into a senior tranche by anyone but the senior pool.
    NotSeniorPool,
    SeniorPoolNotFound { denom: String },
    /// A withdrawal from a tranche that is still locked.
    LockedPoolWithdrawal,
    CustomError { msg: String },
}

pub type ContractResult<T> = Result<T, ContractError>;

impl View for ContractError {
    type V = Fault;

    open spec fn view(&self) -> Fault {
        match *self {
            ContractError::Std { msg } => Fault::Std(msg@),
            ContractError::Overflow => Fault::Overflow,
            ContractError::Underflow => Fault::Underflow,
            ContractError::DivideByZero => Fault::DivideByZero,
            ContractError::DecimalRangeExceeded => Fault::DecimalRangeExceeded,
            ContractError::InvalidAdmin { address } => Fault::InvalidAdmin(address@),
            ContractError::Unauthorized {  } => Fault::Unauthorized,
            ContractError::FundsNotAllowed => Fault::FundsNotAllowed,
            ContractError::EmptyFunds => Fault::EmptyFunds,
            ContractError::MultipleTokens => Fault::MultipleTokens,
            ContractError::FundDiscrepancy { required, sent } => Fault::FundDiscrepancy {
                required,
                sent,
            },
            ContractError::InvalidPoolId { id } => Fault::InvalidPoolId(id),
            ContractError::DrawdownExceedsLimit { limit } => Fault::DrawdownExceedsLimit(limit),
            ContractError::NotInDrawdownPeriod => Fault::NotInDrawdownPeriod,
            ContractError::MaxSliceLimit => Fault::MaxSliceLimit,
            ContractError::DenomNotWhitelisted => Fault::DenomNotWhitelisted,
            ContractError::NotSeniorPool => Fault::NotSeniorPool,
            ContractError::SeniorPoolNotFound { denom } => Fault::SeniorPoolNotFound(denom@),
            ContractError::LockedPoolWithdrawal => Fault::LockedPoolWithdrawal,
            ContractError::CustomError { msg } => Fault::Custom(msg@),
        }
    }
}

/// The model of a result: the value as it is, the error by its view.
pub open spec fn outcome<T>(r: Result<T, ContractError>) -> Result<T, Fault> {
    match r {
        Ok(v) => Ok(v),
        Err(e) => Err(e@),
    }
}

/// How a function that changes a value in place ends: with the value that
/// the model gives, or with the model's error and the value untouched.
pub open spec fn transition<S>(
    before: S,
    after: S,
    r: Result<(), ContractError>,
    model: Result<S, Fault>,
) -> bool {
    match model {
        Ok(s) => r is Ok && after == s,
        Err(e) => r matches Err(x) && x@ == e && after == before,
    }
}

/// The same for a function that also returns a value.
pub open spec fn transition_with<S, V>(
    before: S,
    after: S,
    r: Result<V, ContractError>,
    model: Result<(S, V), Fault>,
) -> bool {
    match model {
        Ok((s, v)) => r == Ok::<V, ContractError>(v) && after == s,
        Err(e) => r matches Err(x) && x@ == e && after == before,
    }
}

impl ContractError {
    /// A `CustomError` that carries `msg`.
    pub fn custom(msg: &str) -> (e: ContractError)
        ensures
            e@ == Fault::Custom(msg@),
    {
        ContractError::CustomError { msg: msg.to_owned() }
    }
}

} // verus!
