//! Points in time, counted in nanoseconds since the Unix epoch.

use crate::error::{ContractError, Fault, outcome};
use vstd::prelude::*;

verus! {

pub const NANOS_PER_SECOND: u64 = 1000000000;

/// A point in time. The zero timestamp doubles as "not set": a term that has
/// not started and a tranche that is not locked both carry it.
#[derive(Clone, Copy, Debug, PartialEq, Eq, Structural, PartialOrd, Ord, Hash)]
pub struct Timestamp {
    pub nanos: u64,
}

impl Default for Timestamp {
    fn default() -> (t: Timestamp)
        ensures
            t.nanos == 0,
    {
        Timestamp { nanos: 0 }
    }
}

/// The timestamp `seconds` after `t`, where it can be written in 64 bits.
pub open spec fn spec_plus_seconds(t: Timestamp, seconds: int) -> Option<Timestamp> {
    if t.nanos + seconds * NANOS_PER_SECOND <= u64::MAX {
        Some(Timestamp { nanos: (t.nanos + seconds * NANOS_PER_SECOND) as u64 })
    } else {
        None
    }
}

/// The timestamp `seconds` after `t`, or `Overflow`.
pub open spec fn spec_advance(t: Timestamp, seconds: int) -> Result<Timestamp, Fault> {
    match spec_plus_seconds(t, seconds) {
        Some(u) => Ok(u),
        None => Err(Fault::Overflow),
    }
}

/// Moves `t` by `seconds` into the future, with `Overflow` in place of a
/// timestamp that 64 bits cannot hold.
pub fn advance(t: Timestamp, seconds: u128) -> (r: Result<Timestamp, ContractError>)
    ensures
        outcome(r) == spec_advance(t, seconds as int),
{
    if seconds > 0xffff_ffff_ffff_ffff {
        Err(ContractError::Overflow)
    } else {
        match t.plus_seconds(seconds as u64) {
            Some(u) => Ok(u),
            None => Err(ContractError::Overflow),
        }
    }
}

impl Timestamp {
    pub fn from_nanos(nanos_since_epoch: u64) -> (t: Timestamp)
        ensures
            t.nanos == nanos_since_epoch,
    {
        Timestamp { nanos: nanos_since_epoch }
    }

    pub fn from_seconds(seconds_since_epoch: u64) -> (t: Timestamp)
        requires
            seconds_since_epoch * NANOS_PER_SECOND <= u64::MAX,
        ensures
            t.nanos == seconds_since_epoch * NANOS_PER_SECOND,
    {
        Timestamp { nanos: seconds_since_epoch * NANOS_PER_SECOND }
    }

    pub fn nanos(&self) -> (n: u64)
        ensures
            n == self.nanos,
    {
        self.nanos
    }

    /// Whole seconds since the epoch.
    pub open spec fn spec_seconds(self) -> int {
        self.nanos as int / NANOS_PER_SECOND as int
    }

    /// Whole seconds since the epoch, the fraction dropped.
    pub fn seconds(&self) -> (s: u64)
        ensures
            s == self.spec_seconds(),
    {
        self.nanos / NANOS_PER_SECOND
    }

    /// True of the zero timestamp, which stands for "not set".
    pub open spec fn spec_is_unset(self) -> bool {
        self.nanos == 0
    }

    pub fn is_unset(&self) -> (b: bool)
        ensures
            b == self.spec_is_unset(),
    {
        self.nanos == 0
    }

    /// This timestamp moved `addition` seconds into the future, or `None`
    /// where that point lies beyond what 64 bits of nanoseconds can hold.
    pub fn plus_seconds(&self, addition: u64) -> (r: Option<Timestamp>)
        ensures
            r == spec_plus_seconds(*self, addition as int),
    {
        match addition.checked_mul(NANOS_PER_SECOND) {
            None => None,
            Some(nanos) => match self.nanos.checked_add(nanos) {
                None => None,
                Some(sum) => Some(Timestamp { nanos: sum }),
            },
        }
    }
}

} // verus!
