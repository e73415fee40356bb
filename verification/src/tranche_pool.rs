//! The record of a pool.

use crate::state::{PoolType, TranchePool};
use crate::timestamp::Timestamp;
use vstd::prelude::*;

verus! {

impl TranchePool {
    /// The record of a pool created at `now`.
    pub fn new(
        pool_id: u64,
        pool_name: String,
        borrower: String,
        borrower_name: String,
        denom: String,
        backers: Vec<String>,
        pool_type: PoolType,
        now: Timestamp,
    ) -> (pool: TranchePool)
        ensures
            pool == (TranchePool {
                pool_id,
                pool_name,
                borrower_addr: borrower,
                borrower_name,
                creation_info: now,
                pool_type,
                denom,
                backers,
            }),
    {
        TranchePool {
            pool_id,
            pool_name,
            borrower_addr: borrower,
            borrower_name,
            creation_info: now,
            denom,
            backers,
            pool_type,
        }
    }

    /// True where `user` is on the list of backers.
    pub open spec fn spec_is_backer(self, user: Seq<char>) -> bool {
        exists|i: int| 0 <= i < self.backers@.len() && (#[trigger] self.backers@[i])@ == user
    }

    /// Tells whether `user` is a backer of the pool, who may deposit less
    /// than the minimum.
    pub fn is_backer(&self, user: &String) -> (found: bool)
        ensures
            found == self.spec_is_backer(user@),
    {
        let mut i: usize = 0;
        while i < self.backers.len()
            invariant
                i <= self.backers.len(),
                forall|j: int| 0 <= j < i ==> (#[trigger] self.backers@[j])@ != user@,
            decreases self.backers.len() - i,
        {
            if self.backers[i] == *user {
                return true;
            }
            i = i + 1;
        }
        false
    }
}

} // verus!
