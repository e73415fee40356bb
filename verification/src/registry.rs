//! The registry of pools: every pool with its credit line, its slices and
//! the history of its repayments, kept by pool id, together with the settings
//! that the pools share.
//!
//! Pool ids are handed out in order from one, so the pool with id `k` is the
//! `k`-th record. An operation looks up the records of the pool that a
//! message names and leaves the deciding to the operations on one pool. An
//! operation that fails leaves the registry as it was.

use crate::contract;
use crate::contract::{LockedPool, RepaymentOutcome, Withdrawal};
use crate::error::{ContractError, Fault, outcome};
use crate::helpers;
use crate::msg::{
    Asset, CreatePoolMsg, DepositMsg, DrawdownMsg, InstantiateMsg, LockJuniorCapitalMsg,
    LockPoolMsg, MessageInfo, PoolInfo, PoolResponse, RepayMsg, WithdrawMsg,
};
use crate::query;
use crate::state::{
    Config, CreditLine, InvestorToken, PoolSlice, RepaymentInfo, TranchePool,
};
use crate::timestamp::Timestamp;
use vstd::prelude::*;

verus! {

/// Everything that is kept of one pool.
pub struct PoolRecord {
    pub pool: TranchePool,
    pub credit_line: CreditLine,
    pub slices: Vec<PoolSlice>,
    /// Every repayment that the pool has taken, oldest first.
    pub repayments: Vec<RepaymentInfo>,
}

/// A whitelisted currency and the number of base units in one unit of it.
pub struct WhitelistedToken {
    pub denom: String,
    pub unit: u32,
}

/// The senior pool that serves a currency.
pub struct SeniorPool {
    pub denom: String,
    pub addr: String,
}

/// The state of the pool contract.
pub struct PoolRegistry {
    pub config: Config,
    /// Where the reserve deductions of repayments are sent.
    pub reserve_addr: String,
    /// The identity provider.
    pub kyc_contract: String,
    /// Whether drawdowns are paused.
    pub paused: bool,
    pub whitelisted_tokens: Vec<WhitelistedToken>,
    pub senior_pools: Vec<SeniorPool>,
    pub pools: Vec<PoolRecord>,
}

/// The unit of the first of the first `n` tokens in the currency `denom`.
pub open spec fn spec_find_token(tokens: Seq<WhitelistedToken>, n: nat, denom: Seq<char>) -> Option<
    u32,
>
    decreases n,
{
    if n == 0 {
        None
    } else {
        match spec_find_token(tokens, (n - 1) as nat, denom) {
            Some(unit) => Some(unit),
            None => if tokens[n - 1].denom@ == denom {
                Some(tokens[n - 1].unit)
            } else {
                None
            },
        }
    }
}

/// What was found among the first `n` tokens is found among more.
pub proof fn lemma_find_token_stays(
    tokens: Seq<WhitelistedToken>,
    n: nat,
    m: nat,
    denom: Seq<char>,
)
    requires
        n <= m,
        spec_find_token(tokens, n, denom) is Some,
    ensures
        spec_find_token(tokens, m, denom) == spec_find_token(tokens, n, denom),
    decreases m,
{
    if n < m {
        lemma_find_token_stays(tokens, n, (m - 1) as nat, denom);
    }
}

/// The address of the first of the first `n` senior pools that serves the
/// currency `denom`.
pub open spec fn spec_find_senior_pool(pools: Seq<SeniorPool>, n: nat, denom: Seq<char>) -> Option<
    String,
>
    decreases n,
{
    if n == 0 {
        None
    } else {
        match spec_find_senior_pool(pools, (n - 1) as nat, denom) {
            Some(addr) => Some(addr),
            None => if pools[n - 1].denom@ == denom {
                Some(pools[n - 1].addr)
            } else {
                None
            },
        }
    }
}

/// What was found among the first `n` senior pools is found among more.
pub proof fn lemma_find_senior_pool_stays(pools: Seq<SeniorPool>, n: nat, m: nat, denom: Seq<char>)
    requires
        n <= m,
        spec_find_senior_pool(pools, n, denom) is Some,
    ensures
        spec_find_senior_pool(pools, m, denom) == spec_find_senior_pool(pools, n, denom),
    decreases m,
{
    if n < m {
        lemma_find_senior_pool_stays(pools, n, (m - 1) as nat, denom);
    }
}

impl PoolRecord {
    /// Two records hold the same pool with the same contents.
    pub open spec fn same_as(self, other: PoolRecord) -> bool {
        &&& self.pool == other.pool
        &&& self.credit_line == other.credit_line
        &&& self.slices@ == other.slices@
        &&& self.repayments@ == other.repayments@
    }
}

impl PoolRegistry {
    /// The settings that the pools share are the same in both registries,
    /// the counters of pool and token ids apart.
    pub open spec fn same_settings(self, other: PoolRegistry) -> bool {
        &&& self.config.token_issuer == other.config.token_issuer
        &&& self.config.admin == other.config.admin
        &&& self.config.grace_period == other.config.grace_period
        &&& self.config.reserve_fee == other.config.reserve_fee
        &&& self.reserve_addr == other.reserve_addr
        &&& self.kyc_contract == other.kyc_contract
        &&& self.paused == other.paused
        &&& self.whitelisted_tokens@ == other.whitelisted_tokens@
        &&& self.senior_pools@ == other.senior_pools@
    }

    /// Both registries hold the same configuration, addresses, pause flag
    /// and pools; the lists of tokens and of senior pools may differ.
    pub open spec fn settings_but_lists(self, other: PoolRegistry) -> bool {
        &&& self.config == other.config
        &&& self.reserve_addr == other.reserve_addr
        &&& self.kyc_contract == other.kyc_contract
        &&& self.paused == other.paused
        &&& self.pools@ == other.pools@
    }

    /// Both registries hold the same settings, counters and pools.
    pub open spec fn unchanged(self, other: PoolRegistry) -> bool {
        &&& self.same_settings(other)
        &&& self.config == other.config
        &&& self.pools@.len() == other.pools@.len()
        &&& forall|i: int|
            0 <= i < self.pools@.len() ==> (#[trigger] self.pools@[i]).same_as(other.pools@[i])
    }

    /// This registry differs from `before` in nothing but what the record at
    /// `index` holds of its credit line, its slices and its repayments, and
    /// in the counter of token ids.
    pub open spec fn changed_pool(self, before: PoolRegistry, index: int) -> bool {
        &&& self.same_settings(before)
        &&& self.config.pool_id == before.config.pool_id
        &&& self.pools@.len() == before.pools@.len()
        &&& forall|i: int|
            0 <= i < self.pools@.len() && i != index ==> (#[trigger] self.pools@[i]).same_as(
                before.pools@[i],
            )
        &&& 0 <= index < self.pools@.len()
        &&& self.pools@[index].pool == before.pools@[index].pool
    }

    /// The registry is well formed: it holds one record for every pool id
    /// handed out, the `k`-th record is that of pool `k`, and every credit
    /// line is within its limits.
    pub open spec fn wf(self) -> bool {
        &&& self.pools@.len() == self.config.pool_id
        &&& forall|i: int|
            0 <= i < self.pools@.len() ==> (#[trigger] self.pools@[i]).pool.pool_id == i + 1
                && self.pools@[i].credit_line.limits_hold()
    }

    /// The unit of the whitelisted currency `denom`, where it is whitelisted.
    pub open spec fn spec_token_unit(self, denom: Seq<char>) -> Option<u32> {
        spec_find_token(self.whitelisted_tokens@, self.whitelisted_tokens@.len(), denom)
    }

    /// The senior pool that serves `denom`, where one is set.
    pub open spec fn spec_senior_pool(self, denom: Seq<char>) -> Option<String> {
        spec_find_senior_pool(self.senior_pools@, self.senior_pools@.len(), denom)
    }

    /// The place of the record of pool `pool_id`.
    pub open spec fn spec_pool_index(self, pool_id: u64) -> Result<int, Fault> {
        if pool_id == 0 || pool_id > self.pools@.len() {
            Err(Fault::InvalidPoolId(pool_id))
        } else {
            Ok(pool_id - 1)
        }
    }

    fn pool_index(&self, pool_id: u64) -> (r: Result<usize, ContractError>)
        ensures
            match self.spec_pool_index(pool_id) {
                Ok(index) => r matches Ok(i) && i == index && i < self.pools@.len(),
                Err(e) => r matches Err(x) && x@ == e,
            },
    {
        if pool_id == 0 || pool_id > self.pools.len() as u64 {
            return Err(ContractError::InvalidPoolId { id: pool_id });
        }
        Ok((pool_id - 1) as usize)
    }

    /// The unit of a whitelisted currency.
    pub fn token_unit(&self, denom: &String) -> (unit: Option<u32>)
        ensures
            unit == self.spec_token_unit(denom@),
    {
        let mut i: usize = 0;
        while i < self.whitelisted_tokens.len()
            invariant
                i <= self.whitelisted_tokens.len(),
                spec_find_token(self.whitelisted_tokens@, i as nat, denom@) is None,
            decreases self.whitelisted_tokens.len() - i,
        {
            if self.whitelisted_tokens[i].denom == *denom {
                proof {
                    lemma_find_token_stays(
                        self.whitelisted_tokens@,
                        (i + 1) as nat,
                        self.whitelisted_tokens@.len(),
                        denom@,
                    );
                }
                return Some(self.whitelisted_tokens[i].unit);
            }
            i = i + 1;
        }
        None
    }

    /// The address of the senior pool that serves a currency.
    pub fn senior_pool(&self, denom: &String) -> (addr: Option<String>)
        ensures
            addr == self.spec_senior_pool(denom@),
    {
        let mut i: usize = 0;
        while i < self.senior_pools.len()
            invariant
                i <= self.senior_pools.len(),
                spec_find_senior_pool(self.senior_pools@, i as nat, denom@) is None,
            decreases self.senior_pools.len() - i,
        {
            if self.senior_pools[i].denom == *denom {
                proof {
                    lemma_find_senior_pool_stays(
                        self.senior_pools@,
                        (i + 1) as nat,
                        self.senior_pools@.len(),
                        denom@,
                    );
                }
                return Some(self.senior_pools[i].addr.clone());
            }
            i = i + 1;
        }
        None
    }

    /// The registry of a contract that was just set up: no pool, the first
    /// currency whitelisted, the given addresses for the reserve and the
    /// identity provider, and drawdowns not paused.
    pub fn new(info: &MessageInfo, msg: &InstantiateMsg) -> (r: Result<
        PoolRegistry,
        ContractError,
    >)
        ensures
            match contract::spec_instantiate(*info, *msg) {
                Err(e) => r matches Err(x) && x@ == e,
                Ok((config, unit)) => r matches Ok(registry) && {
                    &&& registry.wf()
                    &&& registry.config == config
                    &&& registry.reserve_addr == msg.reserves_addr
                    &&& registry.kyc_contract == msg.kyc_addr
                    &&& !registry.paused
                    &&& registry.pools@.len() == 0
                    &&& registry.senior_pools@.len() == 0
                    &&& registry.whitelisted_tokens@.len() == 1
                    &&& registry.whitelisted_tokens@[0].denom == msg.denom
                    &&& registry.whitelisted_tokens@[0].unit == unit
                },
            },
    {
        let (config, unit) = contract::instantiate(info, msg)?;
        let mut whitelisted_tokens: Vec<WhitelistedToken> = Vec::new();
        whitelisted_tokens.push(WhitelistedToken { denom: msg.denom.clone(), unit });
        Ok(
            PoolRegistry {
                config,
                reserve_addr: msg.reserves_addr.clone(),
                kyc_contract: msg.kyc_addr.clone(),
                paused: false,
                whitelisted_tokens,
                senior_pools: Vec::new(),
                pools: Vec::new(),
            },
        )
    }

    /// Creates a pool and files its records. Returns the id of the pool.
    ///
    /// The request is checked as for [`contract::create_pool`], against the
    /// whitelist and the senior pools of this registry.
    pub fn create_pool(
        &mut self,
        info: &MessageInfo,
        msg: CreatePoolMsg,
        borrower_has_kyc: bool,
        now: Timestamp,
    ) -> (r: Result<u64, ContractError>)
        ensures
            old(self).wf() ==> final(self).wf(),
            match contract::spec_create_pool_check(
                old(self).config,
                *info,
                msg,
                borrower_has_kyc,
                old(self).spec_token_unit(msg.denom@) is Some,
                old(self).spec_senior_pool(msg.denom@) is Some,
            ) {
                Err(e) => r matches Err(x) && x@ == e && *final(self) == *old(self),
                Ok(_) => r == Ok::<u64, ContractError>((old(self).config.pool_id + 1) as u64) && {
                    &&& final(self).pools@.len() == old(self).pools@.len() + 1
                    &&& forall|i: int|
                        0 <= i < old(self).pools@.len() ==> final(self).pools@[i] == old(self).pools@[i]
                    &&& final(self).same_settings(*old(self))
                    &&& final(self).config.token_id == old(self).config.token_id
                    &&& final(self).config.pool_id == old(self).config.pool_id + 1
                    &&& final(self).pools@.last().pool == contract::spec_new_pool(
                        old(self).config,
                        msg,
                        now,
                    )
                    &&& final(self).pools@.last().credit_line == contract::spec_new_credit_line(
                        old(self).config,
                        msg,
                        now,
                    )
                    &&& final(self).pools@.last().slices@ == seq![PoolSlice::spec_new(0)->Ok_0]
                    &&& final(self).pools@.last().repayments@.len() == 0
                },
            },
    {
        let denom_whitelisted = self.token_unit(&msg.denom).is_some();
        let senior_pool_set = self.senior_pool(&msg.denom).is_some();
        let created = contract::create_pool(
            &mut self.config,
            info,
            msg,
            borrower_has_kyc,
            denom_whitelisted,
            senior_pool_set,
            now,
        )?;
        self.pools.push(
            PoolRecord {
                pool: created.pool,
                credit_line: created.credit_line,
                slices: created.slices,
                repayments: Vec::new(),
            },
        );
        Ok(self.config.pool_id)
    }

    /// Opens the next slice of a pool, once the slice before it is locked;
    /// see [`helpers::initialize_next_slice`].
    pub fn initialize_next_slice(&mut self, pool_id: u64) -> (r: Result<(), ContractError>)
        ensures
            old(self).wf() ==> final(self).wf(),
            match old(self).spec_pool_index(pool_id) {
                Err(e) => r matches Err(x) && x@ == e && final(self).unchanged(*old(self)),
                Ok(index) => match helpers::spec_initialize_next_slice(
                    old(self).pools@[index].slices@,
                ) {
                    Err(e) => r matches Err(x) && x@ == e && final(self).unchanged(*old(self)),
                    Ok(after) => r is Ok && {
                        &&& final(self).changed_pool(*old(self), index)
                        &&& final(self).config == old(self).config
                        &&& final(self).pools@[index].slices@ == after
                        &&& final(self).pools@[index].credit_line == old(self).pools@[index].credit_line
                        &&& final(self).pools@[index].repayments@ == old(self).pools@[index].repayments@
                    },
                },
            },
    {
        let index = self.pool_index(pool_id)?;
        let record = &mut self.pools[index];
        helpers::initialize_next_slice(&mut record.slices)
    }

    /// Takes a deposit into a tranche of the pool that `msg` names; see
    /// [`contract::deposit`]. An unknown pool is refused with `InvalidPoolId`.
    pub fn deposit(&mut self, info: &MessageInfo, msg: &DepositMsg, sender_has_kyc: bool) -> (r:
        Result<InvestorToken, ContractError>)
        ensures
            old(self).wf() ==> final(self).wf(),
            match old(self).spec_pool_index(msg.pool_id) {
                Err(e) => r matches Err(x) && x@ == e && final(self).unchanged(*old(self)),
                Ok(index) => match contract::spec_deposit(
                    old(self).pools@[index].pool,
                    old(self).pools@[index].slices@,
                    old(self).config,
                    old(self).spec_senior_pool(old(self).pools@[index].pool.denom@),
                    sender_has_kyc,
                    *info,
                    *msg,
                ) {
                    Err(e) => r matches Err(x) && x@ == e && final(self).unchanged(*old(self)),
                    Ok((after, token)) => r == Ok::<InvestorToken, ContractError>(token) && {
                        &&& final(self).changed_pool(*old(self), index)
                        &&& final(self).config.token_id == token.token_id
                        &&& final(self).pools@[index].slices@ == after
                        &&& final(self).pools@[index].credit_line == old(self).pools@[index].credit_line
                        &&& final(self).pools@[index].repayments@ == old(self).pools@[index].repayments@
                    },
                },
            },
    {
        let index = self.pool_index(msg.pool_id)?;
        let senior = self.senior_pool(&self.pools[index].pool.denom);
        let record = &mut self.pools[index];
        contract::deposit(
            &record.pool,
            &mut record.slices,
            &mut self.config,
            &senior,
            sender_has_kyc,
            info,
            msg,
        )
    }

    /// Locks the junior capital of the newest slice of the pool that `msg`
    /// names; see [`contract::lock_junior_capital`].
    pub fn lock_junior_capital(&mut self, msg: &LockJuniorCapitalMsg, now: Timestamp) -> (r: Result<
        Option<u128>,
        ContractError,
    >)
        ensures
            old(self).wf() ==> final(self).wf(),
            match old(self).spec_pool_index(msg.pool_id) {
                Err(e) => r matches Err(x) && x@ == e && final(self).unchanged(*old(self)),
                Ok(index) => match contract::spec_lock_junior_capital(
                    old(self).pools@[index].slices@,
                    old(self).pools@[index].credit_line,
                    now,
                ) {
                    Err(e) => r matches Err(x) && x@ == e && final(self).unchanged(*old(self)),
                    Ok((after, locked)) => r == Ok::<Option<u128>, ContractError>(locked) && {
                        &&& final(self).changed_pool(*old(self), index)
                        &&& final(self).config == old(self).config
                        &&& final(self).pools@[index].slices@ == after
                        &&& final(self).pools@[index].credit_line == old(self).pools@[index].credit_line
                        &&& final(self).pools@[index].repayments@ == old(self).pools@[index].repayments@
                    },
                },
            },
    {
        let index = self.pool_index(msg.pool_id)?;
        let record = &mut self.pools[index];
        contract::lock_junior_capital(&mut record.slices, &record.credit_line, now)
    }

    /// Locks the newest slice of the pool that `msg` names and raises the
    /// limit of its credit line; see [`contract::lock_pool`].
    pub fn lock_pool(&mut self, info: &MessageInfo, msg: &LockPoolMsg, now: Timestamp) -> (r:
        Result<Option<LockedPool>, ContractError>)
        ensures
            old(self).wf() ==> final(self).wf(),
            match old(self).spec_pool_index(msg.pool_id) {
                Err(e) => r matches Err(x) && x@ == e && final(self).unchanged(*old(self)),
                Ok(index) => match contract::spec_lock_pool(
                    old(self).pools@[index].pool,
                    old(self).pools@[index].slices@,
                    old(self).pools@[index].credit_line,
                    *info,
                    now,
                ) {
                    Err(e) => r matches Err(x) && x@ == e && final(self).unchanged(*old(self)),
                    Ok((line, after, locked)) => r == Ok::<Option<LockedPool>, ContractError>(
                        locked,
                    ) && {
                        &&& final(self).changed_pool(*old(self), index)
                        &&& final(self).config == old(self).config
                        &&& final(self).pools@[index].slices@ == after
                        &&& final(self).pools@[index].credit_line == line
                        &&& final(self).pools@[index].repayments@ == old(self).pools@[index].repayments@
                    },
                },
            },
    {
        let index = self.pool_index(msg.pool_id)?;
        let record = &mut self.pools[index];
        contract::lock_pool(
            &record.pool,
            &mut record.slices,
            &mut record.credit_line,
            info,
            now,
        )
    }

    /// Lets the borrower of the pool that `msg` names draw on it; see
    /// [`contract::drawdown`].
    pub fn drawdown(
        &mut self,
        info: &MessageInfo,
        msg: &DrawdownMsg,
        sender_has_kyc: bool,
        now: Timestamp,
    ) -> (r: Result<(), ContractError>)
        ensures
            old(self).wf() ==> final(self).wf(),
            match old(self).spec_pool_index(msg.pool_id) {
                Err(e) => r matches Err(x) && x@ == e && final(self).unchanged(*old(self)),
                Ok(index) => match contract::spec_drawdown(
                    old(self).pools@[index].pool,
                    old(self).pools@[index].slices@,
                    old(self).pools@[index].credit_line,
                    old(self).paused,
                    sender_has_kyc,
                    *info,
                    *msg,
                    now,
                ) {
                    Err(e) => r matches Err(x) && x@ == e && final(self).unchanged(*old(self)),
                    Ok((line, after)) => r is Ok && {
                        &&& final(self).changed_pool(*old(self), index)
                        &&& final(self).config == old(self).config
                        &&& final(self).pools@[index].slices@ == after
                        &&& final(self).pools@[index].credit_line == line
                        &&& final(self).pools@[index].repayments@ == old(self).pools@[index].repayments@
                    },
                },
            },
    {
        let index = self.pool_index(msg.pool_id)?;
        let paused = self.paused;
        let record = &mut self.pools[index];
        contract::drawdown(
            &record.pool,
            &mut record.slices,
            &mut record.credit_line,
            paused,
            sender_has_kyc,
            info,
            msg,
            now,
        )
    }

    /// Takes a repayment on the pool that `msg` names and files it in the
    /// history of the pool; see [`contract::repay`].
    pub fn repay(
        &mut self,
        info: &MessageInfo,
        msg: &RepayMsg,
        sender_has_kyc: bool,
        now: Timestamp,
    ) -> (r: Result<RepaymentOutcome, ContractError>)
        ensures
            old(self).wf() ==> final(self).wf(),
            match old(self).spec_pool_index(msg.pool_id) {
                Err(e) => r matches Err(x) && x@ == e && final(self).unchanged(*old(self)),
                Ok(index) => match contract::spec_repay(
                    old(self).pools@[index].pool,
                    old(self).pools@[index].credit_line,
                    old(self).pools@[index].slices@,
                    old(self).config.reserve_fee,
                    sender_has_kyc,
                    *info,
                    *msg,
                    now,
                ) {
                    Err(e) => r matches Err(x) && x@ == e && final(self).unchanged(*old(self)),
                    Ok((line, after, done)) => r == Ok::<RepaymentOutcome, ContractError>(done)
                        && {
                        &&& final(self).changed_pool(*old(self), index)
                        &&& final(self).config == old(self).config
                        &&& final(self).pools@[index].slices@ == after
                        &&& final(self).pools@[index].credit_line == line
                        &&& final(self).pools@[index].repayments@ == old(self).pools@[index].repayments@.push(done.repayment)
                    },
                },
            },
    {
        let index = self.pool_index(msg.pool_id)?;
        let record = &mut self.pools[index];
        contract::repay(
            &record.pool,
            &mut record.credit_line,
            &mut record.slices,
            &mut record.repayments,
            &self.config,
            sender_has_kyc,
            info,
            msg,
            now,
        )
    }

    /// Lets the owner of an investor token withdraw from the pool of the
    /// token; see [`contract::withdraw`].
    pub fn withdraw(
        &mut self,
        investor_token: &InvestorToken,
        nft_owner: &String,
        info: &MessageInfo,
        msg: &WithdrawMsg,
        now: Timestamp,
    ) -> (r: Result<Withdrawal, ContractError>)
        ensures
            old(self).wf() ==> final(self).wf(),
            match old(self).spec_pool_index(investor_token.pool_id) {
                Err(e) => r matches Err(x) && x@ == e && final(self).unchanged(*old(self)),
                Ok(index) => match contract::spec_withdraw(
                    old(self).pools@[index].slices@,
                    *investor_token,
                    *nft_owner,
                    *info,
                    *msg,
                    now,
                ) {
                    Err(e) => r matches Err(x) && x@ == e && final(self).unchanged(*old(self)),
                    Ok((after, withdrawal)) => r == Ok::<Withdrawal, ContractError>(withdrawal)
                        && {
                        &&& final(self).changed_pool(*old(self), index)
                        &&& final(self).config == old(self).config
                        &&& final(self).pools@[index].slices@ == after
                        &&& final(self).pools@[index].credit_line == old(self).pools@[index].credit_line
                        &&& final(self).pools@[index].repayments@ == old(self).pools@[index].repayments@
                    },
                },
            },
    {
        let index = self.pool_index(investor_token.pool_id)?;
        let record = &mut self.pools[index];
        contract::withdraw(&mut record.slices, investor_token, nft_owner, info, msg, now)
    }

    /// Withdraws everything that those of the given tokens which belong to
    /// the pool `pool_id` can take from it; see [`contract::withdraw_all`].
    pub fn withdraw_all(&mut self, pool_id: u64, tokens: &Vec<InvestorToken>, now: Timestamp) -> (r:
        Result<Vec<Withdrawal>, ContractError>)
        ensures
            old(self).wf() ==> final(self).wf(),
            match old(self).spec_pool_index(pool_id) {
                Err(e) => r matches Err(x) && x@ == e && final(self).unchanged(*old(self)),
                Ok(index) => {
                    let investments = query::spec_investments(tokens@, tokens@.len(), pool_id);
                    match contract::spec_withdraw_all(
                        old(self).pools@[index].slices@,
                        investments,
                        investments.len(),
                        now,
                    ) {
                        Err(e) => r matches Err(x) && x@ == e && final(self).unchanged(*old(self)),
                        Ok((after, withdrawals)) => r matches Ok(v) && v@ == withdrawals && {
                            &&& final(self).changed_pool(*old(self), index)
                            &&& final(self).config == old(self).config
                            &&& final(self).pools@[index].slices@ == after
                            &&& final(self).pools@[index].credit_line == old(self).pools@[index].credit_line
                            &&& final(self).pools@[index].repayments@ == old(self).pools@[index].repayments@
                        },
                    }
                },
            },
    {
        let index = self.pool_index(pool_id)?;
        let investments = query::get_investments(tokens, pool_id);
        let record = &mut self.pools[index];
        contract::withdraw_all(&mut record.slices, &investments, now)
    }

    /// Whitelists a currency, for the admin alone: its unit replaces the one
    /// on the list, or it joins the list.
    pub fn whitelist_token(&mut self, info: &MessageInfo, denom: String, decimals: u8) -> (r:
        Result<(), ContractError>)
        ensures
            old(self).wf() ==> final(self).wf(),
            match contract::spec_ensure_admin(old(self).config, *info) {
                Err(e) => r matches Err(x) && x@ == e && final(self).unchanged(*old(self)),
                Ok(_) => match contract::spec_decimals_pow(decimals) {
                    Err(e) => r matches Err(x) && x@ == e && final(self).unchanged(*old(self)),
                    Ok(unit) => r is Ok && {
                        &&& final(self).spec_token_unit(denom@) == Some(unit)
                        &&& forall|other: Seq<char>|
                            other != denom@ ==> #[trigger] final(self).spec_token_unit(other)
                                == old(self).spec_token_unit(other)
                        &&& final(self).settings_but_lists(*old(self))
                        &&& final(self).senior_pools@ == old(self).senior_pools@
                    },
                },
            },
    {
        let unit = contract::whitelist_token(&self.config, info, decimals)?;
        match self.token_index(&denom) {
            Some(i) => {
                let token = WhitelistedToken { denom, unit };
                self.whitelisted_tokens[i] = token;
                proof {
                    lemma_find_token_prefix(
                        old(self).whitelisted_tokens@,
                        self.whitelisted_tokens@,
                        i as nat,
                        denom@,
                    );
                    assert(spec_find_token(self.whitelisted_tokens@, (i + 1) as nat, denom@)
                        == Some(unit));
                    lemma_find_token_stays(
                        self.whitelisted_tokens@,
                        (i + 1) as nat,
                        self.whitelisted_tokens@.len(),
                        denom@,
                    );
                }
            },
            None => {
                self.whitelisted_tokens.push(WhitelistedToken { denom, unit });
                proof {
                    lemma_find_token_prefix(
                        old(self).whitelisted_tokens@,
                        self.whitelisted_tokens@,
                        old(self).whitelisted_tokens@.len(),
                        denom@,
                    );
                }
            },
        }
        proof {
            assert forall|other: Seq<char>| other != denom@ implies #[trigger] self.spec_token_unit(
                other,
            ) == old(self).spec_token_unit(other) by {
                lemma_find_token_elsewhere(
                    old(self).whitelisted_tokens@,
                    self.whitelisted_tokens@,
                    old(self).whitelisted_tokens@.len(),
                    denom@,
                    other,
                );
                assert(spec_find_token(
                    self.whitelisted_tokens@,
                    self.whitelisted_tokens@.len(),
                    other,
                ) == spec_find_token(
                    self.whitelisted_tokens@,
                    old(self).whitelisted_tokens@.len(),
                    other,
                ));
            }
        }
        Ok(())
    }

    /// Names the identity provider, for the admin alone.
    pub fn set_kyc_contract(&mut self, info: &MessageInfo, addr: String) -> (r: Result<
        (),
        ContractError,
    >)
        ensures
            old(self).wf() ==> final(self).wf(),
            match contract::spec_ensure_admin(old(self).config, *info) {
                Err(e) => r matches Err(x) && x@ == e && *final(self) == *old(self),
                Ok(_) => r is Ok && *final(self) == (PoolRegistry {
                    kyc_contract: addr,
                    ..*old(self)
                }),
            },
    {
        contract::set_kyc_contract(&self.config, info)?;
        self.kyc_contract = addr;
        Ok(())
    }

    /// Names the senior pool that serves a currency, for the admin alone: its
    /// address replaces the one set for the currency, or it joins the list.
    pub fn set_senior_pool(&mut self, info: &MessageInfo, denom: String, addr: String) -> (r:
        Result<(), ContractError>)
        ensures
            old(self).wf() ==> final(self).wf(),
            match contract::spec_ensure_admin(old(self).config, *info) {
                Err(e) => r matches Err(x) && x@ == e && final(self).unchanged(*old(self)),
                Ok(_) => r is Ok && {
                    &&& final(self).spec_senior_pool(denom@) == Some(addr)
                    &&& forall|other: Seq<char>|
                        other != denom@ ==> #[trigger] final(self).spec_senior_pool(other) == old(self).spec_senior_pool(other)
                    &&& final(self).settings_but_lists(*old(self))
                    &&& final(self).whitelisted_tokens@ == old(self).whitelisted_tokens@
                },
            },
    {
        contract::set_kyc_contract(&self.config, info)?;
        match self.senior_pool_index(&denom) {
            Some(i) => {
                let entry = SeniorPool { denom, addr };
                self.senior_pools[i] = entry;
                proof {
                    lemma_find_senior_pool_prefix(
                        old(self).senior_pools@,
                        self.senior_pools@,
                        i as nat,
                        denom@,
                    );
                    assert(spec_find_senior_pool(self.senior_pools@, (i + 1) as nat, denom@)
                        == Some(addr));
                    lemma_find_senior_pool_stays(
                        self.senior_pools@,
                        (i + 1) as nat,
                        self.senior_pools@.len(),
                        denom@,
                    );
                }
            },
            None => {
                self.senior_pools.push(SeniorPool { denom, addr });
                proof {
                    lemma_find_senior_pool_prefix(
                        old(self).senior_pools@,
                        self.senior_pools@,
                        old(self).senior_pools@.len(),
                        denom@,
                    );
                }
            },
        }
        proof {
            assert forall|other: Seq<char>| other != denom@ implies #[trigger] self.spec_senior_pool(
                other,
            ) == old(self).spec_senior_pool(other) by {
                lemma_find_senior_pool_elsewhere(
                    old(self).senior_pools@,
                    self.senior_pools@,
                    old(self).senior_pools@.len(),
                    denom@,
                    other,
                );
                assert(spec_find_senior_pool(
                    self.senior_pools@,
                    self.senior_pools@.len(),
                    other,
                ) == spec_find_senior_pool(
                    self.senior_pools@,
                    old(self).senior_pools@.len(),
                    other,
                ));
            }
        }
        Ok(())
    }

    /// The settings of the contract.
    pub fn get_config(&self) -> (config: &Config)
        ensures
            *config == self.config,
    {
        &self.config
    }

    /// The credit line of a pool.
    pub fn get_credit_line(&self, id: u64) -> (r: Result<CreditLine, ContractError>)
        ensures
            match self.spec_pool_index(id) {
                Ok(index) => r == Ok::<CreditLine, ContractError>(self.pools@[index].credit_line),
                Err(e) => r matches Err(x) && x@ == e,
            },
    {
        let index = self.pool_index(id)?;
        Ok(self.pools[index].credit_line)
    }

    /// The slices of a pool, oldest first.
    pub fn get_slices(&self, id: u64) -> (r: Result<Vec<PoolSlice>, ContractError>)
        ensures
            match self.spec_pool_index(id) {
                Ok(index) => r matches Ok(slices) && slices@ == self.pools@[index].slices@,
                Err(e) => r matches Err(x) && x@ == e,
            },
    {
        let index = self.pool_index(id)?;
        Ok(contract::copy_slices(&self.pools[index].slices))
    }

    /// The repayments that a pool has taken, oldest first; none for a pool
    /// that is not there.
    pub fn get_repayment_info(&self, pool_id: u64) -> (payments: Vec<RepaymentInfo>)
        ensures
            payments@ == match self.spec_pool_index(pool_id) {
                Ok(index) => self.pools@[index].repayments@,
                Err(_) => Seq::empty(),
            },
    {
        let mut payments: Vec<RepaymentInfo> = Vec::new();
        match self.pool_index(pool_id) {
            Err(_) => {},
            Ok(index) => {
                let history = &self.pools[index].repayments;
                let mut i: usize = 0;
                while i < history.len()
                    invariant
                        i <= history.len(),
                        payments@ == history@.take(i as int),
                    decreases history.len() - i,
                {
                    payments.push(history[i]);
                    i = i + 1;
                }
            },
        }
        payments
    }

    /// Describes a pool to the outside at `now`; `None` for a pool that is
    /// not there. See [`query::get_pool_info`].
    pub fn get_pool_info(&self, id: u64, accepted_assets: &Vec<Asset>, now: Timestamp) -> (info:
        Option<PoolInfo>)
        ensures
            info is Some <==> self.spec_pool_index(id) is Ok,
            info matches Some(described) ==> query::spec_describes(
                described,
                self.pools@[id - 1].pool,
                self.pools@[id - 1].credit_line,
                self.pools@[id - 1].slices@,
                accepted_assets@,
                now,
            ),
    {
        match self.pool_index(id) {
            Err(_) => None,
            Ok(index) => {
                let record = &self.pools[index];
                Some(
                    query::get_pool_info(
                        &record.pool,
                        &record.credit_line,
                        &record.slices,
                        accepted_assets,
                        now,
                    ),
                )
            },
        }
    }

    /// How many pools a page that asks for the ids from `first` up to, and
    /// not including, `end` lists: those of the ids that are there.
    pub open spec fn spec_listed(self, first: u64, end: u64) -> int {
        let last: int = if end <= self.pools@.len() {
            end as int
        } else {
            self.pools@.len() as int + 1
        };
        if first == 0 || first >= last {
            0
        } else {
            last - first
        }
    }

    /// The line is that of the pool recorded at `index`, with the unit of
    /// the pool's currency, which is whitelisted.
    pub open spec fn spec_lists_pool(self, line: PoolResponse, index: int) -> bool {
        self.spec_token_unit(self.pools@[index].pool.denom@) matches Some(unit)
            && query::spec_lists(
            line,
            self.pools@[index].pool,
            self.pools@[index].credit_line,
            unit,
        )
    }

    /// The lines are those of the pools with the ids from `first` up to, and
    /// not including, `end` that are there, in the order of their ids.
    pub open spec fn spec_page_of_pools(self, lines: Seq<PoolResponse>, first: u64, end: u64) -> bool {
        &&& lines.len() == self.spec_listed(first, end)
        &&& forall|i: int|
            0 <= i < lines.len() ==> self.spec_lists_pool(#[trigger] lines[i], first - 1 + i)
    }

    /// One of the pools that the page would list is in a currency that is
    /// not whitelisted.
    pub open spec fn spec_page_fails(self, first: u64, end: u64) -> bool {
        exists|i: int|
            0 <= i < self.spec_listed(first, end) && self.spec_token_unit(
                (#[trigger] self.pools@[first - 1 + i]).pool.denom@,
            ) is None
    }

    /// One page of the list of pools, in the order of their ids; see
    /// [`query::page`] for the ids that it covers. A pool in a currency that
    /// is not whitelisted ends the listing with `DenomNotWhitelisted`.
    pub fn get_all_pools(&self, start: Option<u64>, limit: Option<u8>) -> (r: Result<
        Vec<PoolResponse>,
        ContractError,
    >)
        ensures
            match query::spec_page(start, limit) {
                Err(e) => r matches Err(x) && x@ == e,
                Ok((first, end)) => match r {
                    Ok(list) => self.spec_page_of_pools(list@, first, end),
                    Err(e) => e@ == Fault::DenomNotWhitelisted && self.spec_page_fails(first, end),
                },
            },
    {
        let (first, end) = query::page(start, limit)?;
        let mut pools: Vec<PoolResponse> = Vec::new();
        if first == 0 {
            return Ok(pools);
        }
        let mut pool_id: u64 = first;
        while pool_id < end && pool_id <= self.pools.len() as u64
            invariant
                query::spec_page(start, limit) == Ok::<(u64, u64), Fault>((first, end)),
                1 <= first <= pool_id,
                pool_id <= end || pool_id == first,
                pool_id <= self.pools@.len() + 1 || pool_id == first,
                pools@.len() == pool_id - first,
                forall|i: int|
                    0 <= i < pools@.len() ==> self.spec_lists_pool(
                        #[trigger] pools@[i],
                        first - 1 + i,
                    ),
            decreases end - pool_id,
        {
            let record = &self.pools[(pool_id - 1) as usize];
            let unit: u32 = match self.token_unit(&record.pool.denom) {
                Some(unit) => unit,
                None => {
                    proof {
                        let i: int = pool_id - first;
                        assert(self.spec_token_unit(self.pools@[first - 1 + i].pool.denom@)
                            is None);
                        assert(self.spec_page_fails(first, end));
                    }
                    return Err(ContractError::DenomNotWhitelisted);
                },
            };
            let line = query::pool_response(&record.pool, &record.credit_line, unit);
            proof {
                assert(self.spec_lists_pool(line, first - 1 + (pool_id - first)));
            }
            pools.push(line);
            pool_id = pool_id + 1;
        }
        Ok(pools)
    }

    /// Everything deposited in the slices of a pool.
    pub fn total_pool_deposit(&self, pool_id: u64) -> (r: Result<u128, ContractError>)
        ensures
            outcome(r) == match self.spec_pool_index(pool_id) {
                Ok(index) => query::spec_total_pool_deposit(
                    self.pools@[index].slices@,
                    self.pools@[index].slices@.len(),
                ),
                Err(e) => Err(e),
            },
    {
        let index = self.pool_index(pool_id)?;
        query::total_pool_deposit(&self.pools[index].slices)
    }

    /// What a pool has drawn and not repaid in principal.
    pub fn pool_value_locked(&self, pool_id: u64) -> (r: Result<u128, ContractError>)
        ensures
            outcome(r) == match self.spec_pool_index(pool_id) {
                Ok(index) => crate::math::spec_sub(
                    self.pools@[index].credit_line.borrow_info.total_borrowed,
                    self.pools@[index].credit_line.borrow_info.principal_repaid,
                ),
                Err(e) => Err(e),
            },
    {
        let index = self.pool_index(pool_id)?;
        query::pool_value_locked(&self.pools[index].credit_line)
    }

    /// The credit lines of the first `n` pools.
    pub open spec fn spec_credit_lines(self, n: nat) -> Seq<CreditLine> {
        Seq::new(n, |i: int| self.pools@[i].credit_line)
    }

    /// What all pools together have drawn and not repaid in principal; see
    /// [`query::total_value_locked`].
    pub fn total_value_locked(&self) -> (locked: u128)
        ensures
            locked == query::spec_total_value_locked(
                self.spec_credit_lines(self.pools@.len()),
                self.pools@.len(),
            ),
    {
        let mut lines: Vec<CreditLine> = Vec::new();
        let mut i: usize = 0;
        while i < self.pools.len()
            invariant
                i <= self.pools.len(),
                lines@ == self.spec_credit_lines(i as nat),
            decreases self.pools.len() - i,
        {
            lines.push(self.pools[i].credit_line);
            assert(lines@ =~= self.spec_credit_lines((i + 1) as nat));
            i = i + 1;
        }
        query::total_value_locked(&lines)
    }

    fn token_index(&self, denom: &String) -> (found: Option<usize>)
        ensures
            match found {
                Some(i) => i < self.whitelisted_tokens@.len()
                    && self.whitelisted_tokens@[i as int].denom@ == denom@ && spec_find_token(
                    self.whitelisted_tokens@,
                    i as nat,
                    denom@,
                ) is None,
                None => self.spec_token_unit(denom@) is None,
            },
    {
        let mut i: usize = 0;
        while i < self.whitelisted_tokens.len()
            invariant
                i <= self.whitelisted_tokens.len(),
                spec_find_token(self.whitelisted_tokens@, i as nat, denom@) is None,
            decreases self.whitelisted_tokens.len() - i,
        {
            if self.whitelisted_tokens[i].denom == *denom {
                return Some(i);
            }
            i = i + 1;
        }
        None
    }

    fn senior_pool_index(&self, denom: &String) -> (found: Option<usize>)
        ensures
            match found {
                Some(i) => i < self.senior_pools@.len() && self.senior_pools@[i as int].denom@
                    == denom@ && spec_find_senior_pool(self.senior_pools@, i as nat, denom@)
                    is None,
                None => self.spec_senior_pool(denom@) is None,
            },
    {
        let mut i: usize = 0;
        while i < self.senior_pools.len()
            invariant
                i <= self.senior_pools.len(),
                spec_find_senior_pool(self.senior_pools@, i as nat, denom@) is None,
            decreases self.senior_pools.len() - i,
        {
            if self.senior_pools[i].denom == *denom {
                return Some(i);
            }
            i = i + 1;
        }
        None
    }
}

/// Lists that agree in the currencies of their first `n` tokens and find
/// nothing there in one, find nothing there in the other.
pub proof fn lemma_find_token_prefix(
    a: Seq<WhitelistedToken>,
    b: Seq<WhitelistedToken>,
    n: nat,
    denom: Seq<char>,
)
    requires
        n <= a.len(),
        n <= b.len(),
        forall|i: int| 0 <= i < n ==> (#[trigger] a[i]).denom@ == b[i].denom@,
        spec_find_token(a, n, denom) is None,
    ensures
        spec_find_token(b, n, denom) is None,
    decreases n,
{
    if n > 0 {
        lemma_find_token_prefix(a, b, (n - 1) as nat, denom);
    }
}

/// Lists that agree in the currencies of their first `n` senior pools and
/// find nothing there in one, find nothing there in the other.
pub proof fn lemma_find_senior_pool_prefix(
    a: Seq<SeniorPool>,
    b: Seq<SeniorPool>,
    n: nat,
    denom: Seq<char>,
)
    requires
        n <= a.len(),
        n <= b.len(),
        forall|i: int| 0 <= i < n ==> (#[trigger] a[i]).denom@ == b[i].denom@,
        spec_find_senior_pool(a, n, denom) is None,
    ensures
        spec_find_senior_pool(b, n, denom) is None,
    decreases n,
{
    if n > 0 {
        lemma_find_senior_pool_prefix(a, b, (n - 1) as nat, denom);
    }
}

/// Lists that agree in the currencies of their first `n` tokens, and in the
/// units of those that are not in the currency `changed`, find the same
/// there for every other currency.
pub proof fn lemma_find_token_elsewhere(
    a: Seq<WhitelistedToken>,
    b: Seq<WhitelistedToken>,
    n: nat,
    changed: Seq<char>,
    other: Seq<char>,
)
    requires
        n <= a.len(),
        n <= b.len(),
        other != changed,
        forall|i: int|
            0 <= i < n ==> (#[trigger] a[i]).denom@ == b[i].denom@ && (a[i].denom@ != changed
                ==> a[i].unit == b[i].unit),
    ensures
        spec_find_token(a, n, other) == spec_find_token(b, n, other),
    decreases n,
{
    if n > 0 {
        lemma_find_token_elsewhere(a, b, (n - 1) as nat, changed, other);
    }
}

/// Lists that agree in the currencies of their first `n` senior pools, and
/// in the addresses of those that do not serve the currency `changed`, find
/// the same there for every other currency.
pub proof fn lemma_find_senior_pool_elsewhere(
    a: Seq<SeniorPool>,
    b: Seq<SeniorPool>,
    n: nat,
    changed: Seq<char>,
    other: Seq<char>,
)
    requires
        n <= a.len(),
        n <= b.len(),
        other != changed,
        forall|i: int|
            0 <= i < n ==> (#[trigger] a[i]).denom@ == b[i].denom@ && (a[i].denom@ != changed
                ==> a[i].addr == b[i].addr),
    ensures
        spec_find_senior_pool(a, n, other) == spec_find_senior_pool(b, n, other),
    decreases n,
{
    if n > 0 {
        lemma_find_senior_pool_elsewhere(a, b, (n - 1) as nat, changed, other);
    }
}

} // verus!
