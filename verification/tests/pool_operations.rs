use tranche_pool::contract::{
    LockedPool, RepaymentOutcome, Withdrawal, WithdrawalKind, MIN_DEPOSIT,
};
use tranche_pool::error::ContractError;
use tranche_pool::helpers::RepaymentAllocation;
use tranche_pool::math::{share_price_to_usdc, Decimal};
use tranche_pool::msg::{
    Coin, CreatePoolMsg, DepositMsg, DrawdownMsg, InstantiateMsg, LockJuniorCapitalMsg,
    LockPoolMsg, MessageInfo, RepayMsg, WithdrawMsg,
};
use tranche_pool::registry::PoolRegistry;
use tranche_pool::state::{
    BorrowInfo, InvestorToken, LendInfo, PaymentFrequency, PoolSlice, PoolType, RepaymentInfo,
};
use tranche_pool::timestamp::Timestamp;
use tranche_pool::GRACE_PERIOD;

const USDC: &str = "usdc";
const T0: u64 = 1_571_797_419_879_305_533;
const DAY: u64 = 86_400;
const NANOS: u64 = 1_000_000_000;
const DRAWDOWN_PERIOD: u64 = 1_209_600;
const TERM_START: u64 = T0 + DRAWDOWN_PERIOD * NANOS;
const E18: u128 = 1_000_000_000_000_000_000;

fn now() -> Timestamp {
    Timestamp::from_nanos(T0)
}

fn after_start(days: u64) -> Timestamp {
    Timestamp::from_nanos(TERM_START + days * DAY * NANOS)
}

fn custom(msg: &str) -> ContractError {
    ContractError::CustomError { msg: msg.to_string() }
}

fn coins(amount: u128, denom: &str) -> Vec<Coin> {
    vec![Coin { denom: denom.to_string(), amount }]
}

fn mock_info(sender: &str, funds: &[Coin]) -> MessageInfo {
    MessageInfo { sender: sender.to_string(), funds: funds.to_vec() }
}

fn init_msg() -> InstantiateMsg {
    InstantiateMsg {
        admin: "admin".to_string(),
        code_id: 15,
        reserves_fee: 1000,
        reserves_addr: "reserves".to_string(),
        kyc_addr: "kyc_contract".to_string(),
        denom: "usdc".to_string(),
        decimals: 6,
    }
}

fn create_pool_msg() -> CreatePoolMsg {
    CreatePoolMsg {
        pool_name: "Demo Pool 1".to_string(),
        borrower: "borrower".to_string(),
        borrower_name: "Borrower 1".to_string(),
        uid_token: 0,
        interest_apr: 500,
        junior_fee_percent: 2000,
        late_fee_apr: 1000,
        borrow_limit: 1000000000000,
        interest_frequency: PaymentFrequency::Monthly,
        principal_frequency: PaymentFrequency::Monthly,
        principal_grace_period: 7776000,
        drawdown_period: 1209600,
        term_length: 31536000,
        denom: USDC.to_string(),
        backers: vec![],
        pool_type: PoolType::Junior,
    }
}

/// A registry with the senior pool of USDC set.
fn instantiated() -> PoolRegistry {
    let mut registry = PoolRegistry::new(&mock_info("admin", &[]), &init_msg()).unwrap();
    registry
        .set_senior_pool(
            &mock_info("admin", &[]),
            USDC.to_string(),
            "usdc_senior_pool".to_string(),
        )
        .unwrap();
    registry
}

/// A registry with pool 1 created by its borrower.
fn with_pool() -> PoolRegistry {
    let mut registry = instantiated();
    registry.create_pool(&mock_info("borrower", &[]), create_pool_msg(), true, now()).unwrap();
    registry
}

fn deposit_junior(registry: &mut PoolRegistry, sender: &str, amount: u128) -> InvestorToken {
    registry
        .deposit(
            &mock_info(sender, &coins(amount, USDC)),
            &DepositMsg { pool_id: 1, tranche_id: 0, amount },
            true,
        )
        .unwrap()
}

/// Pool 1 with the minimum deposit in its junior tranche, locked at T0.
fn locked_pool() -> PoolRegistry {
    let mut registry = with_pool();
    deposit_junior(&mut registry, "user1", MIN_DEPOSIT);
    registry.lock_junior_capital(&LockJuniorCapitalMsg { pool_id: 1 }, now()).unwrap();
    registry.lock_pool(&mock_info("borrower", &[]), &LockPoolMsg { pool_id: 1 }, now()).unwrap();
    registry
}

/// The locked pool after the borrower drew half of its funds at T0.
fn drawn_pool() -> PoolRegistry {
    let mut registry = locked_pool();
    registry
        .drawdown(
            &mock_info("borrower", &[]),
            &DrawdownMsg { pool_id: 1, amount: 5_000_000_000 },
            true,
            now(),
        )
        .unwrap();
    registry
}

fn repay(registry: &mut PoolRegistry, amount: u128, at: Timestamp) -> RepaymentOutcome {
    registry
        .repay(
            &mock_info("borrower", &coins(amount, USDC)),
            &RepayMsg { pool_id: 1, amount },
            true,
            at,
        )
        .unwrap()
}

#[test]
fn proper_instantiation() {
    let info = mock_info("admin", &[]);
    let msg = init_msg();
    let registry = PoolRegistry::new(&info, &msg).unwrap();

    let config = registry.get_config();
    assert_eq!(config.pool_id, 0u64);
    assert_eq!(config.token_id, 0u128);
    assert_eq!(config.admin, "admin".to_string());
    assert_eq!(config.grace_period, None);
    assert_eq!(config.reserve_fee, 1000u16);
    // the sender issues the tokens until the token contract has answered
    assert_eq!(config.token_issuer, "admin".to_string());

    assert_eq!(registry.reserve_addr, "reserves");
    assert_eq!(registry.kyc_contract, "kyc_contract");
    assert_eq!(registry.token_unit(&USDC.to_string()), Some(1_000_000));
    assert!(!registry.paused);
    assert!(registry.pools.is_empty());
}

#[test]
fn instantiation_accepts_no_funds() {
    let result = PoolRegistry::new(&mock_info("admin", &coins(1, USDC)), &init_msg());
    assert_eq!(result.err(), Some(ContractError::FundsNotAllowed));
    // a coin of amount zero counts as no funds
    assert!(PoolRegistry::new(&mock_info("admin", &coins(0, USDC)), &init_msg()).is_ok());
    let two = vec![
        Coin { denom: USDC.to_string(), amount: 0 },
        Coin { denom: "atom".to_string(), amount: 0 },
    ];
    assert_eq!(
        PoolRegistry::new(&mock_info("admin", &two), &init_msg()).err(),
        Some(ContractError::FundsNotAllowed)
    );
}

#[test]
fn instantiation_with_too_many_decimals_overflows() {
    let mut msg = init_msg();
    msg.decimals = 9;
    let registry = PoolRegistry::new(&mock_info("admin", &[]), &msg).unwrap();
    assert_eq!(registry.token_unit(&USDC.to_string()), Some(1_000_000_000));
    msg.decimals = 10;
    assert_eq!(
        PoolRegistry::new(&mock_info("admin", &[]), &msg).err(),
        Some(ContractError::Overflow)
    );
}

#[test]
fn test_create_pool() {
    let mut registry = instantiated();
    let pool_msg = create_pool_msg();
    let info = mock_info("borrower", &[]);
    let response = registry.create_pool(&info, pool_msg.clone(), true, now()).unwrap();

    const POOL_ID: u64 = 1u64;
    assert_eq!(response, POOL_ID);

    let pool = &registry.pools[0].pool;
    assert_eq!(pool.pool_id, POOL_ID);
    assert_eq!(pool.pool_name, pool_msg.pool_name);
    assert_eq!(pool.pool_type, pool_msg.pool_type);
    assert_eq!(pool.borrower_addr, "borrower".to_string());
    assert_eq!(pool.borrower_name, pool_msg.borrower_name);
    assert_eq!(pool.creation_info, now());
    assert_eq!(pool.denom, USDC);

    let config = registry.get_config();
    assert_eq!(config.pool_id, POOL_ID);

    let cl = registry.get_credit_line(POOL_ID).unwrap();
    assert_eq!(cl.term_start, Timestamp::default());
    assert_eq!(cl.term_end, Timestamp::default());
    assert_eq!(cl.term_length, pool_msg.term_length);
    assert_eq!(cl.principal_grace_period, pool_msg.principal_grace_period);
    assert_eq!(cl.drawdown_period, pool_msg.drawdown_period);
    let mut borrow_info = BorrowInfo::default();
    borrow_info.borrow_limit = pool_msg.borrow_limit;
    assert_eq!(cl.borrow_info, borrow_info);
    assert_eq!(cl.interest_apr, pool_msg.interest_apr);
    assert_eq!(cl.junior_fee_percent, pool_msg.junior_fee_percent);
    assert_eq!(cl.late_fee_apr, pool_msg.late_fee_apr);
    assert_eq!(cl.interest_frequency, pool_msg.interest_frequency);
    assert_eq!(cl.principal_frequency, pool_msg.principal_frequency);
    assert_eq!(cl.last_update_ts, now());
    assert_eq!(cl.last_full_payment, Timestamp::default());
    assert_eq!(cl.interest_owed, 0);
    assert_eq!(cl.interest_accrued, 0);
    if config.grace_period.is_some() {
        assert_eq!(cl.grace_period, config.grace_period.unwrap());
    } else {
        assert_eq!(cl.grace_period, GRACE_PERIOD);
    };

    assert_eq!(registry.get_slices(POOL_ID), Ok(vec![PoolSlice::new(0).unwrap()]));
    assert!(registry.get_repayment_info(POOL_ID).is_empty());
}

#[test]
fn create_pool_uses_the_configured_grace_period() {
    let mut registry = instantiated();
    registry.config.grace_period = Some(86_400);
    registry.create_pool(&mock_info("admin", &[]), create_pool_msg(), true, now()).unwrap();
    assert_eq!(registry.get_credit_line(1).unwrap().grace_period, 86_400);
}

#[test]
fn create_pool_checks_in_order() {
    let check = |registry: &mut PoolRegistry,
                 sender: &str,
                 funds: &[Coin],
                 kyc: bool,
                 msg: CreatePoolMsg,
                 expected: ContractError| {
        let pools = registry.pools.len();
        assert_eq!(
            registry.create_pool(&mock_info(sender, funds), msg, kyc, now()),
            Err(expected)
        );
        assert_eq!(registry.pools.len(), pools);
        assert_eq!(registry.config.pool_id as usize, pools);
    };
    let mut registry = instantiated();
    let ok = create_pool_msg();
    check(&mut registry, "stranger", &coins(5, USDC), false, ok.clone(), ContractError::Unauthorized {});
    check(&mut registry, "borrower", &coins(5, USDC), false, ok.clone(), ContractError::FundsNotAllowed);
    check(&mut registry, "admin", &[], false, ok.clone(), custom("non-KYC user"));
    let mut msg = ok.clone();
    msg.denom = "atom".to_string();
    msg.pool_name = String::new();
    check(&mut registry, "borrower", &[], true, msg, ContractError::DenomNotWhitelisted);
    let mut msg = ok.clone();
    msg.pool_name = String::new();
    msg.borrower_name = String::new();
    check(&mut registry, "borrower", &[], true, msg, custom("Pool name cannot be empty"));
    let mut msg = ok.clone();
    msg.borrower_name = String::new();
    msg.junior_fee_percent = 10001;
    check(&mut registry, "borrower", &[], true, msg, custom("Borrower name cannot be empty"));
    let mut msg = ok.clone();
    msg.junior_fee_percent = 10001;
    msg.borrow_limit = 0;
    check(
        &mut registry,
        "borrower",
        &[],
        true,
        msg,
        custom("junior fee percent cannot be greater than 100%"),
    );
    let mut msg = ok.clone();
    msg.borrow_limit = 0;
    msg.term_length = 0;
    check(&mut registry, "borrower", &[], true, msg, custom("Borrow limit should be non-zero"));
    let mut msg = ok.clone();
    msg.term_length = 0;
    check(&mut registry, "borrower", &[], true, msg, custom("Term length should be non-zero"));
    // a whitelisted currency without a senior pool
    registry.whitelist_token(&mock_info("admin", &[]), "atom".to_string(), 6).unwrap();
    let mut msg = ok.clone();
    msg.denom = "atom".to_string();
    check(&mut registry, "borrower", &[], true, msg, custom("Senior Pool not set for atom"));
    registry.config.pool_id = u64::MAX;
    assert_eq!(
        registry.create_pool(&mock_info("borrower", &[]), ok, true, now()),
        Err(ContractError::Overflow)
    );
}

#[test]
fn pool_ids_count_up_from_one() {
    let mut registry = instantiated();
    for expected in 1..=4u64 {
        let id = registry
            .create_pool(&mock_info("admin", &[]), create_pool_msg(), true, now())
            .unwrap();
        assert_eq!(id, expected);
        assert_eq!(registry.pools[(id - 1) as usize].pool.pool_id, id);
    }
    assert_eq!(registry.get_credit_line(0), Err(ContractError::InvalidPoolId { id: 0 }));
    assert_eq!(registry.get_credit_line(5), Err(ContractError::InvalidPoolId { id: 5 }));
    assert!(registry.get_credit_line(4).is_ok());
}

#[test]
fn test_deposit() {
    let mut registry = with_pool();
    assert!(registry.get_credit_line(1).is_ok());
    assert!(registry.get_slices(1).is_ok());

    let deposit_msg = DepositMsg { amount: 10000000000, pool_id: 1, tranche_id: 0 };
    let info = mock_info("backer1", &coins(10000000000, USDC));
    let response = registry.deposit(&info, &deposit_msg, true).unwrap();

    assert_eq!(
        response,
        InvestorToken {
            token_id: 1,
            pool_id: 1,
            tranche_id: 0,
            lend_info: LendInfo {
                principal_deposited: 10000000000,
                principal_redeemed: 0,
                interest_redeemed: 0,
            },
        }
    );
    assert_eq!(registry.config.token_id, 1);
    let slices = registry.get_slices(1).unwrap();
    assert_eq!(slices[0].junior_tranche.principal_deposited, 10_000_000_000);
    assert_eq!(slices[0].senior_tranche.principal_deposited, 0);
    // no payment yet: the deposit is worth what was deposited
    assert_eq!(slices[0].junior_tranche.principal_share_price, Decimal::one());
    assert_eq!(
        share_price_to_usdc(
            slices[0].junior_tranche.principal_share_price,
            slices[0].junior_tranche.principal_deposited
        ),
        Ok(slices[0].junior_tranche.principal_deposited)
    );
    // the credit line is not touched
    assert_eq!(registry.get_credit_line(1).unwrap().borrow_info.current_limit, 0);
}

#[test]
fn deposits_below_the_minimum_are_for_backers_only() {
    let minimum_error = custom("Minimum deposit amount for non backers is 10000000000");
    let mut registry = with_pool();
    for amount in [MIN_DEPOSIT - 1, 1] {
        let before = registry.get_slices(1).unwrap();
        assert_eq!(
            registry.deposit(
                &mock_info("user1", &coins(amount, USDC)),
                &DepositMsg { pool_id: 1, tranche_id: 0, amount },
                true,
            ),
            Err(minimum_error.clone())
        );
        assert_eq!(registry.get_slices(1).unwrap(), before);
        assert_eq!(registry.config.token_id, 0);
    }
    // the same deposits from a backer of the pool
    let mut registry = instantiated();
    let mut msg = create_pool_msg();
    msg.backers = vec!["friend".to_string(), "user1".to_string()];
    registry.create_pool(&mock_info("borrower", &[]), msg, true, now()).unwrap();
    let first = deposit_junior(&mut registry, "user1", MIN_DEPOSIT - 1);
    let second = deposit_junior(&mut registry, "user1", 1);
    assert_eq!(first.token_id, 1);
    assert_eq!(second.token_id, 2);
    assert_eq!(first.lend_info.principal_deposited, MIN_DEPOSIT - 1);
    assert_eq!(
        registry.get_slices(1).unwrap()[0].junior_tranche.principal_deposited,
        MIN_DEPOSIT
    );
    // who is no backer still needs the minimum
    assert_eq!(
        registry.deposit(
            &mock_info("user2", &coins(1, USDC)),
            &DepositMsg { pool_id: 1, tranche_id: 0, amount: 1 },
            true,
        ),
        Err(minimum_error)
    );
    assert!(registry.pools[0].pool.is_backer(&"friend".to_string()));
    assert!(!registry.pools[0].pool.is_backer(&"user2".to_string()));
}

#[test]
fn deposit_checks_in_order() {
    let mut registry = with_pool();
    let msg = DepositMsg { pool_id: 1, tranche_id: 0, amount: MIN_DEPOSIT };
    let two = vec![
        Coin { denom: USDC.to_string(), amount: MIN_DEPOSIT },
        Coin { denom: "atom".to_string(), amount: 1 },
    ];
    let cases: Vec<(MessageInfo, DepositMsg, bool, ContractError)> = vec![
        (
            mock_info("user1", &coins(MIN_DEPOSIT, USDC)),
            DepositMsg { pool_id: 2, ..msg },
            false,
            ContractError::InvalidPoolId { id: 2 },
        ),
        (mock_info("user1", &[]), msg, false, custom("non-KYC user")),
        (mock_info("user1", &[]), msg, true, ContractError::EmptyFunds),
        (mock_info("user1", &coins(0, USDC)), msg, true, ContractError::EmptyFunds),
        (mock_info("user1", &two), msg, true, ContractError::MultipleTokens),
        (
            mock_info("user1", &coins(MIN_DEPOSIT + 1, "atom")),
            msg,
            true,
            ContractError::FundDiscrepancy { required: MIN_DEPOSIT, sent: MIN_DEPOSIT + 1 },
        ),
        (
            mock_info("user1", &coins(MIN_DEPOSIT, "atom")),
            msg,
            true,
            custom("Incorrect denom for deposit"),
        ),
        (
            mock_info("user1", &coins(MIN_DEPOSIT, USDC)),
            DepositMsg { tranche_id: 2, ..msg },
            true,
            custom("tranche id exceeds range"),
        ),
        (
            mock_info("user1", &coins(MIN_DEPOSIT, USDC)),
            DepositMsg { tranche_id: 1, ..msg },
            true,
            ContractError::NotSeniorPool,
        ),
    ];
    for (info, msg, kyc, expected) in cases {
        let before = registry.get_slices(1).unwrap();
        assert_eq!(registry.deposit(&info, &msg, kyc), Err(expected));
        assert_eq!(registry.get_slices(1).unwrap(), before);
        assert_eq!(registry.config.token_id, 0);
    }
    // the senior pool itself may deposit into the senior tranche
    let token = registry
        .deposit(
            &mock_info("usdc_senior_pool", &coins(MIN_DEPOSIT, USDC)),
            &DepositMsg { tranche_id: 1, ..msg },
            true,
        )
        .unwrap();
    assert_eq!(token.tranche_id, 1);
    assert_eq!(
        registry.get_slices(1).unwrap()[0].senior_tranche.principal_deposited,
        MIN_DEPOSIT
    );
}

#[test]
fn deposit_without_a_senior_pool_for_the_currency() {
    let mut registry = with_pool();
    registry.senior_pools.clear();
    assert_eq!(
        registry.deposit(
            &mock_info("user1", &coins(MIN_DEPOSIT, USDC)),
            &DepositMsg { pool_id: 1, tranche_id: 0, amount: MIN_DEPOSIT },
            true,
        ),
        Err(ContractError::SeniorPoolNotFound { denom: USDC.to_string() })
    );
}

#[test]
fn deposit_into_a_locked_tranche_is_refused() {
    let mut registry = with_pool();
    deposit_junior(&mut registry, "user1", MIN_DEPOSIT);
    registry.lock_junior_capital(&LockJuniorCapitalMsg { pool_id: 1 }, now()).unwrap();
    assert_eq!(
        registry.deposit(
            &mock_info("user1", &coins(MIN_DEPOSIT, USDC)),
            &DepositMsg { pool_id: 1, tranche_id: 0, amount: MIN_DEPOSIT },
            true,
        ),
        Err(custom("Tranche is locked"))
    );
    // the senior tranche still takes the deposit of the senior pool
    assert!(registry
        .deposit(
            &mock_info("usdc_senior_pool", &coins(MIN_DEPOSIT, USDC)),
            &DepositMsg { pool_id: 1, tranche_id: 1, amount: MIN_DEPOSIT },
            true,
        )
        .is_ok());
}

#[test]
fn deposit_that_overflows_the_tranche() {
    let mut registry = with_pool();
    registry.pools[0].slices[0].junior_tranche.principal_deposited = u128::MAX - MIN_DEPOSIT + 1;
    assert_eq!(
        registry.deposit(
            &mock_info("user1", &coins(MIN_DEPOSIT, USDC)),
            &DepositMsg { pool_id: 1, tranche_id: 0, amount: MIN_DEPOSIT },
            true,
        ),
        Err(ContractError::Overflow)
    );
}

#[test]
fn lock_junior_then_lock_pool() {
    let mut registry = with_pool();
    deposit_junior(&mut registry, "user1", MIN_DEPOSIT);
    registry
        .deposit(
            &mock_info("usdc_senior_pool", &coins(4 * MIN_DEPOSIT, USDC)),
            &DepositMsg { pool_id: 1, tranche_id: 1, amount: 4 * MIN_DEPOSIT },
            true,
        )
        .unwrap();
    let borrower = mock_info("borrower", &[]);
    // the pool cannot be locked before its junior capital
    assert_eq!(
        registry.lock_pool(&borrower, &LockPoolMsg { pool_id: 1 }, now()),
        Err(custom("Junior tranche not locked"))
    );
    assert_eq!(
        registry.lock_junior_capital(&LockJuniorCapitalMsg { pool_id: 1 }, now()),
        Ok(Some(MIN_DEPOSIT))
    );
    let until = Timestamp::from_nanos(T0 + DRAWDOWN_PERIOD * NANOS);
    let slices = registry.get_slices(1).unwrap();
    assert_eq!(slices[0].junior_tranche.locked_until, until);
    assert_eq!(slices[0].senior_tranche.locked_until, Timestamp::default());
    assert!(!slices[0].is_locked());
    assert_eq!(registry.get_credit_line(1).unwrap().borrow_info.current_limit, 0);
    // locking the junior capital again does nothing
    assert_eq!(
        registry.lock_junior_capital(&LockJuniorCapitalMsg { pool_id: 1 }, after_start(1)),
        Ok(None)
    );
    assert_eq!(registry.get_slices(1).unwrap(), slices);

    let later = Timestamp::from_nanos(T0 + 5 * NANOS);
    assert_eq!(
        registry.lock_pool(&mock_info("user1", &[]), &LockPoolMsg { pool_id: 1 }, later),
        Err(ContractError::Unauthorized {})
    );
    assert_eq!(
        registry.lock_pool(&borrower, &LockPoolMsg { pool_id: 1 }, later),
        Ok(Some(LockedPool {
            junior_tranche: 0,
            senior_tranche: 1,
            amount_locked: 5 * MIN_DEPOSIT,
        }))
    );
    let line = registry.get_credit_line(1).unwrap();
    assert_eq!(line.borrow_info.current_limit, 5 * MIN_DEPOSIT);
    let slices = registry.get_slices(1).unwrap();
    let locked_until = Timestamp::from_nanos(T0 + (5 + DRAWDOWN_PERIOD) * NANOS);
    assert_eq!(slices[0].senior_tranche.locked_until, locked_until);
    assert_eq!(slices[0].junior_tranche.locked_until, locked_until);
    assert!(slices[0].is_locked());
    assert_eq!(
        registry.lock_pool(&borrower, &LockPoolMsg { pool_id: 1 }, later),
        Err(custom("Senior tranche already locked"))
    );
    assert_eq!(
        registry.lock_junior_capital(&LockJuniorCapitalMsg { pool_id: 1 }, later),
        Ok(None)
    );
}

#[test]
fn lock_pool_caps_the_limit_at_the_maximum() {
    let mut registry = instantiated();
    let mut msg = create_pool_msg();
    msg.borrow_limit = 1_000_000_000;
    registry.create_pool(&mock_info("borrower", &[]), msg, true, now()).unwrap();
    deposit_junior(&mut registry, "user1", MIN_DEPOSIT);
    registry.lock_junior_capital(&LockJuniorCapitalMsg { pool_id: 1 }, now()).unwrap();
    registry.lock_pool(&mock_info("borrower", &[]), &LockPoolMsg { pool_id: 1 }, now()).unwrap();
    let line = registry.get_credit_line(1).unwrap();
    assert_eq!(line.borrow_info.current_limit, 1_000_000_000);
    assert_eq!(line.borrow_info.borrow_limit, 1_000_000_000);
}

#[test]
fn test_drawdown_soon_after_pool_creation() {
    let mut registry = with_pool();
    assert!(registry.get_credit_line(1).is_ok());

    let drawdown_msg = DrawdownMsg { amount: 1000, pool_id: 1 };
    let info = mock_info("borrower", &[]);
    let response = registry.drawdown(&info, &drawdown_msg, true, now()).unwrap_err();
    match response {
        ContractError::CustomError { msg } if msg == "Pool not locked".to_string() => {}
        e => panic!("Unexepected error: {:?}", e),
    }
}

#[test]
fn test_drawdown() {
    let mut registry = instantiated();
    registry.whitelist_token(&mock_info("admin", &[]), USDC.to_string(), 6).unwrap();

    // Create Pool
    let info = mock_info("borrower", &[]);
    registry.create_pool(&info, create_pool_msg(), true, now()).unwrap();

    // Deposit
    let info = mock_info("user1", &coins(MIN_DEPOSIT, USDC));
    let deposit_msg = DepositMsg { pool_id: 1, tranche_id: 0, amount: info.funds[0].amount };
    registry.deposit(&info, &deposit_msg, true).unwrap();

    // Lock junior capital
    let lock_junior_capital_msg = LockJuniorCapitalMsg { pool_id: 1 };
    registry.lock_junior_capital(&lock_junior_capital_msg, now()).unwrap();

    // Lock Pool
    let info = mock_info("borrower", &[]);
    let lock_pool_msg = LockPoolMsg { pool_id: 1 };
    registry.lock_pool(&info, &lock_pool_msg, now()).unwrap();

    let slices = registry.get_slices(1).unwrap();
    assert_eq!(slices[0].junior_tranche.principal_deposited, MIN_DEPOSIT);
    assert_eq!(
        share_price_to_usdc(
            slices[0].junior_tranche.principal_share_price,
            slices[0].junior_tranche.principal_deposited
        )
        .unwrap(),
        slices[0].junior_tranche.principal_deposited,
        "Junior Tranche calc error"
    );

    assert_eq!(
        share_price_to_usdc(
            slices[0].senior_tranche.principal_share_price,
            slices[0].senior_tranche.principal_deposited
        )
        .unwrap(),
        slices[0].senior_tranche.principal_deposited,
        "Senior Tranche calc error"
    );

    // Drawdown
    let drawdown_msg = DrawdownMsg { amount: 10000, pool_id: 1 };
    let info = mock_info("borrower", &[]);
    registry.drawdown(&info, &drawdown_msg, true, now()).unwrap();

    let line = registry.get_credit_line(1).unwrap();
    assert_eq!(line.term_start, Timestamp::from_nanos(TERM_START));
    assert_eq!(line.borrow_info.borrowed_amount, 10_000);
    assert_eq!(line.borrow_info.total_borrowed, 10_000);
    let slices = registry.get_slices(1).unwrap();
    assert_eq!(slices[0].principal_deployed, 10_000);
    assert_eq!(
        slices[0].junior_tranche.principal_share_price,
        Decimal::new(999_999_000_000_000_000)
    );
}

#[test]
fn drawdown_against_a_used_up_limit() {
    let mut registry = instantiated();
    let mut msg = create_pool_msg();
    msg.borrow_limit = 10_000;
    registry.create_pool(&mock_info("borrower", &[]), msg, true, now()).unwrap();
    deposit_junior(&mut registry, "user1", MIN_DEPOSIT);
    registry.lock_junior_capital(&LockJuniorCapitalMsg { pool_id: 1 }, now()).unwrap();
    registry.lock_pool(&mock_info("borrower", &[]), &LockPoolMsg { pool_id: 1 }, now()).unwrap();
    assert_eq!(registry.get_credit_line(1).unwrap().borrow_info.current_limit, 10_000);
    let borrower = mock_info("borrower", &[]);
    registry.drawdown(&borrower, &DrawdownMsg { pool_id: 1, amount: 10_000 }, true, now()).unwrap();
    let line = registry.get_credit_line(1).unwrap();
    assert_eq!(line.term_start, Timestamp::from_nanos(TERM_START));
    assert_eq!(line.borrow_info.borrowed_amount, 10_000);
    let slices = registry.get_slices(1).unwrap();
    assert_eq!(
        registry.drawdown(&borrower, &DrawdownMsg { pool_id: 1, amount: 1 }, true, now()),
        Err(ContractError::DrawdownExceedsLimit { limit: 10_000 })
    );
    assert_eq!(registry.get_credit_line(1).unwrap(), line);
    assert_eq!(registry.get_slices(1).unwrap(), slices);
}

#[test]
fn drawdown_lowers_the_principal_share_price() {
    let registry = drawn_pool();
    let slices = registry.get_slices(1).unwrap();
    assert_eq!(slices[0].principal_deployed, 5_000_000_000);
    assert_eq!(slices[0].junior_tranche.principal_share_price, Decimal::new(E18 / 2));
    assert_eq!(slices[0].junior_tranche.interest_share_price, Decimal::zero());
    // the empty senior tranche holds no part of what is left
    assert_eq!(slices[0].senior_tranche.principal_share_price, Decimal::zero());
    let line = registry.get_credit_line(1).unwrap();
    assert_eq!(line.borrow_info.borrowed_amount, 5_000_000_000);
    assert_eq!(line.borrow_info.current_limit, MIN_DEPOSIT);
    assert_eq!(line.last_full_payment, now());
}

#[test]
fn drawdown_checks_in_order() {
    let mut registry = locked_pool();
    let msg = DrawdownMsg { pool_id: 1, amount: 1_000 };
    registry.paused = true;
    let cases: Vec<(MessageInfo, DrawdownMsg, bool, ContractError)> = vec![
        (
            mock_info("user1", &coins(1, USDC)),
            DrawdownMsg { pool_id: 9, ..msg },
            false,
            ContractError::InvalidPoolId { id: 9 },
        ),
        (mock_info("user1", &coins(1, USDC)), msg, false, ContractError::FundsNotAllowed),
        (mock_info("user1", &[]), msg, false, custom("Drawdowns have been paused")),
    ];
    for (info, msg, kyc, expected) in cases {
        assert_eq!(registry.drawdown(&info, &msg, kyc, now()), Err(expected));
    }
    registry.paused = false;
    assert_eq!(
        registry.drawdown(&mock_info("user1", &[]), &msg, false, now()),
        Err(custom("non-KYC user"))
    );
    assert_eq!(
        registry.drawdown(&mock_info("user1", &[]), &msg, true, now()),
        Err(ContractError::Unauthorized {})
    );
    assert_eq!(
        registry.drawdown(
            &mock_info("borrower", &[]),
            &DrawdownMsg { pool_id: 1, amount: MIN_DEPOSIT + 1 },
            true,
            now()
        ),
        Err(ContractError::DrawdownExceedsLimit { limit: MIN_DEPOSIT })
    );
    registry.pools[0].slices.clear();
    assert_eq!(
        registry.drawdown(&mock_info("borrower", &[]), &msg, true, now()),
        Err(custom("Tranches not initialized"))
    );
}

#[test]
fn repay_exactly_what_is_owed_through_the_pool() {
    let mut registry = drawn_pool();
    let at = after_start(45);
    let outcome = repay(&mut registry, 46_051_200, at);
    assert_eq!(
        outcome.repayment,
        RepaymentInfo {
            timestamp: at,
            principal_repaid: 0,
            interest_repaid: 46_051_200,
            principal_pending: 0,
            interest_pending: 0,
            excess_amount: 0,
        }
    );
    assert_eq!(
        outcome.allocation,
        Some(RepaymentAllocation {
            interest_to_slices: 41_446_080,
            principal_to_slices: 0,
            reserve_deduction: 4_605_120,
        })
    );
    let line = registry.get_credit_line(1).unwrap();
    assert_eq!(line.last_full_payment, at);
    assert_eq!(line.borrow_info.interest_repaid, 46_051_200);
    let slices = registry.get_slices(1).unwrap();
    assert_eq!(slices[0].total_interest_accrued, 46_051_200);
    assert_eq!(
        slices[0].junior_tranche.interest_share_price,
        Decimal::new(4_144_608_000_000_000)
    );
    assert_eq!(slices[0].junior_tranche.principal_share_price, Decimal::new(E18 / 2));
    assert_eq!(registry.get_repayment_info(1), vec![outcome.repayment]);
}

#[test]
fn repay_less_than_interest_owed_through_the_pool() {
    let mut registry = drawn_pool();
    let outcome = repay(&mut registry, 1_000_000, after_start(45));
    assert_eq!(outcome.repayment.interest_repaid, 1_000_000);
    assert_eq!(outcome.repayment.interest_pending, 45_051_200);
    assert_eq!(outcome.repayment.principal_repaid, 0);
    assert_eq!(
        outcome.allocation,
        Some(RepaymentAllocation {
            interest_to_slices: 900_000,
            principal_to_slices: 0,
            reserve_deduction: 100_000,
        })
    );
    // the slice is credited with everything that had accrued
    assert_eq!(registry.get_slices(1).unwrap()[0].total_interest_accrued, 46_051_200);
    assert_eq!(registry.get_credit_line(1).unwrap().last_full_payment, now());
}

#[test]
fn repay_with_principal_and_excess() {
    let mut registry = drawn_pool();
    let before = registry.get_slices(1).unwrap();
    let at = after_start(121);
    let outcome = repay(&mut registry, 1_000_000_000, at);
    let paid = outcome.repayment;
    assert_eq!(paid.interest_repaid, 190_512_000);
    assert_eq!(paid.principal_repaid, 416_666_666);
    assert_eq!(paid.excess_amount, 1_000_000_000 - 190_512_000 - 416_666_666);
    let allocation = outcome.allocation.unwrap();
    assert_eq!(
        allocation.interest_to_slices + allocation.principal_to_slices
            + allocation.reserve_deduction,
        paid.interest_repaid + paid.principal_repaid
    );
    assert_eq!(allocation.reserve_deduction, 19_051_200 + 41_666_666);
    let after = registry.get_slices(1).unwrap();
    assert!(
        after[0].junior_tranche.interest_share_price
            > before[0].junior_tranche.interest_share_price
    );
    assert!(
        after[0].junior_tranche.principal_share_price
            >= before[0].junior_tranche.principal_share_price
    );
    let line = registry.get_credit_line(1).unwrap();
    assert!(line.borrow_info.borrowed_amount <= line.borrow_info.current_limit);
    assert!(line.borrow_info.current_limit <= line.borrow_info.borrow_limit);
}

#[test]
fn repayment_history_grows_in_order() {
    let mut registry = drawn_pool();
    let first = repay(&mut registry, 1_000, after_start(45)).repayment;
    let second = repay(&mut registry, 2_000, after_start(46)).repayment;
    assert_eq!(registry.get_repayment_info(1), vec![first, second]);
    assert!(registry.get_repayment_info(2).is_empty());
}

#[test]
fn repay_checks_in_order() {
    let mut registry = drawn_pool();
    let msg = RepayMsg { pool_id: 1, amount: 1_000 };
    let at = after_start(45);
    let two = vec![
        Coin { denom: USDC.to_string(), amount: 1_000 },
        Coin { denom: "atom".to_string(), amount: 1 },
    ];
    let cases: Vec<(MessageInfo, RepayMsg, bool, ContractError)> = vec![
        (
            mock_info("borrower", &coins(1_000, USDC)),
            RepayMsg { pool_id: 0, ..msg },
            true,
            ContractError::InvalidPoolId { id: 0 },
        ),
        (mock_info("user1", &[]), msg, false, custom("non-KYC user")),
        (mock_info("user1", &[]), msg, true, ContractError::EmptyFunds),
        (mock_info("user1", &coins(0, USDC)), msg, true, ContractError::EmptyFunds),
        (
            mock_info("user1", &coins(5, USDC)),
            RepayMsg { amount: 0, ..msg },
            true,
            ContractError::EmptyFunds,
        ),
        (mock_info("user1", &two), msg, true, ContractError::MultipleTokens),
        (
            mock_info("user1", &coins(999, "atom")),
            msg,
            true,
            ContractError::FundDiscrepancy { required: 1_000, sent: 999 },
        ),
        (
            mock_info("user1", &coins(1_000, "atom")),
            msg,
            true,
            custom("Incorrect denom used for repayment"),
        ),
        (mock_info("user1", &coins(1_000, USDC)), msg, true, ContractError::Unauthorized {}),
    ];
    for (info, msg, kyc, expected) in cases {
        let line = registry.get_credit_line(1).unwrap();
        let slices = registry.get_slices(1).unwrap();
        assert_eq!(registry.repay(&info, &msg, kyc, at), Err(expected));
        assert_eq!(registry.get_credit_line(1).unwrap(), line);
        assert_eq!(registry.get_slices(1).unwrap(), slices);
        assert!(registry.get_repayment_info(1).is_empty());
    }
    let mut undrawn = locked_pool();
    assert_eq!(
        undrawn.repay(&mock_info("borrower", &coins(1_000, USDC)), &msg, true, at),
        Err(custom("Repayment not allowed when not borrowed"))
    );
}

#[test]
fn withdraw_after_the_lock_redeems_interest_first() {
    let mut registry = drawn_pool();
    repay(&mut registry, 46_051_200, after_start(45));
    let token = InvestorToken {
        token_id: 1,
        pool_id: 1,
        tranche_id: 0,
        lend_info: LendInfo {
            principal_deposited: MIN_DEPOSIT,
            principal_redeemed: 0,
            interest_redeemed: 0,
        },
    };
    let owner = "user1".to_string();
    let info = mock_info("user1", &[]);
    let slices = registry.get_slices(1).unwrap();
    // no amount named: everything that can be redeemed
    assert_eq!(
        registry.withdraw(&token, &owner, &info, &WithdrawMsg { token_id: 1, amount: None }, after_start(45)),
        Ok(Withdrawal {
            token_id: 1,
            interest_withdrawn: 41_446_080,
            principal_withdrawn: 5_000_000_000,
            kind: WithdrawalKind::Redemption,
        })
    );
    assert_eq!(
        registry.withdraw(
            &token,
            &owner,
            &info,
            &WithdrawMsg { token_id: 1, amount: Some(41_446_081) },
            after_start(45)
        ),
        Ok(Withdrawal {
            token_id: 1,
            interest_withdrawn: 41_446_080,
            principal_withdrawn: 1,
            kind: WithdrawalKind::Redemption,
        })
    );
    assert_eq!(
        registry.withdraw(
            &token,
            &owner,
            &info,
            &WithdrawMsg { token_id: 1, amount: Some(1_000) },
            after_start(45)
        ),
        Ok(Withdrawal {
            token_id: 1,
            interest_withdrawn: 1_000,
            principal_withdrawn: 0,
            kind: WithdrawalKind::Redemption,
        })
    );
    // a redemption leaves the slices as they are
    assert_eq!(registry.get_slices(1).unwrap(), slices);
    assert_eq!(
        registry.withdraw(
            &token,
            &owner,
            &info,
            &WithdrawMsg { token_id: 1, amount: Some(5_041_446_081) },
            after_start(45)
        ),
        Err(custom("Redemption amount exceeds redeemable"))
    );
    assert_eq!(
        registry.withdraw(
            &token,
            &owner,
            &mock_info("user2", &[]),
            &WithdrawMsg { token_id: 1, amount: None },
            after_start(45)
        ),
        Err(ContractError::Unauthorized {})
    );
    // the lock lasts until the end of the drawdown period, that moment included
    assert_eq!(
        registry.withdraw(&token, &owner, &info, &WithdrawMsg { token_id: 1, amount: None }, after_start(0)),
        Err(ContractError::LockedPoolWithdrawal)
    );
    let other_pool = InvestorToken { pool_id: 7, ..token };
    assert_eq!(
        registry.withdraw(&other_pool, &owner, &info, &WithdrawMsg { token_id: 1, amount: None }, after_start(45)),
        Err(ContractError::InvalidPoolId { id: 7 })
    );
}

#[test]
fn withdraw_before_any_lock_takes_principal_back() {
    let mut registry = with_pool();
    let token = deposit_junior(&mut registry, "user1", MIN_DEPOSIT);
    let owner = "user1".to_string();
    let info = mock_info("user1", &[]);
    assert_eq!(
        registry.withdraw(
            &token,
            &owner,
            &info,
            &WithdrawMsg { token_id: 1, amount: Some(4_000_000_000) },
            now()
        ),
        Ok(Withdrawal {
            token_id: 1,
            interest_withdrawn: 0,
            principal_withdrawn: 4_000_000_000,
            kind: WithdrawalKind::Principal,
        })
    );
    assert_eq!(
        registry.get_slices(1).unwrap()[0].junior_tranche.principal_deposited,
        6_000_000_000
    );
    // without an amount the withdrawal asks for more than the tranche holds
    assert_eq!(
        registry.withdraw(&token, &owner, &info, &WithdrawMsg { token_id: 1, amount: None }, now()),
        Err(ContractError::Underflow)
    );
    assert_eq!(
        registry.get_slices(1).unwrap()[0].junior_tranche.principal_deposited,
        6_000_000_000
    );
}

#[test]
fn withdraw_all_redeems_every_token_of_the_pool() {
    let mut registry = instantiated();
    let mut msg = create_pool_msg();
    msg.backers = vec!["user1".to_string()];
    registry.create_pool(&mock_info("borrower", &[]), msg, true, now()).unwrap();
    registry.create_pool(&mock_info("borrower", &[]), create_pool_msg(), true, now()).unwrap();
    let first = deposit_junior(&mut registry, "user1", 6_000_000_000);
    let second = deposit_junior(&mut registry, "user1", 4_000_000_000);
    registry.lock_junior_capital(&LockJuniorCapitalMsg { pool_id: 1 }, now()).unwrap();
    registry.lock_pool(&mock_info("borrower", &[]), &LockPoolMsg { pool_id: 1 }, now()).unwrap();
    registry
        .drawdown(
            &mock_info("borrower", &[]),
            &DrawdownMsg { pool_id: 1, amount: 5_000_000_000 },
            true,
            now(),
        )
        .unwrap();
    repay(&mut registry, 46_051_200, after_start(45));
    let elsewhere = InvestorToken { token_id: 9, pool_id: 2, ..first };
    let tokens = vec![first, elsewhere, second];
    let slices = registry.get_slices(1).unwrap();
    assert_eq!(
        registry.withdraw_all(1, &tokens, after_start(45)),
        Ok(vec![
            Withdrawal {
                token_id: 1,
                interest_withdrawn: 24_867_648,
                principal_withdrawn: 3_000_000_000,
                kind: WithdrawalKind::Redemption,
            },
            Withdrawal {
                token_id: 2,
                interest_withdrawn: 16_578_432,
                principal_withdrawn: 2_000_000_000,
                kind: WithdrawalKind::Redemption,
            },
        ])
    );
    assert_eq!(registry.get_slices(1).unwrap(), slices);
    assert_eq!(
        registry.withdraw_all(1, &tokens, after_start(0)),
        Err(ContractError::LockedPoolWithdrawal)
    );
    assert_eq!(registry.withdraw_all(3, &tokens, after_start(45)), Err(ContractError::InvalidPoolId { id: 3 }));
    assert_eq!(registry.withdraw_all(1, &[elsewhere].to_vec(), after_start(45)), Ok(vec![]));
}

#[test]
fn settings_are_for_the_admin() {
    let mut registry = instantiated();
    let stranger = mock_info("borrower", &[]);
    let admin = mock_info("admin", &[]);
    assert_eq!(
        registry.whitelist_token(&stranger, "atom".to_string(), 6),
        Err(ContractError::Unauthorized {})
    );
    assert_eq!(
        registry.set_kyc_contract(&stranger, "other".to_string()),
        Err(ContractError::Unauthorized {})
    );
    assert_eq!(
        registry.set_senior_pool(&stranger, "atom".to_string(), "pool".to_string()),
        Err(ContractError::Unauthorized {})
    );
    assert_eq!(registry.token_unit(&"atom".to_string()), None);
    assert_eq!(registry.kyc_contract, "kyc_contract");
    assert_eq!(registry.senior_pool(&"atom".to_string()), None);

    assert_eq!(registry.whitelist_token(&admin, "atom".to_string(), 6), Ok(()));
    assert_eq!(registry.token_unit(&"atom".to_string()), Some(1_000_000));
    assert_eq!(registry.whitelist_token(&admin, "atom".to_string(), 8), Ok(()));
    assert_eq!(registry.token_unit(&"atom".to_string()), Some(100_000_000));
    assert_eq!(registry.token_unit(&USDC.to_string()), Some(1_000_000));
    assert_eq!(registry.whitelisted_tokens.len(), 2);
    assert_eq!(
        registry.whitelist_token(&admin, "atom".to_string(), 10),
        Err(ContractError::Overflow)
    );
    assert_eq!(registry.token_unit(&"atom".to_string()), Some(100_000_000));

    assert_eq!(registry.set_kyc_contract(&admin, "other".to_string()), Ok(()));
    assert_eq!(registry.kyc_contract, "other");

    assert_eq!(
        registry.set_senior_pool(&admin, "atom".to_string(), "atom_pool".to_string()),
        Ok(())
    );
    assert_eq!(
        registry.set_senior_pool(&admin, USDC.to_string(), "new_usdc_pool".to_string()),
        Ok(())
    );
    assert_eq!(registry.senior_pool(&"atom".to_string()), Some("atom_pool".to_string()));
    assert_eq!(registry.senior_pool(&USDC.to_string()), Some("new_usdc_pool".to_string()));
    assert_eq!(registry.senior_pools.len(), 2);
}

#[test]
fn a_pool_has_at_most_five_slices() {
    let mut registry = locked_pool();
    for slice in 1..5u64 {
        assert_eq!(registry.initialize_next_slice(1), Ok(()));
        let slices = registry.get_slices(1).unwrap();
        assert_eq!(slices.len() as u64, slice + 1);
        assert_eq!(slices[slice as usize], PoolSlice::new(slice).unwrap());
        // the new slice is open: no other can follow it yet
        if slice < 4 {
            assert_eq!(
                registry.initialize_next_slice(1),
                Err(custom("All previous slices should be locked"))
            );
        }
        registry.lock_junior_capital(&LockJuniorCapitalMsg { pool_id: 1 }, now()).unwrap();
        registry.lock_pool(&mock_info("borrower", &[]), &LockPoolMsg { pool_id: 1 }, now()).unwrap();
    }
    assert_eq!(registry.initialize_next_slice(1), Err(ContractError::MaxSliceLimit));
    assert_eq!(registry.initialize_next_slice(2), Err(ContractError::InvalidPoolId { id: 2 }));
    assert_eq!(registry.get_slices(1).unwrap().len(), 5);
}
