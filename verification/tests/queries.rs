use tranche_pool::contract::MIN_DEPOSIT;
use tranche_pool::error::ContractError;
use tranche_pool::math::Decimal;
use tranche_pool::msg::{
    Asset, Coin, CreatePoolMsg, DepositMsg, DrawdownMsg, InstantiateMsg, LockJuniorCapitalMsg,
    LockPoolMsg, MessageInfo, RepayMsg,
};
use tranche_pool::query::{
    apr_in_percent, get_investments, get_pool_info, page, pool_response, pool_value_locked,
    total_pool_deposit, total_value_locked,
};
use tranche_pool::registry::PoolRegistry;
use tranche_pool::state::{
    CreditLine, InvestorToken, LendInfo, PaymentFrequency, PoolSlice, PoolType, TranchePool,
};
use tranche_pool::timestamp::Timestamp;

const USDC: &str = "usdc";
const T0: u64 = 1_571_797_419_879_305_533;
const DAY: u64 = 86_400;
const NANOS: u64 = 1_000_000_000;
const TERM_START: u64 = T0 + 1_209_600 * NANOS;

fn now() -> Timestamp {
    Timestamp::from_nanos(T0)
}

fn after_start(days: u64) -> Timestamp {
    Timestamp::from_nanos(TERM_START + days * DAY * NANOS)
}

fn info(sender: &str, amount: u128) -> MessageInfo {
    let funds = if amount == 0 {
        vec![]
    } else {
        vec![Coin { denom: USDC.to_string(), amount }]
    };
    MessageInfo { sender: sender.to_string(), funds }
}

fn create_pool_msg(name: &str, apr: u16) -> CreatePoolMsg {
    CreatePoolMsg {
        pool_name: name.to_string(),
        borrower: "borrower".to_string(),
        borrower_name: "Borrower 1".to_string(),
        uid_token: 0,
        interest_apr: apr,
        junior_fee_percent: 2000,
        late_fee_apr: 1000,
        borrow_limit: 1_000_000_000_000,
        interest_frequency: PaymentFrequency::Monthly,
        principal_frequency: PaymentFrequency::Monthly,
        principal_grace_period: 7_776_000,
        drawdown_period: 1_209_600,
        term_length: 31_536_000,
        denom: USDC.to_string(),
        backers: vec![],
        pool_type: PoolType::Junior,
    }
}

fn registry_with_pools(count: u64) -> PoolRegistry {
    let msg = InstantiateMsg {
        admin: "admin".to_string(),
        code_id: 15,
        reserves_fee: 1000,
        reserves_addr: "reserves".to_string(),
        kyc_addr: "kyc_contract".to_string(),
        denom: USDC.to_string(),
        decimals: 6,
    };
    let mut registry = PoolRegistry::new(&info("admin", 0), &msg).unwrap();
    registry
        .set_senior_pool(&info("admin", 0), USDC.to_string(), "usdc_senior_pool".to_string())
        .unwrap();
    for i in 0..count {
        let name = format!("Pool {}", i + 1);
        registry
            .create_pool(&info("borrower", 0), create_pool_msg(&name, 500 + i as u16), true, now())
            .unwrap();
    }
    registry
}

/// Pool 1 funded with the minimum, locked at T0, with half of it drawn.
fn drawn_registry() -> PoolRegistry {
    let mut registry = registry_with_pools(2);
    registry
        .deposit(
            &info("user1", MIN_DEPOSIT),
            &DepositMsg { pool_id: 1, tranche_id: 0, amount: MIN_DEPOSIT },
            true,
        )
        .unwrap();
    registry.lock_junior_capital(&LockJuniorCapitalMsg { pool_id: 1 }, now()).unwrap();
    registry.lock_pool(&info("borrower", 0), &LockPoolMsg { pool_id: 1 }, now()).unwrap();
    registry
        .drawdown(
            &info("borrower", 0),
            &DrawdownMsg { pool_id: 1, amount: 5_000_000_000 },
            true,
            now(),
        )
        .unwrap();
    registry
}

fn assets() -> Vec<Asset> {
    vec![
        Asset { name: "Atom".to_string(), denom: "atom".to_string(), decimal: 6, uri: None },
        Asset {
            name: "USD Coin".to_string(),
            denom: USDC.to_string(),
            decimal: 6,
            uri: Some("https://example.com/usdc".to_string()),
        },
        Asset { name: "Other".to_string(), denom: USDC.to_string(), decimal: 8, uri: None },
    ]
}

#[test]
fn apr_is_reported_in_percent() {
    assert_eq!(apr_in_percent(1250), Decimal::new(12_500_000_000_000_000_000));
    assert_eq!(apr_in_percent(500), Decimal::new(5_000_000_000_000_000_000));
    assert_eq!(apr_in_percent(0), Decimal::zero());
    assert_eq!(apr_in_percent(1).atomics(), 10_000_000_000_000_000);
}

#[test]
fn pool_info_of_a_new_pool() {
    let registry = registry_with_pools(1);
    let described = registry.get_pool_info(1, &assets(), now()).unwrap();
    assert_eq!(described.pool_id, 1);
    assert_eq!(described.pool_name, "Pool 1");
    assert_eq!(described.borrower_name, "Borrower 1");
    assert_eq!(described.borrower, "borrower");
    assert_eq!(described.assets, 0);
    assert_eq!(described.asset_info, Some(assets()[1].clone()));
    assert_eq!(described.apr, Decimal::new(5_000_000_000_000_000_000));
    assert_eq!(described.pool_type, PoolType::Junior);
    assert_eq!(described.status, "Open");
    assert_eq!(described.invested, 0);
    assert_eq!(described.drawn, 0);
    assert_eq!(described.available_to_draw, 0);
    assert_eq!(described.interest_paid, 0);
    assert_eq!(described.interest_accrued, 0);
    assert_eq!(described.interest_pending, 0);
    assert_eq!(described.tranche_id, "0");
    assert_eq!(described.borrow_limit, 1_000_000_000_000);
    assert!(!described.junior_capital_locked);
    assert!(!described.pool_locked);
    assert_eq!(registry.get_pool_info(2, &assets(), now()), None);
    assert_eq!(registry.get_pool_info(0, &assets(), now()), None);
}

#[test]
fn pool_info_of_a_drawn_pool() {
    let mut registry = drawn_registry();
    let during_lock = Timestamp::from_nanos(T0 + NANOS);
    let described = registry.get_pool_info(1, &[].to_vec(), during_lock).unwrap();
    assert_eq!(described.asset_info, None);
    assert_eq!(described.assets, 5_000_000_000);
    assert_eq!(described.drawn, 5_000_000_000);
    assert_eq!(described.invested, MIN_DEPOSIT);
    assert_eq!(described.available_to_draw, 5_000_000_000);
    assert_eq!(described.tranche_id, "");
    assert!(described.junior_capital_locked);
    assert!(described.pool_locked);
    assert_eq!(described.interest_accrued, 0);
    assert_eq!(described.interest_pending, 0);

    // after the lock nothing is available, and interest has accrued
    let described = registry.get_pool_info(1, &assets(), after_start(45)).unwrap();
    assert!(!described.pool_locked);
    assert!(described.junior_capital_locked);
    assert_eq!(described.available_to_draw, 0);
    assert_eq!(described.interest_accrued, 46_051_200);
    // no date on which both interest and principal fell due yet
    assert_eq!(described.interest_pending, 0);
    // interest owed as of the last due date, 120 days into the term
    let described = registry.get_pool_info(1, &assets(), after_start(121)).unwrap();
    assert_eq!(described.interest_accrued, 190_512_000);
    assert_eq!(described.interest_pending, 190_512_000 - (7 + 15) * 86_400);

    registry
        .repay(
            &info("borrower", 1_000_000),
            &RepayMsg { pool_id: 1, amount: 1_000_000 },
            true,
            after_start(45),
        )
        .unwrap();
    let described = registry.get_pool_info(1, &assets(), after_start(45)).unwrap();
    assert_eq!(described.interest_paid, 1_000_000);
}

#[test]
fn pool_info_from_records() {
    let pool = TranchePool::new(
        3,
        "Three".to_string(),
        "borrower".to_string(),
        "B".to_string(),
        USDC.to_string(),
        vec![],
        PoolType::Undefined,
        now(),
    );
    let line = CreditLine::new(
        77,
        31_536_000,
        0,
        0,
        0,
        1250,
        0,
        0,
        PaymentFrequency::Annually,
        PaymentFrequency::Annually,
        now(),
    );
    let mut second = PoolSlice::new(1).unwrap();
    second.junior_tranche.principal_deposited = 5;
    second.senior_tranche.principal_deposited = 7;
    let mut first = PoolSlice::new(0).unwrap();
    first.junior_tranche.principal_deposited = 100;
    let described = get_pool_info(&pool, &line, &vec![first, second], &assets(), now());
    assert_eq!(described.pool_id, 3);
    assert_eq!(described.invested, 112);
    assert_eq!(described.tranche_id, "2");
    assert_eq!(described.apr, Decimal::new(12_500_000_000_000_000_000));
    assert_eq!(described.asset_info.unwrap().name, "USD Coin");
    assert_eq!(described.pool_type, PoolType::Undefined);
    assert_eq!(described.borrow_limit, 77);
    let listed = pool_response(&pool, &line, 1_000_000);
    assert_eq!(listed.pool_id, 3);
    assert_eq!(listed.pool_name, "Three");
    assert_eq!(listed.borrower, "borrower");
    assert_eq!(listed.borrower_name, "B");
    assert_eq!(listed.denom, USDC);
    assert_eq!(listed.decimals, 1_000_000);
    assert_eq!(listed.status, "OPEN");
    assert_eq!(listed.apr, Decimal::new(12_500_000_000_000_000_000));
}

#[test]
fn pages_of_the_list_of_pools() {
    assert_eq!(page(None, None), Ok((1, 51)));
    assert_eq!(page(Some(7), Some(3)), Ok((7, 10)));
    assert_eq!(page(Some(7), Some(99)), Ok((7, 106)));
    assert_eq!(page(Some(7), Some(255)), Ok((7, 106)));
    assert_eq!(page(Some(0), Some(0)), Ok((0, 0)));
    assert_eq!(page(Some(u64::MAX - 50), None), Ok((u64::MAX - 50, u64::MAX)));
    assert_eq!(page(Some(u64::MAX - 49), None), Err(ContractError::Overflow));
}

#[test]
fn all_pools_are_listed_page_by_page() {
    let registry = registry_with_pools(5);
    let ids = |start, limit| -> Vec<u64> {
        registry.get_all_pools(start, limit).unwrap().iter().map(|p| p.pool_id).collect()
    };
    assert_eq!(ids(None, None), vec![1, 2, 3, 4, 5]);
    assert_eq!(ids(Some(2), Some(2)), vec![2, 3]);
    assert_eq!(ids(Some(4), Some(10)), vec![4, 5]);
    assert_eq!(ids(Some(5), Some(1)), vec![5]);
    assert_eq!(ids(Some(6), None), Vec::<u64>::new());
    assert_eq!(ids(Some(0), None), Vec::<u64>::new());
    assert_eq!(ids(Some(3), Some(0)), Vec::<u64>::new());
    let listed = registry.get_all_pools(Some(2), Some(1)).unwrap();
    assert_eq!(listed[0].pool_name, "Pool 2");
    assert_eq!(listed[0].apr, apr_in_percent(501));
    assert_eq!(listed[0].decimals, 1_000_000);
    assert_eq!(listed[0].denom, USDC);
    assert_eq!(listed[0].assets, 0);
    assert_eq!(
        registry.get_all_pools(Some(u64::MAX), None),
        Err(ContractError::Overflow)
    );
}

#[test]
fn listing_a_pool_in_a_currency_that_is_not_whitelisted_fails() {
    let mut registry = registry_with_pools(3);
    registry.pools[1].pool.denom = "atom".to_string();
    assert_eq!(registry.get_all_pools(None, None), Err(ContractError::DenomNotWhitelisted));
    assert_eq!(registry.get_all_pools(Some(3), None).unwrap().len(), 1);
    assert_eq!(registry.get_all_pools(Some(1), Some(1)).unwrap().len(), 1);
}

#[test]
fn total_pool_deposit_adds_all_slices() {
    let mut first = PoolSlice::new(0).unwrap();
    first.junior_tranche.principal_deposited = 100;
    first.senior_tranche.principal_deposited = 400;
    let mut second = PoolSlice::new(1).unwrap();
    second.junior_tranche.principal_deposited = 7;
    assert_eq!(total_pool_deposit(&vec![]), Ok(0));
    assert_eq!(total_pool_deposit(&vec![first, second]), Ok(507));
    second.senior_tranche.principal_deposited = u128::MAX - 506;
    assert_eq!(total_pool_deposit(&vec![first, second]), Err(ContractError::Overflow));
    let registry = drawn_registry();
    assert_eq!(registry.total_pool_deposit(1), Ok(MIN_DEPOSIT));
    assert_eq!(registry.total_pool_deposit(2), Ok(0));
    assert_eq!(registry.total_pool_deposit(3), Err(ContractError::InvalidPoolId { id: 3 }));
}

#[test]
fn value_locked_is_what_was_drawn_and_not_repaid_in_principal() {
    let mut registry = drawn_registry();
    assert_eq!(registry.pool_value_locked(1), Ok(5_000_000_000));
    assert_eq!(registry.pool_value_locked(2), Ok(0));
    assert_eq!(registry.pool_value_locked(9), Err(ContractError::InvalidPoolId { id: 9 }));
    assert_eq!(registry.total_value_locked(), 5_000_000_000);
    registry
        .repay(
            &info("borrower", 1_000_000_000),
            &RepayMsg { pool_id: 1, amount: 1_000_000_000 },
            true,
            after_start(121),
        )
        .unwrap();
    assert_eq!(registry.pool_value_locked(1), Ok(5_000_000_000 - 416_666_666));
    assert_eq!(registry.total_value_locked(), 5_000_000_000 - 416_666_666);

    let mut line = registry.get_credit_line(1).unwrap();
    line.borrow_info.total_borrowed = 10;
    line.borrow_info.principal_repaid = 11;
    assert_eq!(pool_value_locked(&line), Err(ContractError::Underflow));
    let mut huge = line;
    huge.borrow_info.total_borrowed = u128::MAX;
    huge.borrow_info.principal_repaid = 0;
    let mut small = line;
    small.borrow_info.total_borrowed = 5;
    small.borrow_info.principal_repaid = 2;
    // a pool that repaid more than it drew counts as zero, and a pool that
    // would take the sum out of range is left out
    assert_eq!(total_value_locked(&vec![small, line, small]), 6);
    assert_eq!(total_value_locked(&vec![small, huge, small]), 6);
    assert_eq!(total_value_locked(&vec![huge, small]), u128::MAX);
    assert_eq!(total_value_locked(&vec![]), 0);
}

#[test]
fn investments_are_the_tokens_of_the_pool() {
    let token = |token_id: u128, pool_id: u64| InvestorToken {
        token_id,
        pool_id,
        tranche_id: 0,
        lend_info: LendInfo::default(),
    };
    let tokens = vec![token(1, 1), token(2, 2), token(3, 1), token(4, 3), token(5, 1)];
    assert_eq!(get_investments(&tokens, 1), vec![token(1, 1), token(3, 1), token(5, 1)]);
    assert_eq!(get_investments(&tokens, 2), vec![token(2, 2)]);
    assert_eq!(get_investments(&tokens, 4), vec![]);
    assert_eq!(get_investments(&vec![], 1), vec![]);
    assert_eq!(InvestorToken::new(7, 8, 9), InvestorToken { tranche_id: 9, ..token(7, 8) });
}
