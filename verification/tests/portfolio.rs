use rebalancer::{
    execute_ranking_cycle, initialize_portfolio, register_strategy, Address, ErrorCode, Portfolio,
    ProtocolType, StrategyStatus,
};

fn id(n: u8) -> Address {
    Address::new([n; 32])
}

fn lending() -> ProtocolType {
    ProtocolType::StableLending { pool_id: id(1), utilization: 5000, reserve_address: id(2) }
}

fn staking() -> ProtocolType {
    ProtocolType::LiquidStaking { validator_id: id(1), commission: 500, stake_pool: id(2), unstake_delay: 3 }
}

fn open_portfolio() -> Portfolio {
    initialize_portfolio(id(1), 25, 3600, 1_000).unwrap()
}

#[test]
fn initialize_portfolio_sets_the_defaults() {
    let p = initialize_portfolio(id(1), 25, 3600, 1_000).unwrap();
    assert!(p.manager == id(1));
    assert_eq!(p.rebalance_threshold, 25);
    assert_eq!(p.total_strategies, 0);
    assert_eq!(p.total_capital_moved, 0);
    assert_eq!(p.last_rebalance, 1_000);
    assert_eq!(p.min_rebalance_interval, 3600);
    assert_eq!(p.portfolio_creation, 1_000);
    assert!(!p.emergency_pause);
    assert_eq!(p.performance_fee_bps, 200);
}

#[test]
fn initialize_portfolio_checks_in_order() {
    assert_eq!(
        initialize_portfolio(Address::default(), 0, 0, 0).unwrap_err(),
        ErrorCode::InvalidManager
    );
    assert_eq!(initialize_portfolio(id(1), 0, 0, 0).unwrap_err(), ErrorCode::InvalidRebalanceThreshold);
    assert_eq!(initialize_portfolio(id(1), 51, 0, 0).unwrap_err(), ErrorCode::InvalidRebalanceThreshold);
    assert_eq!(initialize_portfolio(id(1), 50, 0, 0).unwrap_err(), ErrorCode::InvalidRebalanceInterval);
    assert_eq!(initialize_portfolio(id(1), 1, 86401, 0).unwrap_err(), ErrorCode::InvalidRebalanceInterval);
    assert!(initialize_portfolio(id(1), 1, 86400, i64::MIN).is_ok());
}

#[test]
fn register_strategy_returns_a_fresh_record() {
    let mut p = open_portfolio();
    let s = register_strategy(&mut p, id(7), lending(), 100_000_000, 2_000).unwrap();
    assert!(s.strategy_id == id(7));
    assert_eq!(s.current_balance, 100_000_000);
    assert_eq!(s.yield_rate, 0);
    assert_eq!(s.volatility_score, 5000);
    assert_eq!(s.performance_score, 0);
    assert_eq!(s.percentile_rank, 50);
    assert_eq!(s.last_updated, 2_000);
    assert_eq!(s.status, StrategyStatus::Active);
    assert_eq!(s.total_deposits, 100_000_000);
    assert_eq!(s.total_withdrawals, 0);
    assert_eq!(s.creation_time, 2_000);
    assert_eq!(p.total_strategies, 1);
    assert_eq!(p.last_rebalance, 1_000);
    register_strategy(&mut p, id(8), staking(), 1_000_000_000, 2_001).unwrap();
    assert_eq!(p.total_strategies, 2);
}

#[test]
fn register_strategy_checks_in_order() {
    let bad_protocol = ProtocolType::StableLending {
        pool_id: Address::default(),
        utilization: 5000,
        reserve_address: id(2),
    };
    let mut p = open_portfolio();
    p.emergency_pause = true;
    assert_eq!(
        register_strategy(&mut p, Address::default(), bad_protocol, 0, 0).unwrap_err(),
        ErrorCode::EmergencyPaused
    );
    p.emergency_pause = false;
    assert_eq!(
        register_strategy(&mut p, Address::default(), bad_protocol, 0, 0).unwrap_err(),
        ErrorCode::InvalidStrategyId
    );
    assert_eq!(
        register_strategy(&mut p, id(7), bad_protocol, 0, 0).unwrap_err(),
        ErrorCode::InsufficientBalance
    );
    assert_eq!(
        register_strategy(&mut p, id(7), bad_protocol, u64::MAX / 1000, 0).unwrap_err(),
        ErrorCode::BalanceOverflow
    );
    assert_eq!(
        register_strategy(&mut p, id(7), bad_protocol, 5, 0).unwrap_err(),
        ErrorCode::InvalidPoolId
    );
    assert_eq!(
        register_strategy(&mut p, id(7), lending(), 99_999_999, 0).unwrap_err(),
        ErrorCode::InsufficientBalance
    );
    assert_eq!(
        register_strategy(&mut p, id(7), staking(), 999_999_999, 0).unwrap_err(),
        ErrorCode::InsufficientBalance
    );
    p.total_strategies = u32::MAX;
    assert_eq!(
        register_strategy(&mut p, id(7), lending(), 100_000_000, 0).unwrap_err(),
        ErrorCode::BalanceOverflow
    );
    assert_eq!(p.total_strategies, u32::MAX);
    p.total_strategies = 41;
    assert_eq!(
        register_strategy(&mut p, id(7), lending(), 99_999_999, 0).unwrap_err(),
        ErrorCode::InsufficientBalance
    );
    assert_eq!(p.total_strategies, 41);
}

#[test]
fn ranking_cycle_waits_for_the_interval() {
    let mut p = open_portfolio();
    assert_eq!(execute_ranking_cycle(&mut p, 4_599), Err(ErrorCode::InvalidRebalanceInterval));
    assert_eq!(p.last_rebalance, 1_000);
    assert_eq!(execute_ranking_cycle(&mut p, 4_600), Ok(()));
    assert_eq!(p.last_rebalance, 4_600);
    assert_eq!(execute_ranking_cycle(&mut p, 4_600), Err(ErrorCode::InvalidRebalanceInterval));
    assert_eq!(execute_ranking_cycle(&mut p, 8_200), Ok(()));
    assert_eq!(p.last_rebalance, 8_200);
    assert_eq!(p.total_strategies, 0);
    assert_eq!(p.total_capital_moved, 0);
}

#[test]
fn ranking_cycle_refused_while_paused() {
    let mut p = open_portfolio();
    p.emergency_pause = true;
    assert_eq!(execute_ranking_cycle(&mut p, i64::MAX), Err(ErrorCode::EmergencyPaused));
    assert_eq!(p.last_rebalance, 1_000);
}

#[test]
fn ranking_cycle_saturates_the_elapsed_time() {
    let mut p = open_portfolio();
    p.last_rebalance = i64::MIN;
    assert_eq!(execute_ranking_cycle(&mut p, i64::MAX), Ok(()));
    assert_eq!(p.last_rebalance, i64::MAX);
    assert_eq!(execute_ranking_cycle(&mut p, i64::MIN), Err(ErrorCode::InvalidRebalanceInterval));
    assert_eq!(p.last_rebalance, i64::MAX);
}
