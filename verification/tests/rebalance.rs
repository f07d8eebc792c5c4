use rebalancer::{
    calculate_expected_improvement, execute_complete_rebalancing, validate_allocations, Address,
    AllocationType, CapitalAllocation, ErrorCode, Portfolio, ProtocolType, RebalancingPlan,
    StrategyPerformanceData,
};

fn id(n: u8) -> Address {
    Address::new([n; 32])
}

fn lending() -> ProtocolType {
    ProtocolType::StableLending { pool_id: id(201), utilization: 5000, reserve_address: id(202) }
}

fn farming() -> ProtocolType {
    ProtocolType::YieldFarming {
        pair_id: id(201),
        reward_multiplier: 3,
        token_a_mint: id(202),
        token_b_mint: id(203),
        fee_tier: 30,
    }
}

fn staking() -> ProtocolType {
    ProtocolType::LiquidStaking { validator_id: id(201), commission: 500, stake_pool: id(202), unstake_delay: 3 }
}

fn strategy(
    n: u8,
    performance_score: u64,
    current_balance: u64,
    volatility_score: u32,
    protocol_type: ProtocolType,
    percentile_rank: u8,
) -> StrategyPerformanceData {
    StrategyPerformanceData {
        strategy_id: id(n),
        performance_score,
        current_balance,
        volatility_score,
        protocol_type,
        percentile_rank,
    }
}

fn portfolio(rebalance_threshold: u8) -> Portfolio {
    Portfolio {
        manager: id(1),
        rebalance_threshold,
        total_strategies: 7,
        total_capital_moved: 0,
        last_rebalance: 0,
        min_rebalance_interval: 3600,
        portfolio_creation: 0,
        emergency_pause: false,
        performance_fee_bps: 200,
    }
}

fn seven_strategies() -> Vec<StrategyPerformanceData> {
    vec![
        strategy(1, 9000, 40_000_000_000, 1000, lending(), 95),
        strategy(2, 3000, 5_010_000_000, 7000, farming(), 10),
        strategy(3, 8200, 30_000_000_000, 2500, staking(), 80),
        strategy(4, 2000, 2_510_000_000, 8000, lending(), 5),
        strategy(5, 5000, 1_000_000_000, 5000, lending(), 50),
        strategy(6, 7700, 10_000_000_000, 3000, farming(), 75),
        strategy(7, 1000, 9_000_000, 9000, staking(), 0),
    ]
}

fn flat(plan: &[CapitalAllocation]) -> Vec<(Address, u64, AllocationType)> {
    plan.iter().map(|a| (a.strategy_id, a.amount, a.allocation_type)).collect()
}

fn error(r: Result<RebalancingPlan, ErrorCode>) -> ErrorCode {
    r.unwrap_err()
}

#[test]
fn rebalancing_plan_for_a_mixed_portfolio() {
    let plan = execute_complete_rebalancing(&portfolio(25), &seven_strategies()).unwrap();
    // Ranks 10, 5 and 0 are below the cutoff of 25; the last one holds less
    // than the rent floor and gives up nothing.
    assert_eq!(plan.extraction_targets, vec![id(2), id(4), id(7)]);
    assert_eq!(plan.total_to_extract, 7_500_000_000);
    // Ranks 95, 80 and 75 are top performers; both fees go to the zero
    // identifier.
    assert_eq!(
        flat(&plan.redistribution_plan),
        vec![
            (Address::default(), 37_500_000, AllocationType::PlatformFee),
            (Address::default(), 112_500_000, AllocationType::ManagerIncentive),
            (id(1), 5_038_380_278, AllocationType::TopPerformer),
            (id(3), 1_440_624_183, AllocationType::TopPerformer),
            (id(6), 870_995_539, AllocationType::TopPerformer),
        ]
    );
    assert_eq!(plan.estimated_fees, 150_000_000);
    // 15% of the average of 9000, 8200 and 7700.
    assert_eq!(plan.expected_improvement, 1245);
    let planned: u64 = plan.redistribution_plan.iter().map(|a| a.amount).sum();
    assert_eq!(planned, plan.total_to_extract);
    // The two fee entries share their recipient, so the plan as it stands is
    // no valid batch.
    assert_eq!(validate_allocations(&plan.redistribution_plan), Err(ErrorCode::DuplicateStrategy));
}

#[test]
fn rebalancing_cutoff_is_exclusive() {
    let plan = execute_complete_rebalancing(&portfolio(6), &seven_strategies()).unwrap();
    assert_eq!(plan.extraction_targets, vec![id(4), id(7)]);
    assert_eq!(plan.total_to_extract, 2_500_000_000);
    assert_eq!(
        flat(&plan.redistribution_plan),
        vec![
            (Address::default(), 12_500_000, AllocationType::PlatformFee),
            (Address::default(), 37_500_000, AllocationType::ManagerIncentive),
            (id(1), 2_450_000_000, AllocationType::TopPerformer),
        ]
    );
    assert_eq!(plan.estimated_fees, 50_000_000);
    assert_eq!(plan.expected_improvement, 1245);
    // At a cutoff of 5 only the strategy of rank 0 is left, which has
    // nothing to give.
    assert_eq!(
        error(execute_complete_rebalancing(&portfolio(5), &seven_strategies())),
        ErrorCode::InsufficientBalance
    );
}

#[test]
fn rebalancing_takes_the_first_five_top_performers() {
    let mut strategies: Vec<StrategyPerformanceData> =
        (0..7u8).map(|i| strategy(10 + i, 6000 + i as u64, 1_000_000_000, 2000, lending(), 75 + i)).collect();
    strategies.push(strategy(99, 100, 50_010_000_000, 9000, lending(), 3));
    let plan = execute_complete_rebalancing(&portfolio(10), &strategies).unwrap();
    assert_eq!(plan.extraction_targets, vec![id(99)]);
    assert_eq!(plan.total_to_extract, 50_000_000_000);
    assert_eq!(
        flat(&plan.redistribution_plan),
        vec![
            (Address::default(), 250_000_000, AllocationType::PlatformFee),
            (Address::default(), 750_000_000, AllocationType::ManagerIncentive),
            (id(10), 25_458_004_212, AllocationType::TopPerformer),
            (id(11), 8_071_425_396, AllocationType::TopPerformer),
            (id(12), 6_393_913_927, AllocationType::TopPerformer),
            (id(13), 5_064_823_545, AllocationType::RiskDiversification),
            (id(14), 4_011_832_920, AllocationType::RiskDiversification),
        ]
    );
    assert_eq!(plan.estimated_fees, 1_000_000_000);
    // 15% of the average of the first five scores, 6002.
    assert_eq!(plan.expected_improvement, 900);
}

#[test]
fn rebalancing_fails_without_an_underperformer() {
    assert_eq!(
        error(execute_complete_rebalancing(&portfolio(0), &seven_strategies())),
        ErrorCode::InsufficientStrategies
    );
    let only_top = [strategy(1, 9000, 40_000_000_000, 1000, lending(), 95)];
    assert_eq!(
        error(execute_complete_rebalancing(&portfolio(50), &only_top)),
        ErrorCode::InsufficientStrategies
    );
    assert_eq!(
        error(execute_complete_rebalancing(&portfolio(50), &[])),
        ErrorCode::InsufficientStrategies
    );
}

#[test]
fn rebalancing_fails_without_a_top_performer() {
    let strategies = [
        strategy(1, 5, 1, 0, lending(), 74),
        strategy(2, 100, 1_000_000_000, 9000, lending(), 3),
    ];
    assert_eq!(
        error(execute_complete_rebalancing(&portfolio(10), &strategies)),
        ErrorCode::InsufficientStrategies
    );
}

#[test]
fn rebalancing_fails_below_the_minimum_to_extract() {
    let top = strategy(1, 5, 1, 0, lending(), 100);
    // One base unit short of 0.1 unit above the rent floor is not enough.
    let short = [top, strategy(2, 100, 109_999_999, 9000, lending(), 3)];
    assert_eq!(error(execute_complete_rebalancing(&portfolio(10), &short)), ErrorCode::InsufficientBalance);
    let nothing = [top, strategy(2, 100, 10_000_000, 9000, lending(), 3)];
    assert_eq!(error(execute_complete_rebalancing(&portfolio(10), &nothing)), ErrorCode::InsufficientBalance);
    // Exactly 0.1 unit is, though it funds no strategy here: the only share
    // is below the lending ticket.
    let at = [top, strategy(2, 100, 110_000_000, 9000, lending(), 3)];
    let plan = execute_complete_rebalancing(&portfolio(10), &at).unwrap();
    assert_eq!(plan.extraction_targets, vec![id(2)]);
    assert_eq!(plan.total_to_extract, 100_000_000);
    assert_eq!(
        flat(&plan.redistribution_plan),
        vec![
            (Address::default(), 500_000, AllocationType::PlatformFee),
            (Address::default(), 1_500_000, AllocationType::ManagerIncentive),
        ]
    );
    assert_eq!(plan.estimated_fees, 2_000_000);
    assert_eq!(plan.expected_improvement, 0);
    // The same with a top performer that is funded.
    let funded = [
        strategy(2, 1000, 110_000_000, 5000, lending(), 10),
        strategy(1, 8000, 5_000_000_000, 5000, lending(), 90),
    ];
    let plan = execute_complete_rebalancing(&portfolio(25), &funded).unwrap();
    assert_eq!(plan.total_to_extract, 100_000_000);
    assert_eq!(plan.estimated_fees, 2_000_000);
    assert_eq!(plan.expected_improvement, 1200);
    let above = [top, strategy(2, 100, 110_000_001, 9000, lending(), 3)];
    let plan = execute_complete_rebalancing(&portfolio(10), &above).unwrap();
    assert_eq!(plan.extraction_targets, vec![id(2)]);
    assert_eq!(plan.total_to_extract, 100_000_001);
    assert_eq!(
        flat(&plan.redistribution_plan),
        vec![
            (Address::default(), 500_000, AllocationType::PlatformFee),
            (Address::default(), 1_500_000, AllocationType::ManagerIncentive),
        ]
    );
    assert_eq!(plan.estimated_fees, 2_000_000);
    assert_eq!(plan.expected_improvement, 0);
}

#[test]
fn rebalancing_fails_where_top_performers_have_no_score() {
    let strategies = [
        strategy(1, 0, 1, 0, lending(), 100),
        strategy(2, 100, 110_000_001, 9000, lending(), 3),
    ];
    assert_eq!(
        error(execute_complete_rebalancing(&portfolio(10), &strategies)),
        ErrorCode::InvalidPerformanceScore
    );
}

#[test]
fn rebalancing_fails_where_the_extractable_total_overflows() {
    let top = strategy(1, 5, 1, 0, lending(), 100);
    let strategies = [
        top,
        strategy(2, 100, u64::MAX, 9000, lending(), 3),
        strategy(3, 100, 20_000_001, 9000, lending(), 3),
    ];
    assert_eq!(
        error(execute_complete_rebalancing(&portfolio(10), &strategies)),
        ErrorCode::BalanceOverflow
    );
    let strategies = [
        top,
        strategy(2, 100, u64::MAX, 9000, lending(), 3),
        strategy(3, 100, 20_000_000, 9000, lending(), 3),
    ];
    let plan = execute_complete_rebalancing(&portfolio(10), &strategies).unwrap();
    assert_eq!(plan.total_to_extract, u64::MAX);
    assert_eq!(
        flat(&plan.redistribution_plan),
        vec![
            (Address::default(), 92_233_720_368_547_758, AllocationType::PlatformFee),
            (Address::default(), 276_701_161_105_643_274, AllocationType::ManagerIncentive),
            (id(1), 18_077_809_192_235_360_583, AllocationType::TopPerformer),
        ]
    );
    assert_eq!(plan.estimated_fees, 368_934_881_474_191_032);
}

#[test]
fn rebalancing_refused_for_a_paused_portfolio() {
    let mut p = portfolio(25);
    p.emergency_pause = true;
    assert_eq!(
        error(execute_complete_rebalancing(&p, &seven_strategies())),
        ErrorCode::EmergencyPaused
    );
    assert_eq!(error(execute_complete_rebalancing(&p, &[])), ErrorCode::EmergencyPaused);
}

#[test]
fn expected_improvement_is_15_percent_of_the_average_score() {
    let of = |scores: &[u64]| {
        let top: Vec<StrategyPerformanceData> =
            scores.iter().map(|&s| strategy(1, s, 0, 0, lending(), 90)).collect();
        calculate_expected_improvement(&top)
    };
    assert_eq!(of(&[]), 0);
    assert_eq!(of(&[9000, 8200, 7700]), 1245);
    assert_eq!(of(&[100]), 15);
    assert_eq!(of(&[7, 7, 7]), 1);
    assert_eq!(of(&[1, 2]), 0);
    assert_eq!(of(&[6006, 6005, 6004, 6003, 6002]), 900);
    assert_eq!(of(&[u64::MAX, u64::MAX]), 2_767_011_611_056_432_742);
}
