use rebalancer::{
    extract_capital, extract_from_lending, extract_from_protocol, extract_from_staking,
    extract_from_yield_farming, Address, CapitalPosition, ErrorCode, ExtractionResult,
    ExtractionType, Portfolio, PositionType, ProtocolType, Strategy, StrategyStatus,
};

fn id(n: u8) -> Address {
    Address::new([n; 32])
}

fn lending() -> ProtocolType {
    ProtocolType::StableLending { pool_id: id(1), utilization: 5000, reserve_address: id(2) }
}

fn farming() -> ProtocolType {
    ProtocolType::YieldFarming {
        pair_id: id(1),
        reward_multiplier: 3,
        token_a_mint: id(2),
        token_b_mint: id(3),
        fee_tier: 30,
    }
}

fn staking(commission: u16) -> ProtocolType {
    ProtocolType::LiquidStaking { validator_id: id(1), commission, stake_pool: id(2), unstake_delay: 3 }
}

fn strategy(protocol_type: ProtocolType, current_balance: u64, total_withdrawals: u64) -> Strategy {
    Strategy {
        strategy_id: id(7),
        protocol_type,
        current_balance,
        yield_rate: 1200,
        volatility_score: 3000,
        performance_score: 4000,
        percentile_rank: 10,
        last_updated: 5,
        status: StrategyStatus::Active,
        total_deposits: current_balance,
        total_withdrawals,
        creation_time: 5,
    }
}

fn pool(
    token_a_amount: u64,
    token_b_amount: u64,
    lp_tokens: u64,
    platform_controlled_lp: u64,
    entry_price_a: u64,
    entry_price_b: u64,
) -> CapitalPosition {
    CapitalPosition {
        strategy_id: id(7),
        token_a_amount,
        token_b_amount,
        lp_tokens,
        platform_controlled_lp,
        position_type: PositionType::LiquidityPair,
        entry_price_a,
        entry_price_b,
        last_rebalance: 5,
        accrued_fees: 3,
        impermanent_loss: -1,
    }
}

fn same_strategy(a: &Strategy, b: &Strategy) -> bool {
    a.strategy_id == b.strategy_id
        && a.current_balance == b.current_balance
        && a.yield_rate == b.yield_rate
        && a.volatility_score == b.volatility_score
        && a.performance_score == b.performance_score
        && a.percentile_rank == b.percentile_rank
        && a.last_updated == b.last_updated
        && a.status == b.status
        && a.total_deposits == b.total_deposits
        && a.total_withdrawals == b.total_withdrawals
        && a.creation_time == b.creation_time
}

fn same_position(a: &CapitalPosition, b: &CapitalPosition) -> bool {
    a.strategy_id == b.strategy_id
        && a.token_a_amount == b.token_a_amount
        && a.token_b_amount == b.token_b_amount
        && a.lp_tokens == b.lp_tokens
        && a.platform_controlled_lp == b.platform_controlled_lp
        && a.position_type == b.position_type
        && a.entry_price_a == b.entry_price_a
        && a.entry_price_b == b.entry_price_b
        && a.last_rebalance == b.last_rebalance
        && a.accrued_fees == b.accrued_fees
        && a.impermanent_loss == b.impermanent_loss
}

fn nothing_extracted() -> ExtractionResult {
    ExtractionResult { extracted_amount: 0, extraction_type: ExtractionType::NoExtraction, fees_paid: 0 }
}

#[test]
fn lending_within_the_rent_floor_extracts_nothing() {
    for balance in [0u64, 1, 9_999_999, 10_000_000] {
        let mut s = strategy(lending(), balance, 77);
        let mut p = pool(500, 0, 0, 0, 0, 0);
        let (strategy_before, position_before) = (s, p);
        assert_eq!(extract_from_lending(&mut s, &mut p, 1_000), Ok(nothing_extracted()));
        assert!(same_strategy(&s, &strategy_before));
        assert!(same_position(&p, &position_before));
    }
}

#[test]
fn lending_above_the_rent_floor_extracts_the_rest() {
    let mut s = strategy(lending(), 50_000_000, 5);
    let mut p = pool(45_000_000, 9, 8, 7, 6, 5);
    let (strategy_before, position_before) = (s, p);
    let r = extract_from_lending(&mut s, &mut p, 1_000).unwrap();
    assert_eq!(
        r,
        ExtractionResult {
            extracted_amount: 40_000_000,
            extraction_type: ExtractionType::LendingWithdrawal,
            fees_paid: 0
        }
    );
    assert_eq!(s.current_balance, 10_000_000);
    assert_eq!(strategy_before.current_balance - s.current_balance, r.extracted_amount);
    assert_eq!(s.total_withdrawals - strategy_before.total_withdrawals, r.extracted_amount);
    assert_eq!(p.token_a_amount, 5_000_000);
    assert_eq!(p.last_rebalance, 1_000);
    s.current_balance = strategy_before.current_balance;
    s.total_withdrawals = strategy_before.total_withdrawals;
    p.token_a_amount = position_before.token_a_amount;
    p.last_rebalance = position_before.last_rebalance;
    assert!(same_strategy(&s, &strategy_before));
    assert!(same_position(&p, &position_before));
}

#[test]
fn lending_just_above_the_floor_extracts_one_unit() {
    let mut s = strategy(lending(), 10_000_001, 0);
    let mut p = pool(0, 0, 0, 0, 0, 0);
    let r = extract_from_lending(&mut s, &mut p, -3).unwrap();
    assert_eq!(r.extracted_amount, 1);
    assert_eq!(r.extraction_type, ExtractionType::LendingWithdrawal);
    assert_eq!(s.current_balance, 10_000_000);
    assert_eq!(s.total_withdrawals, 1);
    // The position's token amount stops at zero.
    assert_eq!(p.token_a_amount, 0);
    assert_eq!(p.last_rebalance, -3);
}

#[test]
fn lending_refuses_withdrawals_that_overflow_the_lifetime_total() {
    let mut s = strategy(lending(), 50_000_000, u64::MAX - 39_999_999);
    let mut p = pool(45_000_000, 0, 0, 0, 0, 0);
    let (strategy_before, position_before) = (s, p);
    assert_eq!(extract_from_lending(&mut s, &mut p, 1_000), Err(ErrorCode::BalanceOverflow));
    assert!(same_strategy(&s, &strategy_before));
    assert!(same_position(&p, &position_before));
    s.total_withdrawals = u64::MAX - 40_000_000;
    assert!(extract_from_lending(&mut s, &mut p, 1_000).is_ok());
    assert_eq!(s.total_withdrawals, u64::MAX);
}

#[test]
fn farming_withdraws_the_platform_share() {
    // A quarter of the pool tokens: 2500 basis points of both amounts.
    let mut s = strategy(farming(), 10_000_000_000, 0);
    let mut p = pool(4_000_000_000, 2_000_000_000, 1_000_000, 250_000, 2_000_000, 1_000_000);
    let r = extract_from_yield_farming(&mut s, &mut p, 1_000).unwrap();
    // 1_000_000_000 and 500_000_000 withdrawn; 0.5% slippage on each.
    assert_eq!(
        r,
        ExtractionResult {
            extracted_amount: 1_492_500_000,
            extraction_type: ExtractionType::LiquidityWithdrawal,
            fees_paid: 4_500_000
        }
    );
    assert_eq!(s.current_balance, 8_507_500_000);
    assert_eq!(s.total_withdrawals, 1_492_500_000);
    assert_eq!(p.token_a_amount, 3_000_000_000);
    assert_eq!(p.token_b_amount, 1_500_000_000);
    assert_eq!(p.lp_tokens, 750_000);
    assert_eq!(p.platform_controlled_lp, 0);
    assert_eq!(p.last_rebalance, 1_000);
    // Withdrawn ratio 2.0 against entry ratio 2.0.
    assert_eq!(p.impermanent_loss, 0);
    assert_eq!(p.accrued_fees, 3);
    assert_eq!(p.entry_price_a, 2_000_000);
}

#[test]
fn farming_share_is_rounded_down_twice() {
    // 333_333 of 1_000_000 pool tokens are 3333 basis points.
    let mut s = strategy(farming(), 10_000_000_000, 7);
    let mut p = pool(4_000_000_000, 2_000_000_000, 1_000_000, 333_333, 1_500_000, 1_000_000);
    let r = extract_from_yield_farming(&mut s, &mut p, 1_000).unwrap();
    assert_eq!(r.extracted_amount, 1_989_801_000);
    assert_eq!(r.fees_paid, 5_999_400);
    assert_eq!(s.current_balance, 8_010_199_000);
    assert_eq!(s.total_withdrawals, 1_989_801_007);
    assert_eq!(p.token_a_amount, 2_666_800_000);
    assert_eq!(p.token_b_amount, 1_333_400_000);
    assert_eq!(p.lp_tokens, 666_667);
    // Withdrawn ratio 2.0 against entry ratio 1.5: 33 percent.
    assert_eq!(p.impermanent_loss, 33);
    // Proportional share: withdrawn * all pool tokens never exceeds platform
    // pool tokens * amount, and comes within the rounding of it.
    let withdrawn_a: u128 = 4_000_000_000 - 2_666_800_000;
    assert!(withdrawn_a * 1_000_000 <= 333_333u128 * 4_000_000_000);
    assert!(
        10_000 * (333_333u128 * 4_000_000_000 - withdrawn_a * 1_000_000)
            < 1_000_000u128 * (4_000_000_000 + 10_000)
    );
}

#[test]
fn farming_zeroes_the_platform_share_whatever_slippage_took() {
    // One of three pool tokens: the withdrawals are cut by rounding and by
    // slippage, and still the platform's last pool token is gone.
    let mut s = strategy(farming(), 10_000_000_000, 7);
    let mut p = pool(1_000_000_007, 999_999_999, 3, 1, 1_000_000, 1_000_000);
    let r = extract_from_yield_farming(&mut s, &mut p, 1_000).unwrap();
    assert_eq!(r.extracted_amount, 663_267_002);
    assert_eq!(r.fees_paid, 1_999_800);
    assert_eq!(p.token_a_amount, 666_700_005);
    assert_eq!(p.token_b_amount, 666_700_000);
    assert_eq!(p.lp_tokens, 2);
    assert_eq!(p.platform_controlled_lp, 0);
    assert_eq!(p.impermanent_loss, 0);
}

#[test]
fn farming_whole_pool_with_unset_entry_prices() {
    let mut s = strategy(farming(), 10_000_000_000, 0);
    let mut p = pool(4_000_000_000, 0, 1_000_000, 1_000_000, 0, 0);
    let r = extract_from_yield_farming(&mut s, &mut p, 1_000).unwrap();
    assert_eq!(r.extracted_amount, 3_980_000_000);
    assert_eq!(r.fees_paid, 12_000_000);
    assert_eq!(p.token_a_amount, 0);
    assert_eq!(p.token_b_amount, 0);
    assert_eq!(p.lp_tokens, 0);
    // No token B withdrawn and no entry price: both ratios default to one.
    assert_eq!(p.impermanent_loss, 0);
}

#[test]
fn farming_refuses_a_loss_beyond_the_tracker() {
    // Entry ratio 1 against a withdrawn ratio of 9 * 10^22: the deviation in
    // percent does not fit the signed tracker.
    let mut s = strategy(farming(), u64::MAX, 0);
    let mut p = pool(18_000_000_000_000_000_000, 200, 100, 100, 1, 1_000_000);
    let (strategy_before, position_before) = (s, p);
    assert_eq!(extract_from_yield_farming(&mut s, &mut p, 1_000), Err(ErrorCode::BalanceOverflow));
    assert!(same_strategy(&s, &strategy_before));
    assert!(same_position(&p, &position_before));
    // The smallest withdrawal that is refused for it, and the largest that
    // is not.
    let mut p = pool(92_697_206_401, 1, 100, 100, 1, 1_000_000);
    assert_eq!(extract_from_yield_farming(&mut s, &mut p, 1_000), Err(ErrorCode::BalanceOverflow));
    let mut p = pool(92_697_206_400, 1, 100, 100, 1, 1_000_000);
    let r = extract_from_yield_farming(&mut s, &mut p, 1_000).unwrap();
    assert_eq!(r.extracted_amount, 92_233_720_369);
    assert_eq!(r.fees_paid, 278_091_619);
    assert_eq!(p.impermanent_loss, 9_223_372_036_799_999_900);
}

#[test]
fn farming_loss_tracker_is_never_negative() {
    for (token_a, token_b, entry_a, entry_b) in [
        (4_000_000_000u64, 2_000_000_000u64, 2_000_000u64, 1_000_000u64),
        (4_000_000_000, 2_000_000_000, 5_000_000, 1_000_000),
        (1_000_000, 2_000_000_000, 1, 1),
        (0, 2_000_000_000, 1, 1),
        (2_000_000_000, 0, 1, 7),
    ] {
        let mut s = strategy(farming(), u64::MAX, 0);
        let mut p = pool(token_a, token_b, 1_000_000, 250_000, entry_a, entry_b);
        extract_from_yield_farming(&mut s, &mut p, 1_000).unwrap();
        assert!(p.impermanent_loss >= 0);
    }
}

#[test]
fn farming_refuses_positions_without_pool_tokens() {
    for (lp, platform) in [(0u64, 0u64), (0, 5), (5, 0), (5, 6), (1, u64::MAX)] {
        let mut s = strategy(farming(), 10_000_000_000, 0);
        let mut p = pool(4_000_000_000, 2_000_000_000, lp, platform, 1, 1);
        let (strategy_before, position_before) = (s, p);
        assert_eq!(
            extract_from_yield_farming(&mut s, &mut p, 1_000),
            Err(ErrorCode::InsufficientBalance)
        );
        assert!(same_strategy(&s, &strategy_before));
        assert!(same_position(&p, &position_before));
    }
}

#[test]
fn farming_refuses_more_than_the_strategy_holds() {
    let mut s = strategy(farming(), 1_492_499_999, 0);
    let mut p = pool(4_000_000_000, 2_000_000_000, 1_000_000, 250_000, 2_000_000, 1_000_000);
    let (strategy_before, position_before) = (s, p);
    assert_eq!(extract_from_yield_farming(&mut s, &mut p, 1_000), Err(ErrorCode::InsufficientBalance));
    assert!(same_strategy(&s, &strategy_before));
    assert!(same_position(&p, &position_before));
    s.current_balance = 1_492_500_000;
    assert!(extract_from_yield_farming(&mut s, &mut p, 1_000).is_ok());
    assert_eq!(s.current_balance, 0);
}

#[test]
fn farming_refuses_overflowing_amounts() {
    // Both withdrawals after slippage do not fit in 64 bits together.
    let mut s = strategy(farming(), u64::MAX, 0);
    let mut p = pool(u64::MAX, u64::MAX, 5, 5, 1, 1);
    let (strategy_before, position_before) = (s, p);
    assert_eq!(extract_from_yield_farming(&mut s, &mut p, 1_000), Err(ErrorCode::BalanceOverflow));
    assert!(same_strategy(&s, &strategy_before));
    assert!(same_position(&p, &position_before));
    // The lifetime withdrawals do not fit.
    let mut s = strategy(farming(), 10_000_000_000, u64::MAX);
    let mut p = pool(4_000_000_000, 2_000_000_000, 1_000_000, 250_000, 2_000_000, 1_000_000);
    let (strategy_before, position_before) = (s, p);
    assert_eq!(extract_from_yield_farming(&mut s, &mut p, 1_000), Err(ErrorCode::BalanceOverflow));
    assert!(same_strategy(&s, &strategy_before));
    assert!(same_position(&p, &position_before));
}

#[test]
fn farming_refuses_a_zero_entry_ratio() {
    let mut s = strategy(farming(), 10_000_000_000, 0);
    let mut p = pool(4_000_000_000, 2_000_000_000, 1_000_000, 250_000, 0, 5);
    let (strategy_before, position_before) = (s, p);
    assert_eq!(extract_from_yield_farming(&mut s, &mut p, 1_000), Err(ErrorCode::BalanceOverflow));
    assert!(same_strategy(&s, &strategy_before));
    assert!(same_position(&p, &position_before));
    // Unless the withdrawn ratio is zero as well.
    p.token_a_amount = 0;
    let r = extract_from_yield_farming(&mut s, &mut p, 1_000).unwrap();
    assert_eq!(r.extracted_amount, 497_500_000);
    assert_eq!(r.fees_paid, 1_500_000);
    assert_eq!(p.impermanent_loss, 0);
}

#[test]
fn staking_pays_out_after_penalty_and_commission() {
    let mut s = strategy(staking(500), 5_000_000_000, 10);
    let mut p = pool(1, 2, 3, 4, 5, 6);
    let r = extract_from_staking(&mut s, &mut p, 1_000, 400).unwrap();
    // Penalty 2% = 100_000_000; commission 5% of 4_900_000_000 = 245_000_000.
    assert_eq!(
        r,
        ExtractionResult {
            extracted_amount: 4_655_000_000,
            extraction_type: ExtractionType::StakingUnstake,
            fees_paid: 345_000_000
        }
    );
    assert_eq!(s.current_balance, 0);
    assert_eq!(s.total_withdrawals, 4_655_000_010);
    assert_eq!(p.token_a_amount, 4_655_000_000);
    assert_eq!(p.accrued_fees, 245_000_003);
    assert_eq!(p.last_rebalance, 1_000);
    assert_eq!(p.token_b_amount, 2);
    assert_eq!(p.lp_tokens, 3);
    assert_eq!(p.platform_controlled_lp, 4);
    assert_eq!(r.extracted_amount + r.fees_paid, 5_000_000_000);
}

#[test]
fn staking_at_the_largest_commission_and_balance() {
    let mut s = strategy(staking(1000), 1_000_000_000, 0);
    let mut p = pool(0, 0, 0, 0, 0, 0);
    p.accrued_fees = 0;
    let r = extract_from_staking(&mut s, &mut p, 1_000, 400).unwrap();
    assert_eq!(r.extracted_amount, 882_000_000);
    assert_eq!(r.fees_paid, 118_000_000);
    assert_eq!(p.accrued_fees, 98_000_000);

    let mut s = strategy(staking(0), u64::MAX, 0);
    let r = extract_from_staking(&mut s, &mut p, 1_000, 400).unwrap();
    assert_eq!(r.extracted_amount, 18_077_809_192_235_360_583);
    assert_eq!(r.fees_paid, 368_934_881_474_191_032);
    assert_eq!(s.current_balance, 0);
}

#[test]
fn staking_ignores_status_and_an_empty_balance() {
    let mut s = strategy(staking(100), 0, 9);
    s.status = StrategyStatus::Paused;
    let mut p = pool(1, 2, 3, 4, 5, 6);
    let r = extract_from_staking(&mut s, &mut p, 1_000, 400).unwrap();
    assert_eq!(r.extracted_amount, 0);
    assert_eq!(r.fees_paid, 0);
    assert_eq!(r.extraction_type, ExtractionType::StakingUnstake);
    assert_eq!(s.total_withdrawals, 9);
    assert_eq!(p.token_a_amount, 0);
    assert_eq!(p.last_rebalance, 1_000);
}

#[test]
fn staking_does_not_depend_on_epoch_or_delay() {
    let mut outcomes = Vec::new();
    for (delay, epoch) in [(0u32, 0u64), (3, 400), (50, u64::MAX), (u32::MAX, u64::MAX)] {
        let protocol = ProtocolType::LiquidStaking {
            validator_id: id(1),
            commission: 500,
            stake_pool: id(2),
            unstake_delay: delay,
        };
        let mut s = strategy(protocol, 5_000_000_000, 10);
        let mut p = pool(1, 2, 3, 4, 5, 6);
        let r = extract_from_staking(&mut s, &mut p, 1_000, epoch).unwrap();
        outcomes.push((r, s.current_balance, s.total_withdrawals, p.token_a_amount, p.accrued_fees));
    }
    assert!(outcomes.iter().all(|o| *o == outcomes[0]));
    assert_eq!(outcomes[0].0.extracted_amount, 4_655_000_000);
}

#[test]
fn staking_refuses_other_protocols() {
    for protocol in [lending(), farming()] {
        let mut s = strategy(protocol, 5_000_000_000, 10);
        let mut p = pool(1, 2, 3, 4, 5, 6);
        let (strategy_before, position_before) = (s, p);
        assert_eq!(extract_from_staking(&mut s, &mut p, 1_000, 400), Err(ErrorCode::InvalidProtocolType));
        assert!(same_strategy(&s, &strategy_before));
        assert!(same_position(&p, &position_before));
    }
}

#[test]
fn staking_refuses_a_commission_above_the_whole() {
    let mut s = strategy(staking(10001), 1_000_000, 0);
    let mut p = pool(1, 2, 3, 4, 5, 6);
    let (strategy_before, position_before) = (s, p);
    assert_eq!(extract_from_staking(&mut s, &mut p, 1_000, 400), Err(ErrorCode::InsufficientBalance));
    assert!(same_strategy(&s, &strategy_before));
    assert!(same_position(&p, &position_before));
    // A commission of the whole leaves nothing to pay out.
    let mut s = strategy(staking(10000), 1_000_000, 0);
    p.accrued_fees = 0;
    let r = extract_from_staking(&mut s, &mut p, 1_000, 400).unwrap();
    assert_eq!(r.extracted_amount, 0);
    assert_eq!(r.fees_paid, 1_000_000);
    assert_eq!(p.accrued_fees, 980_000);
}

#[test]
fn staking_refuses_overflowing_totals() {
    let mut s = strategy(staking(100), 1_000_000, u64::MAX);
    let mut p = pool(1, 2, 3, 4, 5, 6);
    let (strategy_before, position_before) = (s, p);
    assert_eq!(extract_from_staking(&mut s, &mut p, 1_000, 400), Err(ErrorCode::BalanceOverflow));
    assert!(same_strategy(&s, &strategy_before));
    assert!(same_position(&p, &position_before));

    let mut s = strategy(staking(100), 1_000_000, 0);
    p.accrued_fees = u64::MAX;
    let (strategy_before, position_before) = (s, p);
    assert_eq!(extract_from_staking(&mut s, &mut p, 1_000, 400), Err(ErrorCode::BalanceOverflow));
    assert!(same_strategy(&s, &strategy_before));
    assert!(same_position(&p, &position_before));
}

#[test]
fn extraction_needs_an_active_strategy_with_a_balance() {
    for status in [StrategyStatus::Paused, StrategyStatus::Deprecated] {
        let mut s = strategy(lending(), 0, 0);
        s.status = status;
        let mut p = pool(1, 2, 3, 4, 5, 6);
        let (strategy_before, position_before) = (s, p);
        assert_eq!(extract_from_protocol(&mut s, &mut p, 1_000, 400), Err(ErrorCode::StrategyNotFound));
        assert!(same_strategy(&s, &strategy_before));
        assert!(same_position(&p, &position_before));
    }
    for protocol in [lending(), farming(), staking(100)] {
        let mut s = strategy(protocol, 0, 0);
        let mut p = pool(1, 2, 3, 4, 5, 6);
        let (strategy_before, position_before) = (s, p);
        assert_eq!(extract_from_protocol(&mut s, &mut p, 1_000, 400), Err(ErrorCode::InsufficientBalance));
        assert!(same_strategy(&s, &strategy_before));
        assert!(same_position(&p, &position_before));
    }
}

#[test]
fn extraction_goes_by_the_protocol() {
    let mut p = pool(4_000_000_000, 2_000_000_000, 1_000_000, 250_000, 2_000_000, 1_000_000);

    let mut s = strategy(lending(), 50_000_000, 0);
    let r = extract_from_protocol(&mut s, &mut p, 1_000, 400).unwrap();
    assert_eq!(r.extraction_type, ExtractionType::LendingWithdrawal);
    assert_eq!(r.extracted_amount, 40_000_000);

    let mut s = strategy(lending(), 10_000_000, 0);
    assert_eq!(extract_from_protocol(&mut s, &mut p, 1_000, 400), Ok(nothing_extracted()));

    let mut p = pool(4_000_000_000, 2_000_000_000, 1_000_000, 250_000, 2_000_000, 1_000_000);
    let mut s = strategy(farming(), 10_000_000_000, 0);
    let r = extract_from_protocol(&mut s, &mut p, 1_000, 400).unwrap();
    assert_eq!(r.extraction_type, ExtractionType::LiquidityWithdrawal);
    assert_eq!(r.extracted_amount, 1_492_500_000);
    assert_eq!(p.platform_controlled_lp, 0);

    let mut s = strategy(staking(500), 5_000_000_000, 10);
    let r = extract_from_protocol(&mut s, &mut p, 1_000, 400).unwrap();
    assert_eq!(r.extraction_type, ExtractionType::StakingUnstake);
    assert_eq!(r.extracted_amount, 4_655_000_000);
    assert_eq!(s.current_balance, 0);
}

#[test]
fn opening_an_extraction_checks_the_batch() {
    let mut p = Portfolio {
        manager: id(1),
        rebalance_threshold: 25,
        total_strategies: 4,
        total_capital_moved: 99,
        last_rebalance: 0,
        min_rebalance_interval: 3600,
        portfolio_creation: 0,
        emergency_pause: false,
        performance_fee_bps: 200,
    };
    let ids: Vec<Address> = (1..=11).map(id).collect();
    assert_eq!(extract_capital(&mut p, &ids[..0]), Err(ErrorCode::InsufficientStrategies));
    assert_eq!(extract_capital(&mut p, &ids[..1]), Ok(()));
    assert_eq!(extract_capital(&mut p, &ids[..10]), Ok(()));
    assert_eq!(extract_capital(&mut p, &ids), Err(ErrorCode::TooManyStrategies));
    assert_eq!(p.total_capital_moved, 99);
    p.emergency_pause = true;
    assert_eq!(extract_capital(&mut p, &ids[..0]), Err(ErrorCode::EmergencyPaused));
    assert_eq!(extract_capital(&mut p, &ids[..1]), Err(ErrorCode::EmergencyPaused));
    assert_eq!(p.total_capital_moved, 99);
}
