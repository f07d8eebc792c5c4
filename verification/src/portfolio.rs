//! Opening a portfolio, registering strategies in it, and gating its
//! ranking cycles.

use vstd::prelude::*;
use crate::address::Address;
use crate::error::ErrorCode;
use crate::state::{Portfolio, ProtocolType, Strategy, StrategyStatus, BALANCE_LIMIT};

verus! {

/// Performance fee of a new portfolio, in basis points: 2%.
pub const DEFAULT_PERFORMANCE_FEE_BPS: u16 = 200;

/// Volatility score of a strategy before its first update: 50%.
pub const INITIAL_VOLATILITY_SCORE: u32 = 5_000;

/// Percentile rank of a strategy before its first ranking: the median.
pub const INITIAL_PERCENTILE_RANK: u8 = 50;

/// What stands against opening a portfolio, if anything. The tests, in
/// this order: a zero manager (`InvalidManager`), the cutoff
/// (`InvalidRebalanceThreshold`), the interval (`InvalidRebalanceInterval`).
pub open spec fn initialization_fault(
    manager: Address,
    rebalance_threshold: u8,
    min_rebalance_interval: i64,
) -> Option<ErrorCode> {
    if manager.is_zero() {
        Some(ErrorCode::InvalidManager)
    } else if !(1 <= rebalance_threshold <= 50) {
        Some(ErrorCode::InvalidRebalanceThreshold)
    } else if !(3600 <= min_rebalance_interval <= 86400) {
        Some(ErrorCode::InvalidRebalanceInterval)
    } else {
        None
    }
}

/// Opens a portfolio at `current_time`: no strategies, no capital moved,
/// not paused, the default performance fee, and the last cycle taken to be
/// now.
pub fn initialize_portfolio(
    manager: Address,
    rebalance_threshold: u8,
    min_rebalance_interval: i64,
    current_time: i64,
) -> (r: Result<Portfolio, ErrorCode>)
    ensures
        match initialization_fault(manager, rebalance_threshold, min_rebalance_interval) {
            Some(e) => r == Err::<Portfolio, ErrorCode>(e),
            None => r == Ok::<Portfolio, ErrorCode>(
                Portfolio {
                    manager,
                    rebalance_threshold,
                    total_strategies: 0,
                    total_capital_moved: 0,
                    last_rebalance: current_time,
                    min_rebalance_interval,
                    portfolio_creation: current_time,
                    emergency_pause: false,
                    performance_fee_bps: DEFAULT_PERFORMANCE_FEE_BPS,
                },
            ),
        },
        r is Ok ==> r->Ok_0.is_well_formed(),
{
    if manager.is_default() {
        return Err(ErrorCode::InvalidManager);
    }
    match Portfolio::validate_rebalance_threshold(rebalance_threshold) {
        Ok(_) => {},
        Err(error) => {
            return Err(error);
        },
    }
    match Portfolio::validate_min_interval(min_rebalance_interval) {
        Ok(_) => {},
        Err(error) => {
            return Err(error);
        },
    }
    Ok(
        Portfolio {
            manager,
            rebalance_threshold,
            total_strategies: 0,
            total_capital_moved: 0,
            last_rebalance: current_time,
            min_rebalance_interval,
            portfolio_creation: current_time,
            emergency_pause: false,
            performance_fee_bps: DEFAULT_PERFORMANCE_FEE_BPS,
        },
    )
}

/// What stands against registering a strategy, if anything. The tests, in
/// this order: a paused portfolio (`EmergencyPaused`); a zero identifier
/// (`InvalidStrategyId`); an initial balance of zero (`InsufficientBalance`)
/// or at the balance limit (`BalanceOverflow`); the protocol's parameters;
/// an initial balance below the protocol's minimum (`InsufficientBalance`);
/// a strategy count that is full (`BalanceOverflow`).
pub open spec fn registration_fault(
    portfolio: Portfolio,
    strategy_id: Address,
    protocol_type: ProtocolType,
    initial_balance: u64,
) -> Option<ErrorCode> {
    if portfolio.emergency_pause {
        Some(ErrorCode::EmergencyPaused)
    } else if strategy_id.is_zero() {
        Some(ErrorCode::InvalidStrategyId)
    } else if initial_balance == 0 {
        Some(ErrorCode::InsufficientBalance)
    } else if initial_balance >= BALANCE_LIMIT {
        Some(ErrorCode::BalanceOverflow)
    } else if protocol_type.validation_fault() is Some {
        protocol_type.validation_fault()
    } else if initial_balance < protocol_type.minimum_balance_spec() {
        Some(ErrorCode::InsufficientBalance)
    } else if portfolio.total_strategies == u32::MAX {
        Some(ErrorCode::BalanceOverflow)
    } else {
        None
    }
}

/// Registers a strategy with the portfolio at `current_time` and returns
/// its record: active, holding the initial balance as its only deposit,
/// not yet scored, of middling volatility and rank. The portfolio counts
/// one strategy more. An error leaves the portfolio untouched.
pub fn register_strategy(
    portfolio: &mut Portfolio,
    strategy_id: Address,
    protocol_type: ProtocolType,
    initial_balance: u64,
    current_time: i64,
) -> (r: Result<Strategy, ErrorCode>)
    ensures
        match registration_fault(*old(portfolio), strategy_id, protocol_type, initial_balance) {
            Some(e) => r == Err::<Strategy, ErrorCode>(e) && *final(portfolio) == *old(portfolio),
            None => {
                &&& r == Ok::<Strategy, ErrorCode>(
                    Strategy {
                        strategy_id,
                        protocol_type,
                        current_balance: initial_balance,
                        yield_rate: 0,
                        volatility_score: INITIAL_VOLATILITY_SCORE,
                        performance_score: 0,
                        percentile_rank: INITIAL_PERCENTILE_RANK,
                        last_updated: current_time,
                        status: StrategyStatus::Active,
                        total_deposits: initial_balance,
                        total_withdrawals: 0,
                        creation_time: current_time,
                    },
                )
                &&& *final(portfolio) == (Portfolio {
                    total_strategies: (old(portfolio).total_strategies + 1) as u32,
                    ..*old(portfolio)
                })
            },
        },
        r is Ok ==> r->Ok_0.is_well_formed(),
        old(portfolio).is_well_formed() ==> final(portfolio).is_well_formed(),
{
    if portfolio.emergency_pause {
        return Err(ErrorCode::EmergencyPaused);
    }
    if strategy_id.is_default() {
        return Err(ErrorCode::InvalidStrategyId);
    }
    if initial_balance == 0 {
        return Err(ErrorCode::InsufficientBalance);
    }
    match Strategy::validate_balance_update(initial_balance) {
        Ok(_) => {},
        Err(error) => {
            return Err(error);
        },
    }
    match protocol_type.validate() {
        Ok(_) => {},
        Err(error) => {
            return Err(error);
        },
    }
    match protocol_type.validate_balance_constraints(initial_balance) {
        Ok(_) => {},
        Err(error) => {
            return Err(error);
        },
    }
    let total_strategies = match portfolio.total_strategies.checked_add(1) {
        Some(total) => total,
        None => {
            return Err(ErrorCode::BalanceOverflow);
        },
    };
    portfolio.total_strategies = total_strategies;
    Ok(
        Strategy {
            strategy_id,
            protocol_type,
            current_balance: initial_balance,
            yield_rate: 0,
            volatility_score: INITIAL_VOLATILITY_SCORE,
            performance_score: 0,
            percentile_rank: INITIAL_PERCENTILE_RANK,
            last_updated: current_time,
            status: StrategyStatus::Active,
            total_deposits: initial_balance,
            total_withdrawals: 0,
            creation_time: current_time,
        },
    )
}

/// The seconds from the last cycle to `current_time`, kept within the
/// 64-bit signed range.
pub open spec fn time_since_last_rebalance(portfolio: Portfolio, current_time: i64) -> int {
    let elapsed = current_time - portfolio.last_rebalance;
    if elapsed > i64::MAX {
        i64::MAX as int
    } else if elapsed < i64::MIN {
        i64::MIN as int
    } else {
        elapsed
    }
}

/// Starts a ranking cycle at `current_time`. Refused with
/// `EmergencyPaused` while the portfolio is paused, and with
/// `InvalidRebalanceInterval` before the minimum interval since the last
/// cycle has passed. On success the cycle is recorded as the last one;
/// nothing else changes.
pub fn execute_ranking_cycle(portfolio: &mut Portfolio, current_time: i64) -> (r: Result<
    (),
    ErrorCode,
>)
    ensures
        r == if old(portfolio).emergency_pause {
            Err::<(), ErrorCode>(ErrorCode::EmergencyPaused)
        } else if time_since_last_rebalance(*old(portfolio), current_time) < old(
            portfolio,
        ).min_rebalance_interval {
            Err(ErrorCode::InvalidRebalanceInterval)
        } else {
            Ok(())
        },
        r is Err ==> *final(portfolio) == *old(portfolio),
        r is Ok ==> *final(portfolio) == (Portfolio {
            last_rebalance: current_time,
            ..*old(portfolio)
        }),
        old(portfolio).is_well_formed() ==> final(portfolio).is_well_formed(),
{
    if portfolio.emergency_pause {
        return Err(ErrorCode::EmergencyPaused);
    }
    let elapsed: i128 = current_time as i128 - portfolio.last_rebalance as i128;
    let elapsed: i128 = if elapsed > i64::MAX as i128 {
        i64::MAX as i128
    } else if elapsed < i64::MIN as i128 {
        i64::MIN as i128
    } else {
        elapsed
    };
    if elapsed < portfolio.min_rebalance_interval as i128 {
        return Err(ErrorCode::InvalidRebalanceInterval);
    }
    portfolio.last_rebalance = current_time;
    Ok(())
}

} // verus!
