//! The performance score: yield, capital size and volatility folded into
//! one number from 0 to 10000.

use vstd::prelude::*;
use crate::error::ErrorCode;
use crate::math::{
    bit_length, bit_length_u64, lemma_bit_length_monotonic, lemma_bit_length_of_two, min_int,
};
use crate::state::{
    Strategy, StrategyStatus, BALANCE_LIMIT, MAX_VOLATILITY_SCORE, MAX_YIELD_RATE,
};

verus! {

/// The largest score, and the top of every normalized scale.
pub const SCORE_SCALE: u64 = 10_000;

/// Weight of the yield in the score, in basis points.
pub const YIELD_WEIGHT_BPS: u64 = 4_500;

/// Weight of the balance in the score, in basis points.
pub const BALANCE_WEIGHT_BPS: u64 = 3_500;

/// Weight of the inverse volatility in the score, in basis points.
pub const VOLATILITY_WEIGHT_BPS: u64 = 2_000;

/// Balances below this, 0.1 unit, are scored on a linear ramp.
pub const BALANCE_FLOOR: u64 = 100_000_000;

/// Balances from this on, 100 units, get the full balance score.
pub const BALANCE_CAP: u64 = 100_000_000_000;

/// The yield on the scale from 0 to 10000: a fifth of the rate in basis
/// points, rounded to nearest, and 10000 above the largest rate.
pub open spec fn normalized_yield(yield_rate: u64) -> int {
    if yield_rate > 50_000 {
        10_000
    } else {
        (yield_rate * 10_000 + 25_000) / 50_000
    }
}

/// The balance on the scale from 0 to 10000. Below the floor, a ramp of one
/// point per 100000 base units, rounded to nearest. From the floor to the
/// cap, 1443 points for each doubling of the balance in whole tenths of a
/// unit, at most 10000. At the cap and above, 10000.
pub open spec fn normalized_balance(balance: u64) -> int {
    if balance == 0 {
        0
    } else if balance >= BALANCE_CAP {
        10_000
    } else if balance < BALANCE_FLOOR {
        (balance * 1_000 + 50_000_000) / 100_000_000
    } else {
        let tenths = (balance / BALANCE_FLOOR) as nat;
        if tenths <= 1 {
            0
        } else {
            min_int((bit_length(tenths) - 1) * 1_443, 10_000)
        }
    }
}

/// The calm of a strategy on the scale from 0 to 10000: what its
/// volatility, taken as at most 10000, leaves of 10000.
pub open spec fn normalized_inverse_volatility(volatility: u32) -> int {
    10_000 - min_int(volatility as int, 10_000)
}

/// A normalized value times its weight, rounded to nearest.
pub open spec fn weighted(normalized: int, weight_bps: int) -> int {
    (normalized * weight_bps + 5_000) / 10_000
}

/// The composite score: 45% yield, 35% balance, 20% inverse volatility.
pub open spec fn performance_score(yield_rate: u64, balance: u64, volatility: u32) -> int {
    weighted(normalized_yield(yield_rate), YIELD_WEIGHT_BPS as int) + weighted(
        normalized_balance(balance),
        BALANCE_WEIGHT_BPS as int,
    ) + weighted(normalized_inverse_volatility(volatility), VOLATILITY_WEIGHT_BPS as int)
}

/// Every normalized value is on the scale, and so is the score.
pub proof fn lemma_score_in_range(yield_rate: u64, balance: u64, volatility: u32)
    ensures
        0 <= normalized_yield(yield_rate) <= 10_000,
        0 <= normalized_balance(balance) <= 10_000,
        0 <= normalized_inverse_volatility(volatility) <= 10_000,
        0 <= performance_score(yield_rate, balance, volatility) <= 10_000,
{
    if BALANCE_FLOOR <= balance < BALANCE_CAP {
        let tenths = (balance / BALANCE_FLOOR) as nat;
        if tenths > 1 {
            lemma_bit_length_monotonic(2, tenths);
            lemma_bit_length_of_two();
        }
    }
}

/// A higher yield never lowers the score.
pub proof fn lemma_score_monotonic_in_yield(
    yield_low: u64,
    yield_high: u64,
    balance: u64,
    volatility: u32,
)
    requires
        yield_low <= yield_high,
    ensures
        performance_score(yield_low, balance, volatility) <= performance_score(
            yield_high,
            balance,
            volatility,
        ),
{
}

/// A higher volatility never raises the score.
pub proof fn lemma_score_antitonic_in_volatility(
    yield_rate: u64,
    balance: u64,
    volatility_low: u32,
    volatility_high: u32,
)
    requires
        volatility_low <= volatility_high,
    ensures
        performance_score(yield_rate, balance, volatility_high) <= performance_score(
            yield_rate,
            balance,
            volatility_low,
        ),
{
}

/// The one stretch on which a larger balance scores lower: the ramp below
/// the floor ends at 1000 points, while the doubling scale starts again at
/// zero and stays there up to twice the floor. A balance from 150000 up to
/// the floor thus outscores one from the floor up to twice the floor.
pub open spec fn straddles_balance_floor(balance_low: u64, balance_high: u64) -> bool {
    150_000 <= balance_low < BALANCE_FLOOR && BALANCE_FLOOR <= balance_high < 2 * BALANCE_FLOOR
}

/// A larger balance never lowers the score, except across the floor.
pub proof fn lemma_score_monotonic_in_balance(
    yield_rate: u64,
    balance_low: u64,
    balance_high: u64,
    volatility: u32,
)
    requires
        balance_low <= balance_high,
        !straddles_balance_floor(balance_low, balance_high),
    ensures
        performance_score(yield_rate, balance_low, volatility) <= performance_score(
            yield_rate,
            balance_high,
            volatility,
        ),
{
    lemma_score_in_range(yield_rate, balance_low, volatility);
    lemma_score_in_range(yield_rate, balance_high, volatility);
    let low = normalized_balance(balance_low);
    let high = normalized_balance(balance_high);
    if balance_low == 0 || balance_high >= BALANCE_CAP {
    } else if balance_high < BALANCE_FLOOR {
    } else if balance_low >= BALANCE_FLOOR {
        let tenths_low = (balance_low / BALANCE_FLOOR) as nat;
        let tenths_high = (balance_high / BALANCE_FLOOR) as nat;
        lemma_bit_length_monotonic(tenths_low, tenths_high);
        assert(low <= high) by (nonlinear_arith)
            requires
                low == if tenths_low <= 1 {
                    0
                } else {
                    min_int((bit_length(tenths_low) - 1) * 1_443, 10_000)
                },
                high == if tenths_high <= 1 {
                    0
                } else {
                    min_int((bit_length(tenths_high) - 1) * 1_443, 10_000)
                },
                tenths_low <= tenths_high,
                bit_length(tenths_low) <= bit_length(tenths_high),
                0 <= high,
        ;
    } else {
        // The low balance is on the ramp, the high one on the doubling scale.
        assert(low <= 1_000);
        if balance_high >= 2 * BALANCE_FLOOR {
            let tenths_high = (balance_high / BALANCE_FLOOR) as nat;
            lemma_bit_length_monotonic(2, tenths_high);
            lemma_bit_length_of_two();
            assert(high >= 1_443) by (nonlinear_arith)
                requires
                    high == min_int((bit_length(tenths_high) - 1) * 1_443, 10_000),
                    bit_length(tenths_high) >= 2,
            ;
        } else {
            assert(low <= 1);
        }
    }
}

/// Scores a strategy from its yield in basis points, its balance in base
/// units and its volatility. The result is [`performance_score`], which is
/// always on the scale from 0 to 10000, so the function never fails.
pub fn calculate_performance_score(yield_rate: u64, balance: u64, volatility: u32) -> (r: Result<
    u64,
    ErrorCode,
>)
    ensures
        r is Ok,
        r->Ok_0 == performance_score(yield_rate, balance, volatility),
        r->Ok_0 <= SCORE_SCALE,
{
    proof {
        lemma_score_in_range(yield_rate, balance, volatility);
    }
    let normalized_yield: u64 = if yield_rate > 50_000 {
        10_000
    } else {
        (yield_rate * 10_000 + 25_000) / 50_000
    };
    let normalized_balance: u64 = if balance == 0 {
        0
    } else if balance >= BALANCE_CAP {
        10_000
    } else if balance < BALANCE_FLOOR {
        (balance * 1_000 + 50_000_000) / 100_000_000
    } else {
        let balance_scaled = balance / BALANCE_FLOOR;
        if balance_scaled <= 1 {
            0
        } else {
            let bit_pos = bit_length_u64(balance_scaled) as u64;
            let log_scaled = bit_pos.saturating_sub(1) * 1_443;
            if log_scaled < 10_000 {
                log_scaled
            } else {
                10_000
            }
        }
    };
    let capped_volatility: u32 = if volatility < 10_000 {
        volatility
    } else {
        10_000
    };
    let normalized_inverse_volatility: u64 = (10_000 - capped_volatility) as u64;

    if normalized_yield > SCORE_SCALE || normalized_balance > SCORE_SCALE
        || normalized_inverse_volatility > SCORE_SCALE {
        return Err(ErrorCode::BalanceOverflow);
    }
    let yield_component = (normalized_yield * YIELD_WEIGHT_BPS + 5_000) / 10_000;
    let balance_component = (normalized_balance * BALANCE_WEIGHT_BPS + 5_000) / 10_000;
    let volatility_component = (normalized_inverse_volatility * VOLATILITY_WEIGHT_BPS + 5_000)
        / 10_000;
    let performance_score = yield_component + balance_component + volatility_component;
    if performance_score > SCORE_SCALE {
        return Err(ErrorCode::BalanceOverflow);
    }
    Ok(performance_score)
}

/// Checks that the score of the given metrics lies between `expected_min`
/// and `expected_max`, both included; `BalanceOverflow` where it does not.
pub fn validate_calculation_precision(
    yield_rate: u64,
    balance: u64,
    volatility: u32,
    expected_min: u64,
    expected_max: u64,
) -> (r: Result<(), ErrorCode>)
    ensures
        r == if expected_min <= performance_score(yield_rate, balance, volatility)
            <= expected_max {
            Ok::<(), ErrorCode>(())
        } else {
            Err(ErrorCode::BalanceOverflow)
        },
{
    match calculate_performance_score(yield_rate, balance, volatility) {
        Ok(score) => {
            if score >= expected_min && score <= expected_max {
                Ok(())
            } else {
                Err(ErrorCode::BalanceOverflow)
            }
        },
        Err(error) => Err(error),
    }
}

/// What stands against recording the given metrics for a strategy, if
/// anything. The tests, in this order: the yield rate (`ExcessiveYieldRate`),
/// the volatility score (`InvalidVolatilityScore`), the balance
/// (`BalanceOverflow`), and that the strategy is active
/// (`StrategyNotFound`).
pub open spec fn update_fault(
    strategy: Strategy,
    yield_rate: u64,
    volatility_score: u32,
    current_balance: u64,
) -> Option<ErrorCode> {
    if yield_rate > MAX_YIELD_RATE {
        Some(ErrorCode::ExcessiveYieldRate)
    } else if volatility_score > MAX_VOLATILITY_SCORE {
        Some(ErrorCode::InvalidVolatilityScore)
    } else if current_balance >= BALANCE_LIMIT {
        Some(ErrorCode::BalanceOverflow)
    } else if strategy.status != StrategyStatus::Active {
        Some(ErrorCode::StrategyNotFound)
    } else {
        None
    }
}

/// Records new metrics for a strategy at `current_time` and rescores it.
/// An error leaves the strategy untouched.
pub fn update_performance(
    strategy: &mut Strategy,
    yield_rate: u64,
    volatility_score: u32,
    current_balance: u64,
    current_time: i64,
) -> (r: Result<(), ErrorCode>)
    ensures
        r == crate::state::fault_to_result(
            update_fault(*old(strategy), yield_rate, volatility_score, current_balance),
        ),
        r is Err ==> *final(strategy) == *old(strategy),
        r is Ok ==> *final(strategy) == (Strategy {
            yield_rate,
            volatility_score,
            current_balance,
            last_updated: current_time,
            performance_score: performance_score(
                yield_rate,
                current_balance,
                volatility_score,
            ) as u64,
            ..*old(strategy)
        }),
        old(strategy).is_well_formed() ==> final(strategy).is_well_formed(),
{
    match Strategy::validate_yield_rate(yield_rate) {
        Ok(_) => {},
        Err(error) => {
            return Err(error);
        },
    }
    match Strategy::validate_volatility_score(volatility_score) {
        Ok(_) => {},
        Err(error) => {
            return Err(error);
        },
    }
    match Strategy::validate_balance_update(current_balance) {
        Ok(_) => {},
        Err(error) => {
            return Err(error);
        },
    }
    if strategy.status != StrategyStatus::Active {
        return Err(ErrorCode::StrategyNotFound);
    }
    let performance_score = match calculate_performance_score(
        yield_rate,
        current_balance,
        volatility_score,
    ) {
        Ok(score) => score,
        Err(error) => {
            return Err(error);
        },
    };
    strategy.yield_rate = yield_rate;
    strategy.volatility_score = volatility_score;
    strategy.current_balance = current_balance;
    strategy.last_updated = current_time;
    strategy.performance_score = performance_score;
    Ok(())
}

} // verus!
