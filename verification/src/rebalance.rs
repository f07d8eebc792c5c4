//! The rebalancing plan: which strategies give up capital, how much, and
//! where it goes.

use vstd::prelude::*;
use crate::address::Address;
use crate::allocation::{
    calculate_optimal_allocation, lemma_total_score_bounds, planned_allocations, planning_error,
    total_performance_score, total_score, RiskLimits, StrategyPerformanceData,
};
use crate::error::ErrorCode;
use crate::extraction::{above_rent_floor, RENT_FLOOR};
use crate::math::{lemma_part_within_whole, lemma_sum_fits, mul_div};
use crate::state::{CapitalAllocation, Portfolio};

verus! {

/// A strategy at or above this percentile is a top performer.
pub const TOP_PERFORMER_RANK: u8 = 75;

/// Most top performers that one plan spreads capital over.
pub const MAX_TOP_PERFORMERS: usize = 5;

/// A plan is made only for at least this much extractable capital: 0.1
/// unit.
pub const MIN_EXTRACTABLE: u64 = 100_000_000;

/// The flat estimate of what a rebalancing costs, in basis points: 2%.
pub const ESTIMATED_FEE_BPS: u64 = 200;

/// The part of the top performers' average score that a rebalancing is
/// expected to gain, in percent.
pub const IMPROVEMENT_PERCENT: u64 = 15;

/// One rebalancing cycle, planned: made afresh for each cycle and consumed
/// by it.
#[derive(Clone, Debug)]
pub struct RebalancingPlan {
    /// The strategies to extract capital from.
    pub extraction_targets: Vec<Address>,
    /// What they can give up in all.
    pub total_to_extract: u64,
    /// Where the extracted capital goes.
    pub redistribution_plan: Vec<CapitalAllocation>,
    pub estimated_fees: u64,
    /// The gain in performance score that the plan is expected to bring.
    pub expected_improvement: u64,
}

/// The test for an underperformer at the given percentile cutoff.
pub open spec fn ranks_below(threshold: u8) -> spec_fn(StrategyPerformanceData) -> bool {
    |s: StrategyPerformanceData| s.percentile_rank < threshold
}

/// The test for a top performer.
pub open spec fn ranks_top() -> spec_fn(StrategyPerformanceData) -> bool {
    |s: StrategyPerformanceData| s.percentile_rank >= TOP_PERFORMER_RANK
}

/// The first [`MAX_TOP_PERFORMERS`] of a list, or all of a shorter one.
pub open spec fn leading(list: Seq<StrategyPerformanceData>) -> Seq<StrategyPerformanceData> {
    if list.len() > MAX_TOP_PERFORMERS {
        list.take(MAX_TOP_PERFORMERS as int)
    } else {
        list
    }
}

/// The strategies ranked below the cutoff, in input order.
pub open spec fn underperformers(strategies: Seq<StrategyPerformanceData>, threshold: u8) -> Seq<
    StrategyPerformanceData,
> {
    strategies.filter(ranks_below(threshold))
}

/// The first five strategies, in input order, ranked in the top quarter.
pub open spec fn top_performers(strategies: Seq<StrategyPerformanceData>) -> Seq<
    StrategyPerformanceData,
> {
    leading(strategies.filter(ranks_top()))
}

/// What the given strategies can give up together: of each, its balance
/// above the rent floor.
pub open spec fn total_extractable(strategies: Seq<StrategyPerformanceData>) -> int
    decreases strategies.len(),
{
    if strategies.len() == 0 {
        0
    } else {
        total_extractable(strategies.drop_last()) + above_rent_floor(
            strategies.last().current_balance,
        )
    }
}

/// The identifiers of the given strategies, in order.
pub open spec fn identifiers(strategies: Seq<StrategyPerformanceData>) -> Seq<Address> {
    Seq::new(strategies.len(), |i: int| strategies[i].strategy_id)
}

/// The gain expected from moving capital to the given top performers: 15%
/// of their average score, both divisions rounded down; zero where there
/// are none.
pub open spec fn expected_improvement(top: Seq<StrategyPerformanceData>) -> int {
    if top.len() == 0 {
        0
    } else {
        (total_score(top) / (top.len() as int)) * IMPROVEMENT_PERCENT / 100
    }
}

/// Why no plan can be made for the portfolio, if so. The tests, in this
/// order: a paused portfolio (`EmergencyPaused`); no underperformer or no
/// top performer (`InsufficientStrategies`); extractable capital that does
/// not fit in 64 bits (`BalanceOverflow`) or is below [`MIN_EXTRACTABLE`]
/// (`InsufficientBalance`); whatever stands against
/// planning the allocation of that capital over the top performers under
/// the standard limits.
pub open spec fn rebalancing_fault(
    portfolio: Portfolio,
    strategies: Seq<StrategyPerformanceData>,
) -> Option<ErrorCode> {
    let under = underperformers(strategies, portfolio.rebalance_threshold);
    let top = top_performers(strategies);
    if portfolio.emergency_pause {
        Some(ErrorCode::EmergencyPaused)
    } else if under.len() == 0 || top.len() == 0 {
        Some(ErrorCode::InsufficientStrategies)
    } else if total_extractable(under) > u64::MAX {
        Some(ErrorCode::BalanceOverflow)
    } else if total_extractable(under) < MIN_EXTRACTABLE {
        Some(ErrorCode::InsufficientBalance)
    } else {
        planning_error(total_extractable(under) as u64, top, RiskLimits::standard())
    }
}

/// The gain expected from moving capital to the given top performers.
pub fn calculate_expected_improvement(top_performers: &[StrategyPerformanceData]) -> (r: u64)
    ensures
        r == expected_improvement(top_performers@),
{
    if top_performers.len() == 0 {
        return 0;
    }
    let total = total_performance_score(top_performers);
    let count = top_performers.len() as u128;
    let average_top_score = total / count;
    proof {
        lemma_total_score_bounds(top_performers@);
        assert(average_top_score <= u64::MAX) by (nonlinear_arith)
            requires
                average_top_score == total / count,
                0 <= total <= count * 0xffff_ffff_ffff_ffff,
                count > 0,
                u64::MAX == 0xffff_ffff_ffff_ffff,
        ;
    }
    mul_div(average_top_score as u64, IMPROVEMENT_PERCENT, 100) as u64
}

/// Plans one rebalancing cycle for the portfolio over the given strategies.
///
/// Capital is taken from the strategies ranked below the portfolio's
/// cutoff, of each its balance above the rent floor, and spread over the
/// first five strategies ranked in the top quarter, as the allocation
/// planner does under the standard limits. No plan is made for a paused
/// portfolio, nor where there is no underperformer, no top performer, or
/// less than [`MIN_EXTRACTABLE`] to extract.
pub fn execute_complete_rebalancing(
    portfolio: &Portfolio,
    strategies: &[StrategyPerformanceData],
) -> (r: Result<RebalancingPlan, ErrorCode>)
    ensures
        match rebalancing_fault(*portfolio, strategies@) {
            Some(e) => r == Err::<RebalancingPlan, ErrorCode>(e),
            None => r is Ok && ({
                let plan = r->Ok_0;
                let under = underperformers(strategies@, portfolio.rebalance_threshold);
                let top = top_performers(strategies@);
                &&& plan.extraction_targets@ == identifiers(under)
                &&& plan.total_to_extract == total_extractable(under)
                &&& plan.redistribution_plan@ == planned_allocations(
                    plan.total_to_extract,
                    top,
                    RiskLimits::standard(),
                )
                &&& plan.estimated_fees == plan.total_to_extract * ESTIMATED_FEE_BPS / 10_000
                &&& plan.expected_improvement == expected_improvement(top)
            }),
        },
        portfolio.emergency_pause ==> r is Err,
        underperformers(strategies@, portfolio.rebalance_threshold).len() == 0 ==> r is Err,
        top_performers(strategies@).len() == 0 ==> r is Err,
        total_extractable(underperformers(strategies@, portfolio.rebalance_threshold))
            < MIN_EXTRACTABLE ==> r is Err,
{
    if portfolio.emergency_pause {
        return Err(ErrorCode::EmergencyPaused);
    }
    let mut extraction_targets: Vec<Address> = Vec::new();
    let mut top_performers: Vec<StrategyPerformanceData> = Vec::new();
    let mut total_extractable_wide: u128 = 0;
    let ghost mut under: Seq<StrategyPerformanceData> = Seq::empty();
    let ghost mut top_all: Seq<StrategyPerformanceData> = Seq::empty();
    proof {
        reveal(Seq::filter);
        assert(strategies@.take(0).filter(ranks_below(portfolio.rebalance_threshold)) =~= under);
        assert(strategies@.take(0).filter(ranks_top()) =~= top_all);
        assert(identifiers(under) =~= extraction_targets@);
    }
    let mut i: usize = 0;
    while i < strategies.len()
        invariant
            i <= strategies.len(),
            under == strategies@.take(i as int).filter(ranks_below(portfolio.rebalance_threshold)),
            top_all == strategies@.take(i as int).filter(ranks_top()),
            under.len() <= i,
            extraction_targets@ == identifiers(under),
            top_performers@ == leading(top_all),
            total_extractable_wide == total_extractable(under),
            total_extractable_wide <= i * u64::MAX,
        decreases strategies.len() - i,
    {
        let strategy = strategies[i];
        proof {
            let prefix = strategies@.take(i as int);
            assert(strategies@.take(i + 1) =~= prefix.push(strategy));
            prefix.lemma_filter_push(strategy, ranks_below(portfolio.rebalance_threshold));
            prefix.lemma_filter_push(strategy, ranks_top());
            lemma_sum_fits(i);
        }
        if strategy.percentile_rank < portfolio.rebalance_threshold {
            extraction_targets.push(strategy.strategy_id);
            total_extractable_wide = total_extractable_wide + strategy.current_balance.saturating_sub(
                RENT_FLOOR,
            ) as u128;
            proof {
                assert(under.push(strategy).drop_last() =~= under);
                assert(identifiers(under.push(strategy)) =~= identifiers(under).push(
                    strategy.strategy_id,
                ));
                under = under.push(strategy);
            }
        }
        if strategy.percentile_rank >= TOP_PERFORMER_RANK {
            if top_performers.len() < MAX_TOP_PERFORMERS {
                top_performers.push(strategy);
            }
            proof {
                assert(leading(top_all.push(strategy)) =~= if top_all.len() < MAX_TOP_PERFORMERS {
                    leading(top_all).push(strategy)
                } else {
                    leading(top_all)
                });
                top_all = top_all.push(strategy);
            }
        }
        i = i + 1;
    }
    proof {
        assert(strategies@.take(i as int) =~= strategies@);
    }
    if extraction_targets.len() == 0 || top_performers.len() == 0 {
        return Err(ErrorCode::InsufficientStrategies);
    }
    if total_extractable_wide > u64::MAX as u128 {
        return Err(ErrorCode::BalanceOverflow);
    }
    let total_extractable = total_extractable_wide as u64;
    if total_extractable < MIN_EXTRACTABLE {
        return Err(ErrorCode::InsufficientBalance);
    }
    let risk_limits = RiskLimits::default();
    let allocations = match calculate_optimal_allocation(
        total_extractable,
        top_performers.as_slice(),
        &risk_limits,
    ) {
        Ok(allocations) => allocations,
        Err(error) => {
            return Err(error);
        },
    };
    proof {
        lemma_part_within_whole(total_extractable as int, 200);
    }
    let estimated_fees = mul_div(total_extractable, ESTIMATED_FEE_BPS, 10_000) as u64;
    let expected_improvement = calculate_expected_improvement(top_performers.as_slice());
    Ok(
        RebalancingPlan {
            extraction_targets,
            total_to_extract: total_extractable,
            redistribution_plan: allocations,
            estimated_fees,
            expected_improvement,
        },
    )
}

} // verus!
