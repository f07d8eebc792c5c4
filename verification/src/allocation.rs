//! The allocation planner: fee carve-outs, performance-weighted shares under
//! diversification limits, minimum tickets, risk adjustment and dust.

use vstd::prelude::*;
use crate::address::Address;
use crate::error::ErrorCode;
use crate::math::{
    bps_of, lemma_share_within_amount, lemma_sum_fits, min_int, mul_div, saturating_sub_int, widening_mul,
};
use crate::allocation_proofs::{lemma_plan_recipients_distinct, lemma_plan_within_capital};
use crate::state::{AllocationType, CapitalAllocation, ProtocolType};
use crate::validation::{recipients_distinct, total_allocated};

verus! {

/// One whole, in basis points.
pub const BPS_DENOMINATOR: u64 = 10_000;

/// Risk multiplier of the most volatile strategy: 50%.
pub const MIN_RISK_MULTIPLIER: u32 = 5_000;

/// Risk multiplier of the least volatile strategy, and the ceiling of every
/// adjusted multiplier: 150%.
pub const MAX_RISK_MULTIPLIER: u32 = 15_000;

/// Leftover capital above this is added to a top performer's allocation.
pub const DUST_THRESHOLD: u64 = 1_000_000;

/// The first candidates, by position in the input, that count as top
/// performers; later ones diversify risk.
pub const TOP_PERFORMER_SLOTS: usize = 3;

/// What the planner reads of a candidate strategy.
#[derive(Clone, Copy, Debug)]
pub struct StrategyPerformanceData {
    pub strategy_id: Address,
    pub performance_score: u64,
    pub current_balance: u64,
    pub volatility_score: u32,
    pub protocol_type: ProtocolType,
    pub percentile_rank: u8,
}

/// Policy knobs of the planner.
#[derive(Clone, Copy, Debug)]
pub struct RiskLimits {
    /// Most of the available capital a single strategy may receive.
    pub max_single_strategy_bps: u64,
    /// A share below this part of the available capital is not funded.
    pub min_single_strategy_bps: u64,
    pub platform_fee_bps: u64,
    pub manager_fee_bps: u64,
    /// Scales every risk multiplier; 10000 leaves it unchanged.
    pub risk_tolerance_bps: u64,
    /// Receives the platform fee.
    pub platform_treasury: Address,
    /// Receives the manager fee.
    pub manager_treasury: Address,
}

impl RiskLimits {
    /// The limits used where none are given: at most 40% and at least 1% per
    /// strategy, 0.5% platform fee, 1.5% manager fee, 80% risk tolerance,
    /// both treasuries the zero identifier.
    pub open spec fn standard() -> RiskLimits {
        RiskLimits {
            max_single_strategy_bps: 4000,
            min_single_strategy_bps: 100,
            platform_fee_bps: 50,
            manager_fee_bps: 150,
            risk_tolerance_bps: 8000,
            platform_treasury: Address::zero(),
            manager_treasury: Address::zero(),
        }
    }
}

impl Default for RiskLimits {
    /// The standard limits.
    fn default() -> (r: RiskLimits)
        ensures
            r == RiskLimits::standard(),
    {
        RiskLimits {
            max_single_strategy_bps: 4000,
            min_single_strategy_bps: 100,
            platform_fee_bps: 50,
            manager_fee_bps: 150,
            risk_tolerance_bps: 8000,
            platform_treasury: Address::default(),
            manager_treasury: Address::default(),
        }
    }
}

/// The multiplier, in basis points, that a volatility score maps to before
/// the portfolio's tolerance is applied: 150% at volatility 0, falling by one
/// basis point per point of volatility to 50% at 10000 and above.
pub open spec fn risk_multiplier(volatility_score: u32) -> int {
    15_000 - min_int(volatility_score as int, 10_000)
}

/// The multiplier scaled by the risk tolerance and capped at 150%.
pub open spec fn risk_adjustment(volatility_score: u32, risk_tolerance_bps: u64) -> int {
    min_int(bps_of(risk_multiplier(volatility_score), risk_tolerance_bps as int), 15_000)
}

/// The risk-adjusted multiplier, in basis points, for a strategy of the given
/// volatility under the given limits.
pub fn calculate_risk_adjustment(volatility_score: u32, risk_limits: &RiskLimits) -> (r: u32)
    ensures
        r == risk_adjustment(volatility_score, risk_limits.risk_tolerance_bps),
        r <= MAX_RISK_MULTIPLIER,
{
    let volatility_percentage: u32 = if volatility_score < 10_000 {
        volatility_score
    } else {
        10_000
    };
    let inverse_volatility: u32 = 10_000 - volatility_percentage;
    let risk_multiplier: u32 = MIN_RISK_MULTIPLIER + inverse_volatility;
    let scaled: u128 = mul_div(risk_multiplier as u64, risk_limits.risk_tolerance_bps, 10_000);
    if scaled < MAX_RISK_MULTIPLIER as u128 {
        scaled as u32
    } else {
        MAX_RISK_MULTIPLIER
    }
}

/// Sum of the candidates' performance scores.
pub open spec fn total_score(candidates: Seq<StrategyPerformanceData>) -> int
    decreases candidates.len(),
{
    if candidates.len() == 0 {
        0
    } else {
        total_score(candidates.drop_last()) + candidates.last().performance_score
    }
}

/// The platform's fee on the available capital.
pub open spec fn platform_fee(capital: u64, limits: RiskLimits) -> int {
    bps_of(capital as int, limits.platform_fee_bps as int)
}

/// The manager's fee on the available capital.
pub open spec fn manager_fee(capital: u64, limits: RiskLimits) -> int {
    bps_of(capital as int, limits.manager_fee_bps as int)
}

/// What is left for the candidates once both fees are carved out.
pub open spec fn capital_after_fees(capital: u64, limits: RiskLimits) -> int {
    saturating_sub_int(
        saturating_sub_int(capital as int, platform_fee(capital, limits)),
        manager_fee(capital, limits),
    )
}

/// The fee entries that open every plan: the platform's, then the
/// manager's, each only where the fee is not zero.
pub open spec fn fee_allocations(capital: u64, limits: RiskLimits) -> Seq<CapitalAllocation> {
    let platform = if platform_fee(capital, limits) > 0 {
        seq![
            (CapitalAllocation {
                strategy_id: limits.platform_treasury,
                amount: platform_fee(capital, limits) as u64,
                allocation_type: AllocationType::PlatformFee,
            }),
        ]
    } else {
        Seq::empty()
    };
    if manager_fee(capital, limits) > 0 {
        platform.push(
            CapitalAllocation {
                strategy_id: limits.manager_treasury,
                amount: manager_fee(capital, limits) as u64,
                allocation_type: AllocationType::ManagerIncentive,
            },
        )
    } else {
        platform
    }
}

/// The candidate's share of `remaining` by performance, capped at the
/// largest single allocation.
pub open spec fn capped_share(
    remaining: int,
    capital: u64,
    total: int,
    candidate: StrategyPerformanceData,
    limits: RiskLimits,
) -> int {
    min_int(
        remaining * candidate.performance_score / total,
        bps_of(capital as int, limits.max_single_strategy_bps as int),
    )
}

/// What one candidate receives when `remaining` is left: nothing where its
/// capped share is below the smallest single allocation or below its
/// protocol's minimum ticket; else the share times its risk adjustment, and
/// at most `remaining`.
pub open spec fn candidate_amount(
    remaining: int,
    capital: u64,
    total: int,
    candidate: StrategyPerformanceData,
    limits: RiskLimits,
) -> int {
    let share = capped_share(remaining, capital, total, candidate, limits);
    if share < bps_of(capital as int, limits.min_single_strategy_bps as int) || share
        < candidate.protocol_type.minimum_balance_spec() {
        0
    } else {
        min_int(
            bps_of(share, risk_adjustment(candidate.volatility_score, limits.risk_tolerance_bps)),
            remaining,
        )
    }
}

/// Capital still unassigned once the first `n` candidates are processed.
pub open spec fn remaining_after(
    capital: u64,
    candidates: Seq<StrategyPerformanceData>,
    limits: RiskLimits,
    n: int,
) -> int
    decreases n,
{
    if n <= 0 {
        capital_after_fees(capital, limits)
    } else {
        let before = remaining_after(capital, candidates, limits, n - 1);
        before - candidate_amount(
            before,
            capital,
            total_score(candidates),
            candidates[n - 1],
            limits,
        )
    }
}

/// What the candidate at position `i` receives in the main pass.
pub open spec fn amount_at(
    capital: u64,
    candidates: Seq<StrategyPerformanceData>,
    limits: RiskLimits,
    i: int,
) -> int {
    candidate_amount(
        remaining_after(capital, candidates, limits, i),
        capital,
        total_score(candidates),
        candidates[i],
        limits,
    )
}

/// The kind of entry a candidate gets by its position in the input.
pub open spec fn allocation_type_at(i: int) -> AllocationType {
    if i < TOP_PERFORMER_SLOTS {
        AllocationType::TopPerformer
    } else {
        AllocationType::RiskDiversification
    }
}

/// The entries of the first `n` candidates, in input order; a candidate
/// that receives nothing has no entry.
pub open spec fn candidate_allocations(
    capital: u64,
    candidates: Seq<StrategyPerformanceData>,
    limits: RiskLimits,
    n: int,
) -> Seq<CapitalAllocation>
    decreases n,
{
    if n <= 0 {
        Seq::empty()
    } else {
        let earlier = candidate_allocations(capital, candidates, limits, n - 1);
        let amount = amount_at(capital, candidates, limits, n - 1);
        if amount > 0 {
            earlier.push(
                CapitalAllocation {
                    strategy_id: candidates[n - 1].strategy_id,
                    amount: amount as u64,
                    allocation_type: allocation_type_at(n - 1),
                },
            )
        } else {
            earlier
        }
    }
}

/// Entry `i` is the first top-performer entry of the list.
pub open spec fn is_first_top_performer(allocations: Seq<CapitalAllocation>, i: int) -> bool {
    &&& 0 <= i < allocations.len()
    &&& allocations[i].allocation_type == AllocationType::TopPerformer
    &&& forall|j: int|
        0 <= j < i ==> (#[trigger] allocations[j]).allocation_type != AllocationType::TopPerformer
}

/// Whether leftover `dust` is added to an entry: it must exceed the dust
/// threshold and the list must hold a top-performer entry.
pub open spec fn dust_is_absorbed(allocations: Seq<CapitalAllocation>, dust: int) -> bool {
    dust > DUST_THRESHOLD && exists|i: int| is_first_top_performer(allocations, i)
}

/// The list with `dust` added to its first top-performer entry, where
/// [`dust_is_absorbed`]; else the list as it is.
pub open spec fn absorb_dust(allocations: Seq<CapitalAllocation>, dust: int) -> Seq<
    CapitalAllocation,
> {
    if dust_is_absorbed(allocations, dust) {
        let i = choose|i: int| is_first_top_performer(allocations, i);
        allocations.update(
            i,
            CapitalAllocation {
                strategy_id: allocations[i].strategy_id,
                amount: (allocations[i].amount + dust) as u64,
                allocation_type: allocations[i].allocation_type,
            },
        )
    } else {
        allocations
    }
}

/// The plan for `capital` over `candidates`: fee entries, then candidate
/// entries, with leftover dust added to the first top performer.
pub open spec fn planned_allocations(
    capital: u64,
    candidates: Seq<StrategyPerformanceData>,
    limits: RiskLimits,
) -> Seq<CapitalAllocation> {
    absorb_dust(
        fee_allocations(capital, limits) + candidate_allocations(
            capital,
            candidates,
            limits,
            candidates.len() as int,
        ),
        remaining_after(capital, candidates, limits, candidates.len() as int),
    )
}

/// Why no plan can be made, if so: no capital, no candidates, a fee that
/// does not fit in 64 bits, or candidates whose scores are all zero, tested
/// in this order.
pub open spec fn planning_error(
    capital: u64,
    candidates: Seq<StrategyPerformanceData>,
    limits: RiskLimits,
) -> Option<ErrorCode> {
    if capital == 0 {
        Some(ErrorCode::InsufficientBalance)
    } else if candidates.len() == 0 {
        Some(ErrorCode::InsufficientStrategies)
    } else if platform_fee(capital, limits) > u64::MAX || manager_fee(capital, limits)
        > u64::MAX {
        Some(ErrorCode::BalanceOverflow)
    } else if total_score(candidates) == 0 {
        Some(ErrorCode::InvalidPerformanceScore)
    } else {
        None
    }
}

/// The candidate at position `i` receives an entry in the main pass.
pub open spec fn is_funded(
    capital: u64,
    candidates: Seq<StrategyPerformanceData>,
    limits: RiskLimits,
    i: int,
) -> bool {
    0 <= i < candidates.len() && amount_at(capital, candidates, limits, i) > 0
}

/// Capital that no entry of the plan carries: the leftover of the main
/// pass, unless it was added to a top performer.
pub open spec fn stranded_capital(
    capital: u64,
    candidates: Seq<StrategyPerformanceData>,
    limits: RiskLimits,
) -> int {
    let leftover = remaining_after(capital, candidates, limits, candidates.len() as int);
    if dust_is_absorbed(
        fee_allocations(capital, limits) + candidate_allocations(
            capital,
            candidates,
            limits,
            candidates.len() as int,
        ),
        leftover,
    ) {
        0
    } else {
        leftover
    }
}

/// `entry` is the entry that the candidate at position `i` received in the
/// main pass: it carries that candidate's identifier, the amount computed
/// for it, and the kind that its position gives it.
pub open spec fn entry_of_candidate(
    capital: u64,
    candidates: Seq<StrategyPerformanceData>,
    limits: RiskLimits,
    entry: CapitalAllocation,
    i: int,
) -> bool {
    &&& is_funded(capital, candidates, limits, i)
    &&& entry.strategy_id == candidates[i].strategy_id
    &&& entry.amount == amount_at(capital, candidates, limits, i)
    &&& entry.allocation_type == allocation_type_at(i)
}

/// `entry` is the entry of one of the first `n` candidates.
pub open spec fn is_candidate_entry(
    capital: u64,
    candidates: Seq<StrategyPerformanceData>,
    limits: RiskLimits,
    n: int,
    entry: CapitalAllocation,
) -> bool {
    exists|i: int|
        0 <= i < n && #[trigger] entry_of_candidate(capital, candidates, limits, entry, i)
}

/// `entry` is what the plan holds for the candidate at position `i`: it
/// names the candidate, is of the kind that the position gives, and carries
/// at least what the candidate received in the main pass.
pub open spec fn is_plan_entry_of(
    capital: u64,
    candidates: Seq<StrategyPerformanceData>,
    limits: RiskLimits,
    entry: CapitalAllocation,
    i: int,
) -> bool {
    &&& is_funded(capital, candidates, limits, i)
    &&& entry.strategy_id == candidates[i].strategy_id
    &&& entry.allocation_type == allocation_type_at(i)
    &&& entry.amount >= amount_at(capital, candidates, limits, i)
}

/// No two candidates that receive an entry share an identifier.
pub open spec fn funded_candidates_distinct(
    capital: u64,
    candidates: Seq<StrategyPerformanceData>,
    limits: RiskLimits,
) -> bool {
    forall|i: int, j: int|
        #![trigger
            is_funded(capital, candidates, limits, i),
            is_funded(capital, candidates, limits, j),
        ]
        i < j && is_funded(capital, candidates, limits, i) && is_funded(
            capital,
            candidates,
            limits,
            j,
        ) ==> candidates[i].strategy_id != candidates[j].strategy_id
}

/// The treasury that receives a fee entry is not a funded candidate, and
/// where both fees are paid the two treasuries differ.
pub open spec fn treasuries_apart(
    capital: u64,
    candidates: Seq<StrategyPerformanceData>,
    limits: RiskLimits,
) -> bool {
    &&& platform_fee(capital, limits) > 0 ==> forall|i: int|
        #[trigger] is_funded(capital, candidates, limits, i) ==> candidates[i].strategy_id
            != limits.platform_treasury
    &&& manager_fee(capital, limits) > 0 ==> forall|i: int|
        #[trigger] is_funded(capital, candidates, limits, i) ==> candidates[i].strategy_id
            != limits.manager_treasury
    &&& platform_fee(capital, limits) > 0 && manager_fee(capital, limits) > 0
        ==> limits.platform_treasury != limits.manager_treasury
}

/// Every candidate's score is part of the total, and the total is not
/// negative.
pub proof fn lemma_score_within_total(candidates: Seq<StrategyPerformanceData>, i: int)
    requires
        0 <= i < candidates.len(),
    ensures
        0 <= candidates[i].performance_score <= total_score(candidates),
    decreases candidates.len(),
{
    lemma_total_score_bounds(candidates.drop_last());
    if i < candidates.len() - 1 {
        lemma_score_within_total(candidates.drop_last(), i);
    }
}

/// The total of `n` scores lies between zero and `n` times the largest
/// 64-bit value.
pub proof fn lemma_total_score_bounds(candidates: Seq<StrategyPerformanceData>)
    ensures
        0 <= total_score(candidates) <= candidates.len() * u64::MAX,
    decreases candidates.len(),
{
    if candidates.len() > 0 {
        lemma_total_score_bounds(candidates.drop_last());
        assert((candidates.len() - 1) * u64::MAX + u64::MAX == candidates.len() * u64::MAX)
            by (nonlinear_arith);
    }
}

/// A candidate never receives more than is left, nor a negative amount.
pub proof fn lemma_candidate_amount_bounds(
    remaining: int,
    capital: u64,
    total: int,
    candidate: StrategyPerformanceData,
    limits: RiskLimits,
)
    requires
        0 <= remaining,
        0 < total,
    ensures
        0 <= candidate_amount(remaining, capital, total, candidate, limits) <= remaining,
{
    let share = capped_share(remaining, capital, total, candidate, limits);
    let adjustment = risk_adjustment(candidate.volatility_score, limits.risk_tolerance_bps);
    if !(share < bps_of(capital as int, limits.min_single_strategy_bps as int) || share
        < candidate.protocol_type.minimum_balance_spec()) {
        assert(share >= 0);
        assert(risk_multiplier(candidate.volatility_score) >= 5_000);
        assert(adjustment >= 0) by (nonlinear_arith)
            requires
                adjustment == min_int(
                    risk_multiplier(candidate.volatility_score) * limits.risk_tolerance_bps
                        / 10_000,
                    15_000,
                ),
                risk_multiplier(candidate.volatility_score) >= 5_000,
                limits.risk_tolerance_bps >= 0,
        ;
        assert(share * adjustment / 10_000 >= 0) by (nonlinear_arith)
            requires
                share >= 0,
                adjustment >= 0,
        ;
    }
}

/// Sum of the candidates' performance scores.
pub fn total_performance_score(candidates: &[StrategyPerformanceData]) -> (r: u128)
    ensures
        r == total_score(candidates@),
{
    let mut sum: u128 = 0;
    let mut i: usize = 0;
    while i < candidates.len()
        invariant
            i <= candidates.len(),
            sum == total_score(candidates@.take(i as int)),
        decreases candidates.len() - i,
    {
        proof {
            assert(candidates@.take(i + 1).drop_last() =~= candidates@.take(i as int));
            lemma_total_score_bounds(candidates@.take(i as int));
            lemma_sum_fits(i);
        }
        sum = sum + candidates[i].performance_score as u128;
        i = i + 1;
    }
    proof {
        assert(candidates@.take(i as int) =~= candidates@);
    }
    sum
}

/// Plans how `available_capital` is spread over `top_strategies`, taken in
/// the order given.
///
/// Fails, in this order, with `InsufficientBalance` where there is no
/// capital, `InsufficientStrategies` where there is no candidate,
/// `BalanceOverflow` where a fee does not fit in 64 bits, and
/// `InvalidPerformanceScore` where every score is zero. Otherwise the result
/// is exactly [`planned_allocations`].
///
/// Where the two fees together take no more than the whole, the amounts of
/// the plan add up to the available capital less what is stranded, and so
/// never to more than the available capital. Where the recipients are all
/// different, no two entries of the plan name the same one.
pub fn calculate_optimal_allocation(
    available_capital: u64,
    top_strategies: &[StrategyPerformanceData],
    risk_limits: &RiskLimits,
) -> (r: Result<Vec<CapitalAllocation>, ErrorCode>)
    ensures
        match planning_error(available_capital, top_strategies@, *risk_limits) {
            Some(e) => r == Err::<Vec<CapitalAllocation>, ErrorCode>(e),
            None => r is Ok && r->Ok_0@ == planned_allocations(
                available_capital,
                top_strategies@,
                *risk_limits,
            ),
        },
        r is Ok && risk_limits.platform_fee_bps + risk_limits.manager_fee_bps <= 10_000 ==> {
            &&& total_allocated(r->Ok_0@) == available_capital - stranded_capital(
                available_capital,
                top_strategies@,
                *risk_limits,
            )
            &&& total_allocated(r->Ok_0@) <= available_capital
        },
        r is Ok && funded_candidates_distinct(available_capital, top_strategies@, *risk_limits)
            && treasuries_apart(available_capital, top_strategies@, *risk_limits)
            ==> recipients_distinct(r->Ok_0@),
{
    if available_capital == 0 {
        return Err(ErrorCode::InsufficientBalance);
    }
    if top_strategies.len() == 0 {
        return Err(ErrorCode::InsufficientStrategies);
    }
    let platform_fee_wide = mul_div(
        available_capital,
        risk_limits.platform_fee_bps,
        BPS_DENOMINATOR,
    );
    let manager_fee_wide = mul_div(
        available_capital,
        risk_limits.manager_fee_bps,
        BPS_DENOMINATOR,
    );
    if platform_fee_wide > u64::MAX as u128 || manager_fee_wide > u64::MAX as u128 {
        return Err(ErrorCode::BalanceOverflow);
    }
    let total_performance_score = total_performance_score(top_strategies);
    if total_performance_score == 0 {
        return Err(ErrorCode::InvalidPerformanceScore);
    }
    let platform_fee = platform_fee_wide as u64;
    let manager_fee = manager_fee_wide as u64;

    let mut allocations: Vec<CapitalAllocation> = Vec::new();
    let mut remaining_capital = available_capital;
    if platform_fee > 0 {
        allocations.push(
            CapitalAllocation {
                strategy_id: risk_limits.platform_treasury,
                amount: platform_fee,
                allocation_type: AllocationType::PlatformFee,
            },
        );
        remaining_capital = remaining_capital.saturating_sub(platform_fee);
    }
    if manager_fee > 0 {
        allocations.push(
            CapitalAllocation {
                strategy_id: risk_limits.manager_treasury,
                amount: manager_fee,
                allocation_type: AllocationType::ManagerIncentive,
            },
        );
        remaining_capital = remaining_capital.saturating_sub(manager_fee);
    }
    let ghost fees = allocations@;
    assert(fees =~= fee_allocations(available_capital, *risk_limits));

    let max_single_allocation = mul_div(
        available_capital,
        risk_limits.max_single_strategy_bps,
        BPS_DENOMINATOR,
    );
    let min_single_allocation = mul_div(
        available_capital,
        risk_limits.min_single_strategy_bps,
        BPS_DENOMINATOR,
    );

    let mut index: usize = 0;
    while index < top_strategies.len()
        invariant
            index <= top_strategies.len(),
            total_performance_score == total_score(top_strategies@),
            total_performance_score > 0,
            max_single_allocation == bps_of(
                available_capital as int,
                risk_limits.max_single_strategy_bps as int,
            ),
            min_single_allocation == bps_of(
                available_capital as int,
                risk_limits.min_single_strategy_bps as int,
            ),
            remaining_capital == remaining_after(
                available_capital,
                top_strategies@,
                *risk_limits,
                index as int,
            ),
            fees == fee_allocations(available_capital, *risk_limits),
            allocations@ == fees + candidate_allocations(
                available_capital,
                top_strategies@,
                *risk_limits,
                index as int,
            ),
            forall|k: int|
                fees.len() <= k < allocations.len() ==> (#[trigger] allocations[k]).amount
                    + remaining_capital <= u64::MAX,
        decreases top_strategies.len() - index,
    {
        let strategy = &top_strategies[index];
        proof {
            lemma_score_within_total(top_strategies@, index as int);
            lemma_candidate_amount_bounds(
                remaining_capital as int,
                available_capital,
                total_performance_score as int,
                *strategy,
                *risk_limits,
            );
            lemma_share_within_amount(
                remaining_capital as int,
                strategy.performance_score as int,
                total_performance_score as int,
            );
        }
        let performance_allocation = widening_mul(remaining_capital, strategy.performance_score)
            / total_performance_score;
        let share: u64 = if performance_allocation > max_single_allocation {
            max_single_allocation as u64
        } else {
            performance_allocation as u64
        };
        assert(share == capped_share(
            remaining_capital as int,
            available_capital,
            total_performance_score as int,
            *strategy,
            *risk_limits,
        ));
        if (share as u128) >= min_single_allocation && share
            >= strategy.protocol_type.minimum_balance() {
            let risk_adjustment = calculate_risk_adjustment(
                strategy.volatility_score,
                risk_limits,
            );
            let adjusted = mul_div(share, risk_adjustment as u64, BPS_DENOMINATOR);
            let allocation_amount: u64 = if adjusted > remaining_capital as u128 {
                remaining_capital
            } else {
                adjusted as u64
            };
            if allocation_amount > 0 {
                let allocation_type = if index < TOP_PERFORMER_SLOTS {
                    AllocationType::TopPerformer
                } else {
                    AllocationType::RiskDiversification
                };
                allocations.push(
                    CapitalAllocation {
                        strategy_id: strategy.strategy_id,
                        amount: allocation_amount,
                        allocation_type,
                    },
                );
                remaining_capital = remaining_capital - allocation_amount;
            }
        }
        index = index + 1;
        proof {
            assert(allocations@ =~= fees + candidate_allocations(
                available_capital,
                top_strategies@,
                *risk_limits,
                index as int,
            ));
        }
    }

    if remaining_capital > DUST_THRESHOLD {
        let mut first: usize = 0;
        while first < allocations.len() && allocations[first].allocation_type
            != AllocationType::TopPerformer
            invariant
                first <= allocations.len(),
                forall|j: int|
                    0 <= j < first ==> (#[trigger] allocations[j]).allocation_type
                        != AllocationType::TopPerformer,
            decreases allocations.len() - first,
        {
            first = first + 1;
        }
        if first < allocations.len() {
            let top_allocation = allocations[first];
            proof {
                assert(is_first_top_performer(allocations@, first as int));
                assert(forall|j: int|
                    0 <= j < fees.len() ==> (#[trigger] allocations[j]).allocation_type
                        != AllocationType::TopPerformer);
                assert(first >= fees.len());
                let chosen = choose|i: int| is_first_top_performer(allocations@, i);
                assert(chosen == first);
            }
            allocations.set(
                first,
                CapitalAllocation {
                    strategy_id: top_allocation.strategy_id,
                    amount: top_allocation.amount + remaining_capital,
                    allocation_type: top_allocation.allocation_type,
                },
            );
        } else {
            proof {
                assert(forall|i: int| !is_first_top_performer(allocations@, i));
            }
        }
    }
    proof {
        if risk_limits.platform_fee_bps + risk_limits.manager_fee_bps <= 10_000 {
            lemma_plan_within_capital(available_capital, top_strategies@, *risk_limits);
        }
        if funded_candidates_distinct(available_capital, top_strategies@, *risk_limits)
            && treasuries_apart(available_capital, top_strategies@, *risk_limits) {
            lemma_plan_recipients_distinct(available_capital, top_strategies@, *risk_limits);
        }
    }
    Ok(allocations)
}

} // verus!
