//! What holds of every plan the allocation planner produces.

use vstd::prelude::*;
use crate::allocation::{
    allocation_type_at, amount_at, candidate_allocations, capital_after_fees, capped_share,
    dust_is_absorbed, entry_of_candidate, fee_allocations, funded_candidates_distinct,
    is_candidate_entry, is_first_top_performer, is_funded, is_plan_entry_of,
    lemma_candidate_amount_bounds,
    lemma_score_within_total, lemma_total_score_bounds, manager_fee, planned_allocations,
    planning_error, platform_fee, remaining_after, risk_adjustment, stranded_capital, total_score,
    treasuries_apart, RiskLimits, StrategyPerformanceData, DUST_THRESHOLD,
};
use crate::math::{bps_of, lemma_share_within_amount};
use crate::state::{AllocationType, CapitalAllocation};
use crate::validation::{recipients_distinct, total_allocated};

verus! {

/// The total of two lists joined is the sum of their totals.
pub proof fn lemma_total_allocated_concat(a: Seq<CapitalAllocation>, b: Seq<CapitalAllocation>)
    ensures
        total_allocated(a + b) == total_allocated(a) + total_allocated(b),
    decreases b.len(),
{
    if b.len() == 0 {
        assert(a + b =~= a);
    } else {
        assert((a + b).drop_last() =~= a + b.drop_last());
        lemma_total_allocated_concat(a, b.drop_last());
    }
}

/// Replacing one entry changes the total by the difference of the amounts.
pub proof fn lemma_total_allocated_update(
    a: Seq<CapitalAllocation>,
    i: int,
    entry: CapitalAllocation,
)
    requires
        0 <= i < a.len(),
    ensures
        total_allocated(a.update(i, entry)) == total_allocated(a) - a[i].amount + entry.amount,
    decreases a.len(),
{
    if i == a.len() - 1 {
        assert(a.update(i, entry).drop_last() =~= a.drop_last());
    } else {
        assert(a.update(i, entry).drop_last() =~= a.drop_last().update(i, entry));
        lemma_total_allocated_update(a.drop_last(), i, entry);
    }
}

/// No entry exceeds the total of its list.
pub proof fn lemma_entry_within_total(a: Seq<CapitalAllocation>, i: int)
    requires
        0 <= i < a.len(),
    ensures
        0 <= a[i].amount <= total_allocated(a),
    decreases a.len(),
{
    lemma_total_allocated_nonnegative(a.drop_last());
    if i < a.len() - 1 {
        lemma_entry_within_total(a.drop_last(), i);
    }
}

/// A total is never negative.
pub proof fn lemma_total_allocated_nonnegative(a: Seq<CapitalAllocation>)
    ensures
        0 <= total_allocated(a),
    decreases a.len(),
{
    if a.len() > 0 {
        lemma_total_allocated_nonnegative(a.drop_last());
    }
}

/// The main pass never assigns more than the fees left over: after any
/// number of candidates the unassigned capital is between zero and the
/// capital after fees, and it only shrinks.
pub proof fn lemma_remaining_bounds(
    capital: u64,
    candidates: Seq<StrategyPerformanceData>,
    limits: RiskLimits,
    n: int,
)
    requires
        total_score(candidates) > 0,
        0 <= n <= candidates.len(),
    ensures
        0 <= remaining_after(capital, candidates, limits, n) <= capital_after_fees(
            capital,
            limits,
        ) <= capital,
        n > 0 ==> remaining_after(capital, candidates, limits, n) <= remaining_after(
            capital,
            candidates,
            limits,
            n - 1,
        ),
        n > 0 ==> 0 <= amount_at(capital, candidates, limits, n - 1) <= remaining_after(
            capital,
            candidates,
            limits,
            n - 1,
        ),
    decreases n,
{
    if n > 0 {
        lemma_remaining_bounds(capital, candidates, limits, n - 1);
        lemma_candidate_amount_bounds(
            remaining_after(capital, candidates, limits, n - 1),
            capital,
            total_score(candidates),
            candidates[n - 1],
            limits,
        );
    }
}

/// What the first `n` candidates received and what is still unassigned
/// add up to the capital after fees.
pub proof fn lemma_candidates_conserve(
    capital: u64,
    candidates: Seq<StrategyPerformanceData>,
    limits: RiskLimits,
    n: int,
)
    requires
        total_score(candidates) > 0,
        0 <= n <= candidates.len(),
    ensures
        total_allocated(candidate_allocations(capital, candidates, limits, n)) + remaining_after(
            capital,
            candidates,
            limits,
            n,
        ) == capital_after_fees(capital, limits),
    decreases n,
{
    if n > 0 {
        lemma_candidates_conserve(capital, candidates, limits, n - 1);
        lemma_remaining_bounds(capital, candidates, limits, n - 1);
        lemma_remaining_bounds(capital, candidates, limits, n);
        let earlier = candidate_allocations(capital, candidates, limits, n - 1);
        let amount = amount_at(capital, candidates, limits, n - 1);
        if amount > 0 {
            let entry = CapitalAllocation {
                strategy_id: candidates[n - 1].strategy_id,
                amount: amount as u64,
                allocation_type: allocation_type_at(n - 1),
            };
            assert(earlier.push(entry).drop_last() =~= earlier);
        }
    }
}

/// Every entry of the main pass is the entry of a funded candidate.
pub proof fn lemma_candidate_entries(
    capital: u64,
    candidates: Seq<StrategyPerformanceData>,
    limits: RiskLimits,
    n: int,
)
    requires
        total_score(candidates) > 0,
        0 <= n <= candidates.len(),
    ensures
        forall|k: int|
            0 <= k < candidate_allocations(capital, candidates, limits, n).len()
                ==> is_candidate_entry(
                capital,
                candidates,
                limits,
                n,
                #[trigger] candidate_allocations(capital, candidates, limits, n)[k],
            ),
    decreases n,
{
    if n > 0 {
        lemma_candidate_entries(capital, candidates, limits, n - 1);
        lemma_remaining_bounds(capital, candidates, limits, n - 1);
        lemma_remaining_bounds(capital, candidates, limits, n);
        let earlier = candidate_allocations(capital, candidates, limits, n - 1);
        let current = candidate_allocations(capital, candidates, limits, n);
        assert forall|k: int| 0 <= k < current.len() implies is_candidate_entry(
            capital,
            candidates,
            limits,
            n,
            #[trigger] current[k],
        ) by {
            if k < earlier.len() {
                assert(current[k] == earlier[k]);
                assert(is_candidate_entry(capital, candidates, limits, n - 1, earlier[k]));
                let i = choose|i: int|
                    0 <= i < n - 1 && #[trigger] entry_of_candidate(
                        capital,
                        candidates,
                        limits,
                        earlier[k],
                        i,
                    );
                assert(entry_of_candidate(capital, candidates, limits, current[k], i));
            } else {
                assert(entry_of_candidate(capital, candidates, limits, current[k], n - 1));
            }
        }
    }
}

/// Two fees that together take no more than the whole leave the rest of
/// the capital to the candidates.
pub proof fn lemma_fees_within_capital(capital: u64, limits: RiskLimits)
    requires
        limits.platform_fee_bps + limits.manager_fee_bps <= 10_000,
    ensures
        0 <= platform_fee(capital, limits),
        0 <= manager_fee(capital, limits),
        platform_fee(capital, limits) + manager_fee(capital, limits) <= capital,
        capital_after_fees(capital, limits) == capital - platform_fee(capital, limits)
            - manager_fee(capital, limits),
        total_allocated(fee_allocations(capital, limits)) == platform_fee(capital, limits)
            + manager_fee(capital, limits),
{
    let c = capital as int;
    let p = limits.platform_fee_bps as int;
    let m = limits.manager_fee_bps as int;
    assert(0 <= c * p / 10_000 && 0 <= c * m / 10_000 && c * p / 10_000 + c * m / 10_000 <= c)
        by (nonlinear_arith)
        requires
            0 <= c,
            0 <= p,
            0 <= m,
            p + m <= 10_000,
    ;
    lemma_fee_total(capital, limits);
}

/// The fee entries add up to the two fees, where each fits in 64 bits.
proof fn lemma_fee_total(capital: u64, limits: RiskLimits)
    requires
        0 <= platform_fee(capital, limits) <= u64::MAX,
        0 <= manager_fee(capital, limits) <= u64::MAX,
    ensures
        total_allocated(fee_allocations(capital, limits)) == platform_fee(capital, limits)
            + manager_fee(capital, limits),
{
    let fees = fee_allocations(capital, limits);
    if fees.len() == 2 {
        let first = fees.drop_last();
        assert(first.len() == 1);
        assert(first.drop_last().len() == 0);
        assert(total_allocated(first.drop_last()) == 0);
        assert(first.last() == fees[0]);
        assert(total_allocated(first) == fees[0].amount);
    } else if fees.len() == 1 {
        assert(fees.drop_last().len() == 0);
        assert(total_allocated(fees.drop_last()) == 0);
    }
}

/// The amounts of a plan add up to the available capital less what is
/// stranded, and so never to more than the available capital, provided the
/// two fees together take no more than the whole. Capital is stranded only
/// where the leftover of the main pass is within the dust threshold or the
/// plan has no top-performer entry to take it.
pub proof fn lemma_plan_within_capital(
    capital: u64,
    candidates: Seq<StrategyPerformanceData>,
    limits: RiskLimits,
)
    requires
        planning_error(capital, candidates, limits) is None,
        limits.platform_fee_bps + limits.manager_fee_bps <= 10_000,
    ensures
        0 <= stranded_capital(capital, candidates, limits) <= capital,
        total_allocated(planned_allocations(capital, candidates, limits)) == capital
            - stranded_capital(capital, candidates, limits),
        total_allocated(planned_allocations(capital, candidates, limits)) <= capital,
        stranded_capital(capital, candidates, limits) > DUST_THRESHOLD ==> forall|k: int|
            0 <= k < planned_allocations(capital, candidates, limits).len() ==> (
            #[trigger] planned_allocations(capital, candidates, limits)[k]).allocation_type
                != AllocationType::TopPerformer,
{
    let n = candidates.len() as int;
    let fees = fee_allocations(capital, limits);
    let entries = candidate_allocations(capital, candidates, limits, n);
    let base = fees + entries;
    let leftover = remaining_after(capital, candidates, limits, n);
    lemma_total_score_bounds(candidates);
    lemma_fees_within_capital(capital, limits);
    lemma_remaining_bounds(capital, candidates, limits, n);
    lemma_candidates_conserve(capital, candidates, limits, n);
    lemma_total_allocated_concat(fees, entries);
    lemma_dust_fits(capital, candidates, limits);
    if dust_is_absorbed(base, leftover) {
        let i = choose|i: int| is_first_top_performer(base, i);
        let grown = CapitalAllocation {
            strategy_id: base[i].strategy_id,
            amount: (base[i].amount + leftover) as u64,
            allocation_type: base[i].allocation_type,
        };
        lemma_total_allocated_update(base, i, grown);
    } else {
        if leftover > DUST_THRESHOLD {
            assert forall|k: int| 0 <= k < base.len() implies (#[trigger] base[k]).allocation_type
                != AllocationType::TopPerformer by {
                if base[k].allocation_type == AllocationType::TopPerformer {
                    lemma_first_top_performer_exists(base, k);
                }
            }
        }
    }
}

/// A list with a top-performer entry has a first one.
proof fn lemma_first_top_performer_exists(allocations: Seq<CapitalAllocation>, k: int)
    requires
        0 <= k < allocations.len(),
        allocations[k].allocation_type == AllocationType::TopPerformer,
    ensures
        exists|i: int| is_first_top_performer(allocations, i),
    decreases k,
{
    if forall|j: int|
        0 <= j < k ==> (#[trigger] allocations[j]).allocation_type
            != AllocationType::TopPerformer {
        assert(is_first_top_performer(allocations, k));
    } else {
        let j = choose|j: int|
            0 <= j < k && (#[trigger] allocations[j]).allocation_type
                == AllocationType::TopPerformer;
        lemma_first_top_performer_exists(allocations, j);
    }
}

/// Funded candidates with pairwise different identifiers get entries with
/// pairwise different recipients.
proof fn lemma_candidate_recipients_distinct(
    capital: u64,
    candidates: Seq<StrategyPerformanceData>,
    limits: RiskLimits,
    n: int,
)
    requires
        total_score(candidates) > 0,
        0 <= n <= candidates.len(),
        funded_candidates_distinct(capital, candidates, limits),
    ensures
        recipients_distinct(candidate_allocations(capital, candidates, limits, n)),
    decreases n,
{
    if n > 0 {
        lemma_candidate_recipients_distinct(capital, candidates, limits, n - 1);
        lemma_candidate_entries(capital, candidates, limits, n - 1);
        let earlier = candidate_allocations(capital, candidates, limits, n - 1);
        let current = candidate_allocations(capital, candidates, limits, n);
        assert forall|i: int, j: int|
            #![trigger current[i], current[j]]
            0 <= i < j < current.len() implies current[i].strategy_id
            != current[j].strategy_id by {
            if j < earlier.len() {
                assert(current[i] == earlier[i] && current[j] == earlier[j]);
            } else {
                assert(current[i] == earlier[i]);
                assert(is_candidate_entry(capital, candidates, limits, n - 1, earlier[i]));
                let source = choose|source: int|
                    0 <= source < n - 1 && #[trigger] entry_of_candidate(
                        capital,
                        candidates,
                        limits,
                        earlier[i],
                        source,
                    );
                assert(is_funded(capital, candidates, limits, source));
                assert(is_funded(capital, candidates, limits, n - 1));
            }
        }
    }
}

/// No two entries of a plan name the same recipient, provided the
/// recipients themselves are all different: the funded candidates among
/// each other, and the treasuries that are paid from them and from each
/// other.
pub proof fn lemma_plan_recipients_distinct(
    capital: u64,
    candidates: Seq<StrategyPerformanceData>,
    limits: RiskLimits,
)
    requires
        planning_error(capital, candidates, limits) is None,
        funded_candidates_distinct(capital, candidates, limits),
        treasuries_apart(capital, candidates, limits),
    ensures
        recipients_distinct(planned_allocations(capital, candidates, limits)),
{
    let n = candidates.len() as int;
    let fees = fee_allocations(capital, limits);
    let entries = candidate_allocations(capital, candidates, limits, n);
    let base = fees + entries;
    let leftover = remaining_after(capital, candidates, limits, n);
    let plan = planned_allocations(capital, candidates, limits);
    lemma_total_score_bounds(candidates);
    lemma_candidate_recipients_distinct(capital, candidates, limits, n);
    lemma_candidate_entries(capital, candidates, limits, n);
    assert forall|i: int, j: int|
        #![trigger base[i], base[j]]
        0 <= i < j < base.len() implies base[i].strategy_id != base[j].strategy_id by {
        if j >= fees.len() {
            let entry = entries[j - fees.len()];
            assert(base[j] == entry);
            if i >= fees.len() {
                assert(base[i] == entries[i - fees.len()]);
            } else {
                assert(is_candidate_entry(capital, candidates, limits, n, entry));
                let source = choose|source: int|
                    0 <= source < n && #[trigger] entry_of_candidate(
                        capital,
                        candidates,
                        limits,
                        entry,
                        source,
                    );
                assert(is_funded(capital, candidates, limits, source));
            }
        }
    }
    assert(plan.len() == base.len());
    assert forall|i: int, j: int|
        #![trigger plan[i], plan[j]]
        0 <= i < j < plan.len() implies plan[i].strategy_id != plan[j].strategy_id by {
        assert(plan[i].strategy_id == base[i].strategy_id);
        assert(plan[j].strategy_id == base[j].strategy_id);
    }
}

/// Where the leftover is added to an entry, that entry is a candidate's,
/// and entry and leftover together are within the capital after fees.
proof fn lemma_dust_fits(
    capital: u64,
    candidates: Seq<StrategyPerformanceData>,
    limits: RiskLimits,
)
    requires
        planning_error(capital, candidates, limits) is None,
    ensures
        ({
            let fees = fee_allocations(capital, limits);
            let base = fees + candidate_allocations(
                capital,
                candidates,
                limits,
                candidates.len() as int,
            );
            let leftover = remaining_after(capital, candidates, limits, candidates.len() as int);
            let i = choose|i: int| is_first_top_performer(base, i);
            dust_is_absorbed(base, leftover) ==> {
                &&& fees.len() <= i < base.len()
                &&& base[i].amount + leftover <= capital_after_fees(capital, limits) <= capital
            }
        }),
{
    let n = candidates.len() as int;
    let fees = fee_allocations(capital, limits);
    let entries = candidate_allocations(capital, candidates, limits, n);
    let base = fees + entries;
    let leftover = remaining_after(capital, candidates, limits, n);
    lemma_total_score_bounds(candidates);
    lemma_remaining_bounds(capital, candidates, limits, n);
    lemma_candidates_conserve(capital, candidates, limits, n);
    if dust_is_absorbed(base, leftover) {
        let i = choose|i: int| is_first_top_performer(base, i);
        assert(i >= fees.len());
        assert(base[i] == entries[i - fees.len()]);
        lemma_entry_within_total(entries, i - fees.len());
    }
}

/// Adding the leftover to a top performer changes neither the recipients
/// nor the kinds of the entries, and lowers no amount.
proof fn lemma_dust_only_adds(
    capital: u64,
    candidates: Seq<StrategyPerformanceData>,
    limits: RiskLimits,
)
    requires
        planning_error(capital, candidates, limits) is None,
    ensures
        ({
            let n = candidates.len() as int;
            let base = fee_allocations(capital, limits) + candidate_allocations(
                capital,
                candidates,
                limits,
                n,
            );
            let plan = planned_allocations(capital, candidates, limits);
            &&& plan.len() == base.len()
            &&& forall|k: int|
                0 <= k < plan.len() ==> {
                    &&& (#[trigger] plan[k]).strategy_id == base[k].strategy_id
                    &&& plan[k].allocation_type == base[k].allocation_type
                    &&& plan[k].amount >= base[k].amount
                }
        }),
{
    let n = candidates.len() as int;
    let fees = fee_allocations(capital, limits);
    let entries = candidate_allocations(capital, candidates, limits, n);
    let base = fees + entries;
    let leftover = remaining_after(capital, candidates, limits, n);
    lemma_dust_fits(capital, candidates, limits);
}

/// Every entry of a plan that is no fee entry is held for a funded
/// candidate. That candidate's capped share reached the minimum ticket of
/// its protocol; and where its risk adjustment does not shrink the share,
/// so does the amount of the entry.
pub proof fn lemma_plan_entry_meets_ticket(
    capital: u64,
    candidates: Seq<StrategyPerformanceData>,
    limits: RiskLimits,
    k: int,
) -> (i: int)
    requires
        planning_error(capital, candidates, limits) is None,
        0 <= k < planned_allocations(capital, candidates, limits).len(),
        planned_allocations(capital, candidates, limits)[k].allocation_type
            == AllocationType::TopPerformer || planned_allocations(
            capital,
            candidates,
            limits,
        )[k].allocation_type == AllocationType::RiskDiversification,
    ensures
        is_plan_entry_of(
            capital,
            candidates,
            limits,
            planned_allocations(capital, candidates, limits)[k],
            i,
        ),
        capped_share(
            remaining_after(capital, candidates, limits, i),
            capital,
            total_score(candidates),
            candidates[i],
            limits,
        ) >= candidates[i].protocol_type.minimum_balance_spec(),
        risk_adjustment(candidates[i].volatility_score, limits.risk_tolerance_bps) >= 10_000
            ==> planned_allocations(capital, candidates, limits)[k].amount
            >= candidates[i].protocol_type.minimum_balance_spec(),
{
    let n = candidates.len() as int;
    let fees = fee_allocations(capital, limits);
    let entries = candidate_allocations(capital, candidates, limits, n);
    let base = fees + entries;
    let plan = planned_allocations(capital, candidates, limits);
    lemma_total_score_bounds(candidates);
    lemma_dust_only_adds(capital, candidates, limits);
    lemma_candidate_entries(capital, candidates, limits, n);
    assert(plan[k].allocation_type == base[k].allocation_type);
    assert(k >= fees.len());
    let entry = entries[k - fees.len()];
    assert(base[k] == entry);
    assert(is_candidate_entry(capital, candidates, limits, n, entry));
    let i = choose|i: int|
        0 <= i < n && #[trigger] entry_of_candidate(capital, candidates, limits, entry, i);
    lemma_funded_meets_ticket(capital, candidates, limits, i);
    i
}

/// A candidate is funded only where its capped share reaches both the
/// smallest single allocation and its protocol's minimum ticket. Where its
/// risk adjustment does not shrink the share, the amount it receives in the
/// main pass reaches the minimum ticket too.
pub proof fn lemma_funded_meets_ticket(
    capital: u64,
    candidates: Seq<StrategyPerformanceData>,
    limits: RiskLimits,
    i: int,
)
    requires
        planning_error(capital, candidates, limits) is None,
        is_funded(capital, candidates, limits, i),
    ensures
        capped_share(
            remaining_after(capital, candidates, limits, i),
            capital,
            total_score(candidates),
            candidates[i],
            limits,
        ) >= candidates[i].protocol_type.minimum_balance_spec(),
        capped_share(
            remaining_after(capital, candidates, limits, i),
            capital,
            total_score(candidates),
            candidates[i],
            limits,
        ) >= bps_of(capital as int, limits.min_single_strategy_bps as int),
        risk_adjustment(candidates[i].volatility_score, limits.risk_tolerance_bps) >= 10_000
            ==> amount_at(capital, candidates, limits, i)
            >= candidates[i].protocol_type.minimum_balance_spec(),
{
    let remaining = remaining_after(capital, candidates, limits, i);
    let total = total_score(candidates);
    let score = candidates[i].performance_score as int;
    let share = capped_share(remaining, capital, total, candidates[i], limits);
    let adjustment = risk_adjustment(candidates[i].volatility_score, limits.risk_tolerance_bps);
    lemma_total_score_bounds(candidates);
    lemma_remaining_bounds(capital, candidates, limits, i);
    lemma_score_within_total(candidates, i);
    lemma_share_within_amount(remaining, score, total);
    if adjustment >= 10_000 {
        assert(share * adjustment / 10_000 >= share) by (nonlinear_arith)
            requires
                share >= 0,
                adjustment >= 10_000,
        ;
    }
}

} // verus!
