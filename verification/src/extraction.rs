//! Capital extraction: what leaving a lending pool, a liquidity pool or a
//! stake returns, and how the strategy and position records change.

use vstd::prelude::*;
use crate::address::Address;
use crate::error::ErrorCode;
use crate::math::{lemma_floor_division, lemma_part_within_whole, lemma_ratio_bound, mul_div};
use crate::state::{
    CapitalPosition, Portfolio, ProtocolType, Strategy, StrategyStatus, RATIO_SCALE,
};

verus! {

/// What a lending position keeps back to cover the upkeep of its account.
pub const RENT_FLOOR: u64 = 10_000_000;

/// Slippage allowed on a pool withdrawal, in basis points: 0.5%.
pub const SLIPPAGE_BPS: u64 = 50;

/// Protocol fee on a pool withdrawal, in basis points: 0.3%.
pub const PROTOCOL_FEE_BPS: u64 = 30;

/// Penalty for unstaking at once, in basis points: 2%.
pub const UNSTAKE_PENALTY_BPS: u64 = 200;

/// Most strategies that one extraction may name.
pub const MAX_EXTRACTION_BATCH: usize = 10;

/// Which formula an extraction used.
#[derive(Clone, Copy, Debug, PartialEq, Eq, Structural)]
pub enum ExtractionType {
    /// Nothing was withdrawn.
    NoExtraction,
    LendingWithdrawal,
    LiquidityWithdrawal,
    StakingUnstake,
}

/// What an extraction returned.
#[derive(Clone, Copy, Debug, PartialEq, Eq, Structural)]
pub struct ExtractionResult {
    /// Capital freed, in base units.
    pub extracted_amount: u64,
    pub extraction_type: ExtractionType,
    /// Fees and penalties the withdrawal cost.
    pub fees_paid: u64,
}

/// The full effect of an extraction: what it returns and the two records as
/// it leaves them. Where the result is an error the records are those it was
/// given.
pub struct ExtractionOutcome {
    pub result: Result<ExtractionResult, ErrorCode>,
    pub strategy: Strategy,
    pub position: CapitalPosition,
}

/// The outcome of an extraction that is refused with `error`.
pub open spec fn refused(strategy: Strategy, position: CapitalPosition, error: ErrorCode)
    -> ExtractionOutcome {
    ExtractionOutcome { result: Err(error), strategy, position }
}

/// What a balance can give up: all above the rent floor.
pub open spec fn above_rent_floor(balance: u64) -> int {
    if balance > RENT_FLOOR {
        balance - RENT_FLOOR
    } else {
        0
    }
}

/// The outcome of withdrawing from a lending pool at `current_time`.
///
/// A balance within the rent floor is left alone. Otherwise all above the
/// floor leaves the strategy and is added to its lifetime withdrawals
/// (`BalanceOverflow` where that total does not fit in 64 bits); the
/// position's token amount falls by as much, to zero at the lowest.
pub open spec fn lending_outcome(strategy: Strategy, position: CapitalPosition, current_time: i64)
    -> ExtractionOutcome {
    let amount = above_rent_floor(strategy.current_balance);
    if amount == 0 {
        ExtractionOutcome {
            result: Ok(
                ExtractionResult {
                    extracted_amount: 0,
                    extraction_type: ExtractionType::NoExtraction,
                    fees_paid: 0,
                },
            ),
            strategy,
            position,
        }
    } else if strategy.total_withdrawals + amount > u64::MAX {
        refused(strategy, position, ErrorCode::BalanceOverflow)
    } else {
        ExtractionOutcome {
            result: Ok(
                ExtractionResult {
                    extracted_amount: amount as u64,
                    extraction_type: ExtractionType::LendingWithdrawal,
                    fees_paid: 0,
                },
            ),
            strategy: Strategy {
                current_balance: (strategy.current_balance - amount) as u64,
                total_withdrawals: (strategy.total_withdrawals + amount) as u64,
                ..strategy
            },
            position: CapitalPosition {
                token_a_amount: if position.token_a_amount >= amount {
                    (position.token_a_amount - amount) as u64
                } else {
                    0
                },
                last_rebalance: current_time,
                ..position
            },
        }
    }
}

/// Withdraws a lending position down to the rent floor.
///
/// A balance within the floor yields no extraction and changes nothing.
/// Above it, the strategy's balance falls by exactly the extracted amount
/// and its lifetime withdrawals rise by the same.
pub fn extract_from_lending(
    strategy: &mut Strategy,
    position: &mut CapitalPosition,
    current_time: i64,
) -> (r: Result<ExtractionResult, ErrorCode>)
    ensures
        r == lending_outcome(*old(strategy), *old(position), current_time).result,
        *final(strategy) == lending_outcome(*old(strategy), *old(position), current_time).strategy,
        *final(position) == lending_outcome(*old(strategy), *old(position), current_time).position,
        old(strategy).current_balance <= RENT_FLOOR ==> {
            &&& r is Ok
            &&& r->Ok_0.extracted_amount == 0
            &&& r->Ok_0.extraction_type == ExtractionType::NoExtraction
            &&& *final(strategy) == *old(strategy)
            &&& *final(position) == *old(position)
        },
        old(strategy).current_balance > RENT_FLOOR && r is Ok ==> {
            &&& r->Ok_0.extracted_amount == old(strategy).current_balance - RENT_FLOOR
            &&& r->Ok_0.extraction_type == ExtractionType::LendingWithdrawal
            &&& final(strategy).current_balance == old(strategy).current_balance
                - r->Ok_0.extracted_amount
            &&& final(strategy).total_withdrawals == old(strategy).total_withdrawals
                + r->Ok_0.extracted_amount
        },
        r is Err ==> *final(strategy) == *old(strategy) && *final(position) == *old(position),
        old(strategy).is_well_formed() ==> final(strategy).is_well_formed(),
        old(position).is_well_formed() ==> final(position).is_well_formed(),
{
    let available_balance = strategy.current_balance;
    if available_balance <= RENT_FLOOR {
        return Ok(
            ExtractionResult {
                extracted_amount: 0,
                extraction_type: ExtractionType::NoExtraction,
                fees_paid: 0,
            },
        );
    }
    let extraction_amount = available_balance - RENT_FLOOR;
    let total_withdrawals = match strategy.total_withdrawals.checked_add(extraction_amount) {
        Some(total) => total,
        None => {
            return Err(ErrorCode::BalanceOverflow);
        },
    };
    strategy.current_balance = available_balance - extraction_amount;
    strategy.total_withdrawals = total_withdrawals;
    position.token_a_amount = position.token_a_amount.saturating_sub(extraction_amount);
    position.last_rebalance = current_time;
    Ok(
        ExtractionResult {
            extracted_amount: extraction_amount,
            extraction_type: ExtractionType::LendingWithdrawal,
            fees_paid: 0,
        },
    )
}

/// The platform's share of the pool tokens of a position, in basis points,
/// rounded down.
pub open spec fn platform_share_bps(position: CapitalPosition) -> int {
    position.platform_controlled_lp * 10_000 / (position.lp_tokens as int)
}

/// What the platform's share takes of a token amount of the position.
pub open spec fn share_withdrawal(amount: u64, position: CapitalPosition) -> int {
    amount * platform_share_bps(position) / 10_000
}

/// A withdrawal less the slippage allowance.
pub open spec fn after_slippage(withdrawal: int) -> int {
    withdrawal - withdrawal * SLIPPAGE_BPS / 10_000
}

/// What a pool withdrawal frees: both token withdrawals after slippage,
/// counted one for one.
pub open spec fn farming_extracted(position: CapitalPosition) -> int {
    after_slippage(share_withdrawal(position.token_a_amount, position)) + after_slippage(
        share_withdrawal(position.token_b_amount, position),
    )
}

/// The protocol fee on a pool withdrawal, taken on both token withdrawals
/// before slippage.
pub open spec fn farming_fees(position: CapitalPosition) -> int {
    (share_withdrawal(position.token_a_amount, position) + share_withdrawal(
        position.token_b_amount,
        position,
    )) * PROTOCOL_FEE_BPS / 10_000
}

/// The ratio of token A to token B withdrawn, after slippage, scaled by
/// 10^6; 10^6 where no token B is withdrawn.
pub open spec fn withdrawn_ratio(position: CapitalPosition) -> int {
    let a = after_slippage(share_withdrawal(position.token_a_amount, position));
    let b = after_slippage(share_withdrawal(position.token_b_amount, position));
    if b > 0 {
        a * 1_000_000 / b
    } else {
        1_000_000
    }
}

/// The ratio of the entry prices, scaled by 10^6; 10^6 where the entry price
/// of token B is not set.
pub open spec fn entry_ratio(position: CapitalPosition) -> int {
    if position.entry_price_b > 0 {
        position.entry_price_a * 1_000_000 / (position.entry_price_b as int)
    } else {
        1_000_000
    }
}

/// How far `current` is from `entry`, in percent of `entry`, rounded down.
pub open spec fn ratio_deviation_percent(current: int, entry: int) -> int {
    if current > entry {
        (current - entry) * 100 / entry
    } else if current < entry {
        (entry - current) * 100 / entry
    } else {
        0
    }
}

/// What stands against a pool withdrawal, if anything. The tests, in this
/// order: no pool tokens, none under platform control, or more under
/// platform control than the position holds (`InsufficientBalance`); an
/// extracted amount that does not fit in 64 bits (`BalanceOverflow`) or
/// exceeds the strategy's balance (`InsufficientBalance`); lifetime
/// withdrawals that would not fit in 64 bits (`BalanceOverflow`); an entry
/// ratio of zero against a withdrawn ratio that is not (`BalanceOverflow`);
/// a deviation of the withdrawn ratio from the entry ratio that the signed
/// 64-bit loss tracker cannot hold (`BalanceOverflow`).
pub open spec fn farming_fault(strategy: Strategy, position: CapitalPosition) -> Option<
    ErrorCode,
> {
    if position.lp_tokens == 0 || position.platform_controlled_lp == 0 {
        Some(ErrorCode::InsufficientBalance)
    } else if position.platform_controlled_lp > position.lp_tokens {
        Some(ErrorCode::InsufficientBalance)
    } else if farming_extracted(position) > u64::MAX {
        Some(ErrorCode::BalanceOverflow)
    } else if farming_extracted(position) > strategy.current_balance {
        Some(ErrorCode::InsufficientBalance)
    } else if strategy.total_withdrawals + farming_extracted(position) > u64::MAX {
        Some(ErrorCode::BalanceOverflow)
    } else if entry_ratio(position) == 0 && withdrawn_ratio(position) != 0 {
        Some(ErrorCode::BalanceOverflow)
    } else if ratio_deviation_percent(withdrawn_ratio(position), entry_ratio(position))
        > i64::MAX {
        Some(ErrorCode::BalanceOverflow)
    } else {
        None
    }
}

/// The outcome of withdrawing the platform's share of a liquidity pool at
/// `current_time`.
///
/// The share, in basis points, is taken of both token amounts. What is
/// freed is the two withdrawals after slippage; the fee is charged on them
/// before slippage. The platform's pool tokens all leave the position,
/// whatever slippage took. The loss tracker is set to the deviation of the
/// withdrawn ratio from the entry ratio, in percent, which is never
/// negative.
pub open spec fn farming_outcome(strategy: Strategy, position: CapitalPosition, current_time: i64)
    -> ExtractionOutcome {
    match farming_fault(strategy, position) {
        Some(error) => refused(strategy, position, error),
        None => ExtractionOutcome {
            result: Ok(
                ExtractionResult {
                    extracted_amount: farming_extracted(position) as u64,
                    extraction_type: ExtractionType::LiquidityWithdrawal,
                    fees_paid: farming_fees(position) as u64,
                },
            ),
            strategy: Strategy {
                current_balance: (strategy.current_balance - farming_extracted(position)) as u64,
                total_withdrawals: (strategy.total_withdrawals + farming_extracted(
                    position,
                )) as u64,
                ..strategy
            },
            position: CapitalPosition {
                token_a_amount: (position.token_a_amount - share_withdrawal(
                    position.token_a_amount,
                    position,
                )) as u64,
                token_b_amount: (position.token_b_amount - share_withdrawal(
                    position.token_b_amount,
                    position,
                )) as u64,
                lp_tokens: (position.lp_tokens - position.platform_controlled_lp) as u64,
                platform_controlled_lp: 0,
                last_rebalance: current_time,
                impermanent_loss: ratio_deviation_percent(
                    withdrawn_ratio(position),
                    entry_ratio(position),
                ) as i64,
                ..position
            },
        },
    }
}

/// The platform's share of a token amount is proportional to its share of
/// the pool tokens, up to the two roundings: with `w` the withdrawal of an
/// amount `a`, `p` the platform's pool tokens and `t` all pool tokens,
/// `w * t` never exceeds `p * a` and falls short of it by less than
/// `t * (a + 10000) / 10000`.
pub proof fn lemma_share_withdrawal_proportional(amount: u64, position: CapitalPosition)
    requires
        0 < position.platform_controlled_lp <= position.lp_tokens,
    ensures
        0 <= platform_share_bps(position) <= 10_000,
        0 <= share_withdrawal(amount, position) <= amount,
        share_withdrawal(amount, position) * position.lp_tokens
            <= position.platform_controlled_lp * amount,
        10_000 * (position.platform_controlled_lp * amount - share_withdrawal(amount, position)
            * position.lp_tokens) < position.lp_tokens * (amount + 10_000),
{
    let p = position.platform_controlled_lp as int;
    let t = position.lp_tokens as int;
    let a = amount as int;
    let share = platform_share_bps(position);
    let w = share_withdrawal(amount, position);
    assert(0 <= p * 10_000) by (nonlinear_arith)
        requires
            0 <= p,
    ;
    lemma_floor_division(p * 10_000, t);
    assert(share <= 10_000) by (nonlinear_arith)
        requires
            share * t <= p * 10_000,
            p <= t,
            0 < t,
    ;
    assert(0 <= a * share) by (nonlinear_arith)
        requires
            0 <= a,
            0 <= share,
    ;
    lemma_floor_division(a * share, 10_000);
    lemma_part_within_whole(a, share);
    assert(w * t <= p * a && 10_000 * (p * a - w * t) < t * (a + 10_000)) by (nonlinear_arith)
        requires
            share * t <= p * 10_000 < (share + 1) * t,
            w * 10_000 <= a * share < (w + 1) * 10_000,
            0 <= a,
            0 < t,
            0 <= share,
            0 <= w,
    {
        assert(w * 10_000 * t <= a * share * t);
        assert(a * (share * t) <= a * (p * 10_000));
        assert(a * (p * 10_000) < a * ((share + 1) * t) + 1 || a == 0);
        assert((w + 1) * 10_000 * t > a * share * t);
    }
}

/// Withdraws the platform's share of a liquidity pool, as
/// [`farming_outcome`] says. An error leaves both records untouched.
///
/// What leaves each token amount is proportional to the platform's share
/// of the pool tokens, up to the two roundings.
pub fn extract_from_yield_farming(
    strategy: &mut Strategy,
    position: &mut CapitalPosition,
    current_time: i64,
) -> (r: Result<ExtractionResult, ErrorCode>)
    ensures
        r == farming_outcome(*old(strategy), *old(position), current_time).result,
        *final(strategy) == farming_outcome(*old(strategy), *old(position), current_time).strategy,
        *final(position) == farming_outcome(*old(strategy), *old(position), current_time).position,
        r is Ok <==> farming_fault(*old(strategy), *old(position)) is None,
        r is Ok ==> {
            &&& final(position).platform_controlled_lp == 0
            &&& final(position).impermanent_loss == ratio_deviation_percent(
                withdrawn_ratio(*old(position)),
                entry_ratio(*old(position)),
            )
            &&& final(position).impermanent_loss >= 0
            &&& final(strategy).current_balance == old(strategy).current_balance
                - r->Ok_0.extracted_amount
            &&& final(strategy).total_withdrawals == old(strategy).total_withdrawals
                + r->Ok_0.extracted_amount
        },
        r is Ok ==> ({
            let pool_tokens = old(position).lp_tokens as int;
            let platform_tokens = old(position).platform_controlled_lp as int;
            let held_a = old(position).token_a_amount as int;
            let held_b = old(position).token_b_amount as int;
            let withdrawn_a = held_a - final(position).token_a_amount;
            let withdrawn_b = held_b - final(position).token_b_amount;
            &&& 0 <= withdrawn_a * pool_tokens <= platform_tokens * held_a
            &&& 10_000 * (platform_tokens * held_a - withdrawn_a * pool_tokens) < pool_tokens * (
            held_a + 10_000)
            &&& 0 <= withdrawn_b * pool_tokens <= platform_tokens * held_b
            &&& 10_000 * (platform_tokens * held_b - withdrawn_b * pool_tokens) < pool_tokens * (
            held_b + 10_000)
        }),
        r is Err ==> *final(strategy) == *old(strategy) && *final(position) == *old(position),
        old(strategy).is_well_formed() ==> final(strategy).is_well_formed(),
        old(position).is_well_formed() ==> final(position).is_well_formed(),
{
    if position.lp_tokens == 0 || position.platform_controlled_lp == 0 {
        return Err(ErrorCode::InsufficientBalance);
    }
    if position.platform_controlled_lp > position.lp_tokens {
        return Err(ErrorCode::InsufficientBalance);
    }
    let total_lp_supply = position.lp_tokens;
    let platform_lp_tokens = position.platform_controlled_lp;
    proof {
        lemma_share_withdrawal_proportional(position.token_a_amount, *position);
        lemma_share_withdrawal_proportional(position.token_b_amount, *position);
        lemma_part_within_whole(share_withdrawal(position.token_a_amount, *position), 50);
        lemma_part_within_whole(share_withdrawal(position.token_b_amount, *position), 50);
    }
    let withdrawal_percentage = mul_div(platform_lp_tokens, 10_000, total_lp_supply);
    let withdrawal_percentage = withdrawal_percentage as u64;
    let token_a_withdrawal = mul_div(position.token_a_amount, withdrawal_percentage, 10_000) as u64;
    let token_b_withdrawal = mul_div(position.token_b_amount, withdrawal_percentage, 10_000) as u64;

    let token_a_after_slippage = token_a_withdrawal - mul_div(
        token_a_withdrawal,
        SLIPPAGE_BPS,
        10_000,
    ) as u64;
    let token_b_after_slippage = token_b_withdrawal - mul_div(
        token_b_withdrawal,
        SLIPPAGE_BPS,
        10_000,
    ) as u64;
    let total_fees = ((token_a_withdrawal as u128 + token_b_withdrawal as u128)
        * PROTOCOL_FEE_BPS as u128 / 10_000) as u64;

    let total_extracted = match token_a_after_slippage.checked_add(token_b_after_slippage) {
        Some(total) => total,
        None => {
            return Err(ErrorCode::BalanceOverflow);
        },
    };
    let current_balance = match strategy.current_balance.checked_sub(total_extracted) {
        Some(balance) => balance,
        None => {
            return Err(ErrorCode::InsufficientBalance);
        },
    };
    let total_withdrawals = match strategy.total_withdrawals.checked_add(total_extracted) {
        Some(total) => total,
        None => {
            return Err(ErrorCode::BalanceOverflow);
        },
    };

    let current_ratio: u128 = if token_b_after_slippage > 0 {
        mul_div(token_a_after_slippage, RATIO_SCALE, token_b_after_slippage)
    } else {
        1_000_000
    };
    let entry_ratio: u128 = if position.entry_price_b > 0 {
        mul_div(position.entry_price_a, RATIO_SCALE, position.entry_price_b)
    } else {
        1_000_000
    };
    proof {
        lemma_ratio_bound(token_a_after_slippage, token_b_after_slippage);
        lemma_ratio_bound(position.entry_price_a, position.entry_price_b);
    }
    let il_percentage: u128 = if current_ratio > entry_ratio {
        if entry_ratio == 0 {
            return Err(ErrorCode::BalanceOverflow);
        }
        (current_ratio - entry_ratio) * 100 / entry_ratio
    } else if current_ratio < entry_ratio {
        (entry_ratio - current_ratio) * 100 / entry_ratio
    } else {
        0
    };
    if il_percentage > i64::MAX as u128 {
        return Err(ErrorCode::BalanceOverflow);
    }

    strategy.current_balance = current_balance;
    strategy.total_withdrawals = total_withdrawals;
    position.token_a_amount = position.token_a_amount - token_a_withdrawal;
    position.token_b_amount = position.token_b_amount - token_b_withdrawal;
    position.lp_tokens = total_lp_supply - platform_lp_tokens;
    position.platform_controlled_lp = 0;
    position.last_rebalance = current_time;
    position.impermanent_loss = il_percentage as i64;

    Ok(
        ExtractionResult {
            extracted_amount: total_extracted,
            extraction_type: ExtractionType::LiquidityWithdrawal,
            fees_paid: total_fees,
        },
    )
}

/// The penalty for unstaking `staked` at once.
pub open spec fn unstake_penalty(staked: u64) -> int {
    staked * UNSTAKE_PENALTY_BPS / 10_000
}

/// The validator's commission, at `commission` basis points, on what is
/// left of `staked` after the penalty.
pub open spec fn unstake_commission(staked: u64, commission: u16) -> int {
    (staked - unstake_penalty(staked)) * commission / 10_000
}

/// What unstaking `staked` pays out: the stake less penalty and commission.
pub open spec fn unstake_payout(staked: u64, commission: u16) -> int {
    staked - unstake_penalty(staked) - unstake_commission(staked, commission)
}

/// What stands against unstaking, if anything. The tests, in this order: a
/// strategy that is no stake (`InvalidProtocolType`); a commission above the
/// penalized stake (`InsufficientBalance`); lifetime withdrawals, or accrued
/// fees, that would not fit in 64 bits (`BalanceOverflow`).
pub open spec fn staking_fault(strategy: Strategy, position: CapitalPosition) -> Option<
    ErrorCode,
> {
    match strategy.protocol_type {
        ProtocolType::LiquidStaking { commission, .. } => {
            let staked = strategy.current_balance;
            if unstake_payout(staked, commission) < 0 {
                Some(ErrorCode::InsufficientBalance)
            } else if strategy.total_withdrawals + unstake_payout(staked, commission)
                > u64::MAX {
                Some(ErrorCode::BalanceOverflow)
            } else if position.accrued_fees + unstake_commission(staked, commission)
                > u64::MAX {
                Some(ErrorCode::BalanceOverflow)
            } else {
                None
            }
        },
        _ => Some(ErrorCode::InvalidProtocolType),
    }
}

/// The outcome of unstaking the whole balance of a stake at once, at
/// `current_time`.
///
/// The full balance leaves the strategy. The payout is added to the
/// strategy's lifetime withdrawals and becomes the position's token amount;
/// the commission is added to the position's accrued fees; penalty and
/// commission together are the fees paid. The protocol's unstaking delay
/// plays no part.
pub open spec fn staking_outcome(strategy: Strategy, position: CapitalPosition, current_time: i64)
    -> ExtractionOutcome {
    match staking_fault(strategy, position) {
        Some(error) => refused(strategy, position, error),
        None => {
            let staked = strategy.current_balance;
            let commission = strategy.protocol_type->LiquidStaking_commission;
            ExtractionOutcome {
                result: Ok(
                    ExtractionResult {
                        extracted_amount: unstake_payout(staked, commission) as u64,
                        extraction_type: ExtractionType::StakingUnstake,
                        fees_paid: (unstake_penalty(staked) + unstake_commission(
                            staked,
                            commission,
                        )) as u64,
                    },
                ),
                strategy: Strategy {
                    current_balance: 0,
                    total_withdrawals: (strategy.total_withdrawals + unstake_payout(
                        staked,
                        commission,
                    )) as u64,
                    ..strategy
                },
                position: CapitalPosition {
                    token_a_amount: unstake_payout(staked, commission) as u64,
                    accrued_fees: (position.accrued_fees + unstake_commission(
                        staked,
                        commission,
                    )) as u64,
                    last_rebalance: current_time,
                    ..position
                },
            }
        },
    }
}

/// Unstakes the whole balance of a stake at once, as [`staking_outcome`]
/// says. An error leaves both records untouched.
///
/// `current_epoch` is the epoch in which unstaking is asked for. Withdrawal
/// is immediate, at the price of the penalty, so the outcome does not depend
/// on the epoch nor on the protocol's unstaking delay.
pub fn extract_from_staking(
    strategy: &mut Strategy,
    position: &mut CapitalPosition,
    current_time: i64,
    current_epoch: u64,
) -> (r: Result<ExtractionResult, ErrorCode>)
    ensures
        r == staking_outcome(*old(strategy), *old(position), current_time).result,
        *final(strategy) == staking_outcome(*old(strategy), *old(position), current_time).strategy,
        *final(position) == staking_outcome(*old(strategy), *old(position), current_time).position,
        r is Ok <==> staking_fault(*old(strategy), *old(position)) is None,
        r is Ok ==> r->Ok_0.extracted_amount + r->Ok_0.fees_paid == old(
            strategy,
        ).current_balance,
        r is Err ==> *final(strategy) == *old(strategy) && *final(position) == *old(position),
        old(strategy).is_well_formed() ==> final(strategy).is_well_formed(),
        old(position).is_well_formed() ==> final(position).is_well_formed(),
{
    let staked_amount = strategy.current_balance;
    let (commission, unstake_delay) = match strategy.protocol_type {
        ProtocolType::LiquidStaking { commission, unstake_delay, .. } => (commission, unstake_delay),
        _ => {
            return Err(ErrorCode::InvalidProtocolType);
        },
    };
    // A deferred unstake would settle in this epoch. Withdrawal is immediate,
    // so nothing below depends on it.
    let _unstake_epoch: u64 = current_epoch.saturating_add(unstake_delay as u64);
    proof {
        lemma_part_within_whole(staked_amount as int, 200);
    }
    let penalty_amount = mul_div(staked_amount, UNSTAKE_PENALTY_BPS, 10_000) as u64;
    let net_withdrawal = staked_amount - penalty_amount;
    let commission_fee = mul_div(net_withdrawal, commission as u64, 10_000);
    if commission_fee > net_withdrawal as u128 {
        return Err(ErrorCode::InsufficientBalance);
    }
    let commission_fee = commission_fee as u64;
    let final_amount = net_withdrawal - commission_fee;
    let total_withdrawals = match strategy.total_withdrawals.checked_add(final_amount) {
        Some(total) => total,
        None => {
            return Err(ErrorCode::BalanceOverflow);
        },
    };
    let accrued_fees = match position.accrued_fees.checked_add(commission_fee) {
        Some(total) => total,
        None => {
            return Err(ErrorCode::BalanceOverflow);
        },
    };

    strategy.current_balance = 0;
    strategy.total_withdrawals = total_withdrawals;
    position.token_a_amount = final_amount;
    position.accrued_fees = accrued_fees;
    position.last_rebalance = current_time;

    Ok(
        ExtractionResult {
            extracted_amount: final_amount,
            extraction_type: ExtractionType::StakingUnstake,
            fees_paid: penalty_amount + commission_fee,
        },
    )
}

/// The outcome of extracting from a strategy by its protocol: refused with
/// `StrategyNotFound` unless the strategy is active and with
/// `InsufficientBalance` where its balance is zero; else the outcome of the
/// protocol's own extraction.
pub open spec fn extraction_outcome(
    strategy: Strategy,
    position: CapitalPosition,
    current_time: i64,
) -> ExtractionOutcome {
    if strategy.status != StrategyStatus::Active {
        refused(strategy, position, ErrorCode::StrategyNotFound)
    } else if strategy.current_balance == 0 {
        refused(strategy, position, ErrorCode::InsufficientBalance)
    } else {
        match strategy.protocol_type {
            ProtocolType::StableLending { .. } => lending_outcome(
                strategy,
                position,
                current_time,
            ),
            ProtocolType::YieldFarming { .. } => farming_outcome(
                strategy,
                position,
                current_time,
            ),
            ProtocolType::LiquidStaking { .. } => staking_outcome(
                strategy,
                position,
                current_time,
            ),
        }
    }
}

/// Extracts capital from an active strategy by the rules of its protocol,
/// as [`extraction_outcome`] says. An error leaves both records untouched.
///
/// `current_time` and `current_epoch` are the caller's reading of the clock;
/// only unstaking takes the epoch, and its outcome does not depend on it.
pub fn extract_from_protocol(
    strategy: &mut Strategy,
    position: &mut CapitalPosition,
    current_time: i64,
    current_epoch: u64,
) -> (r: Result<ExtractionResult, ErrorCode>)
    ensures
        r == extraction_outcome(*old(strategy), *old(position), current_time).result,
        *final(strategy) == extraction_outcome(
            *old(strategy),
            *old(position),
            current_time,
        ).strategy,
        *final(position) == extraction_outcome(
            *old(strategy),
            *old(position),
            current_time,
        ).position,
        old(strategy).status != StrategyStatus::Active ==> r == Err::<
            ExtractionResult,
            ErrorCode,
        >(ErrorCode::StrategyNotFound),
        r is Err ==> *final(strategy) == *old(strategy) && *final(position) == *old(position),
        old(strategy).is_well_formed() ==> final(strategy).is_well_formed(),
        old(position).is_well_formed() ==> final(position).is_well_formed(),
{
    if strategy.status != StrategyStatus::Active {
        return Err(ErrorCode::StrategyNotFound);
    }
    if strategy.current_balance == 0 {
        return Err(ErrorCode::InsufficientBalance);
    }
    match strategy.protocol_type {
        ProtocolType::StableLending { .. } => extract_from_lending(
            strategy,
            position,
            current_time,
        ),
        ProtocolType::YieldFarming { .. } => extract_from_yield_farming(
            strategy,
            position,
            current_time,
        ),
        ProtocolType::LiquidStaking { .. } => extract_from_staking(
            strategy,
            position,
            current_time,
            current_epoch,
        ),
    }
}

/// Opens an extraction over the named strategies. Refused with
/// `EmergencyPaused` while the portfolio is paused, with
/// `InsufficientStrategies` where no strategy is named and with
/// `TooManyStrategies` where more than [`MAX_EXTRACTION_BATCH`] are. Opening
/// moves no capital: the portfolio's counters stay as they are.
pub fn extract_capital(portfolio: &mut Portfolio, strategy_ids: &[Address]) -> (r: Result<
    (),
    ErrorCode,
>)
    ensures
        *final(portfolio) == *old(portfolio),
        r == if old(portfolio).emergency_pause {
            Err::<(), ErrorCode>(ErrorCode::EmergencyPaused)
        } else if strategy_ids@.len() == 0 {
            Err(ErrorCode::InsufficientStrategies)
        } else if strategy_ids@.len() > MAX_EXTRACTION_BATCH {
            Err(ErrorCode::TooManyStrategies)
        } else {
            Ok(())
        },
{
    if portfolio.emergency_pause {
        return Err(ErrorCode::EmergencyPaused);
    }
    if strategy_ids.len() == 0 {
        return Err(ErrorCode::InsufficientStrategies);
    }
    if strategy_ids.len() > MAX_EXTRACTION_BATCH {
        return Err(ErrorCode::TooManyStrategies);
    }
    let total_extracted: u64 = 0;
    match portfolio.total_capital_moved.checked_add(total_extracted) {
        Some(total) => {
            portfolio.total_capital_moved = total;
            Ok(())
        },
        None => Err(ErrorCode::BalanceOverflow),
    }
}

} // verus!
