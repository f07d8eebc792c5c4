//! The records the engine reads and updates: portfolio, strategy, position,
//! and the allocation entries it emits.

use vstd::prelude::*;
use crate::address::Address;
use crate::error::ErrorCode;
use crate::math::{
    floor_sqrt, is_floor_sqrt, lemma_floor_division, lemma_floor_sqrt_is, lemma_quotient_within,
    lemma_ratio_bound, lemma_share_within_amount, mul_div, sqrt_u128, widening_mul,
};

verus! {

/// Aggregate configuration and lifetime counters of one portfolio.
#[derive(Clone, Copy, Debug)]
pub struct Portfolio {
    /// Identity of the portfolio manager.
    pub manager: Address,
    /// Percentile cutoff (1 to 50) below which a strategy is an underperformer.
    pub rebalance_threshold: u8,
    /// Number of strategies registered so far.
    pub total_strategies: u32,
    /// Lifetime capital moved by rebalancing, in base units.
    pub total_capital_moved: u64,
    /// Timestamp of the last rebalancing cycle, in seconds.
    pub last_rebalance: i64,
    /// Minimum number of seconds between two cycles (3600 to 86400).
    pub min_rebalance_interval: i64,
    /// Timestamp at which the portfolio was created.
    pub portfolio_creation: i64,
    /// While set, every state-changing operation is refused.
    pub emergency_pause: bool,
    /// Performance fee in basis points.
    pub performance_fee_bps: u16,
}

/// The protocol a strategy puts its capital in, with the protocol's own
/// parameters.
#[derive(Clone, Copy, Debug)]
pub enum ProtocolType {
    StableLending {
        pool_id: Address,
        /// Pool utilization in basis points.
        utilization: u16,
        reserve_address: Address,
    },
    YieldFarming {
        pair_id: Address,
        /// Reward boost, 1 to 10.
        reward_multiplier: u8,
        token_a_mint: Address,
        token_b_mint: Address,
        /// Pool fee in basis points.
        fee_tier: u16,
    },
    LiquidStaking {
        validator_id: Address,
        /// Validator commission in basis points.
        commission: u16,
        stake_pool: Address,
        /// Unstaking delay in epochs.
        unstake_delay: u32,
    },
}

/// Whether a strategy takes part in rebalancing.
#[derive(Clone, Copy, Debug, PartialEq, Eq, Structural)]
pub enum StrategyStatus {
    /// Normal operation.
    Active,
    /// Temporarily disabled.
    Paused,
    /// Marked for removal.
    Deprecated,
}

/// One protocol position the portfolio holds capital in.
#[derive(Clone, Copy, Debug)]
pub struct Strategy {
    pub strategy_id: Address,
    pub protocol_type: ProtocolType,
    /// Capital currently allocated, in base units.
    pub current_balance: u64,
    /// Annual yield in basis points (0 to 50000).
    pub yield_rate: u64,
    /// Risk metric, 0 to 10000.
    pub volatility_score: u32,
    /// Composite score, 0 to 10000.
    pub performance_score: u64,
    /// Standing among peers, 0 (worst) to 100 (best).
    pub percentile_rank: u8,
    /// Timestamp of the last metric update.
    pub last_updated: i64,
    pub status: StrategyStatus,
    /// Lifetime deposits, in base units.
    pub total_deposits: u64,
    /// Lifetime withdrawals, in base units.
    pub total_withdrawals: u64,
    /// Timestamp at which the strategy was registered.
    pub creation_time: i64,
}

/// How a position holds its capital.
#[derive(Clone, Copy, Debug, PartialEq, Eq, Structural)]
pub enum PositionType {
    SingleAsset,
    LiquidityPair,
    StakedPosition,
}

/// Per-strategy pool or stake state.
#[derive(Clone, Copy, Debug)]
pub struct CapitalPosition {
    pub strategy_id: Address,
    pub token_a_amount: u64,
    /// Zero for a single-asset position.
    pub token_b_amount: u64,
    /// Liquidity-pool tokens held.
    pub lp_tokens: u64,
    /// The part of `lp_tokens` under platform control.
    pub platform_controlled_lp: u64,
    pub position_type: PositionType,
    /// Entry price of token A, six decimals.
    pub entry_price_a: u64,
    /// Entry price of token B, six decimals.
    pub entry_price_b: u64,
    /// Timestamp of the last position update.
    pub last_rebalance: i64,
    /// Fees accumulated in the position.
    pub accrued_fees: u64,
    /// Impermanent-loss tracker, in percent.
    pub impermanent_loss: i64,
}

/// What an allocation entry pays for.
#[derive(Clone, Copy, Debug, PartialEq, Eq, Structural)]
pub enum AllocationType {
    TopPerformer,
    RiskDiversification,
    ManagerIncentive,
    PlatformFee,
}

/// One entry of a redistribution: an amount sent to a strategy or treasury.
#[derive(Clone, Copy, Debug)]
pub struct CapitalAllocation {
    pub strategy_id: Address,
    pub amount: u64,
    pub allocation_type: AllocationType,
}

/// Smallest balance a lending position may hold: 0.1 unit.
pub const MIN_LENDING_BALANCE: u64 = 100_000_000;

/// Smallest balance a liquidity position may hold: 0.5 unit.
pub const MIN_FARMING_BALANCE: u64 = 500_000_000;

/// Smallest balance a stake may hold: 1 unit.
pub const MIN_STAKING_BALANCE: u64 = 1_000_000_000;

impl ProtocolType {
    /// The smallest balance, and the smallest allocation ticket, that the
    /// protocol accepts.
    pub open spec fn minimum_balance_spec(&self) -> u64 {
        match *self {
            ProtocolType::StableLending { .. } => MIN_LENDING_BALANCE,
            ProtocolType::YieldFarming { .. } => MIN_FARMING_BALANCE,
            ProtocolType::LiquidStaking { .. } => MIN_STAKING_BALANCE,
        }
    }

    /// The smallest balance, and the smallest allocation ticket, that the
    /// protocol accepts.
    #[verifier::when_used_as_spec(minimum_balance_spec)]
    pub fn minimum_balance(&self) -> (r: u64)
        ensures
            r == self.minimum_balance_spec(),
    {
        match self {
            ProtocolType::StableLending { .. } => MIN_LENDING_BALANCE,
            ProtocolType::YieldFarming { .. } => MIN_FARMING_BALANCE,
            ProtocolType::LiquidStaking { .. } => MIN_STAKING_BALANCE,
        }
    }
}

/// Balances and amounts from this value on are refused: a thousandth of the
/// largest 64-bit value, rounded down.
pub const BALANCE_LIMIT: u64 = 18_446_744_073_709_551;

/// Largest yield rate, in basis points: 500%.
pub const MAX_YIELD_RATE: u64 = 50_000;

/// Largest volatility score: 100%.
pub const MAX_VOLATILITY_SCORE: u32 = 10_000;

/// Price data older than this many seconds is stale.
pub const MAX_PRICE_AGE: i64 = 60;

/// Scale of fixed-point price ratios: six decimals.
pub const RATIO_SCALE: u64 = 1_000_000;

/// `Ok` where there is no fault, else the fault as the error.
pub open spec fn fault_to_result(fault: Option<ErrorCode>) -> Result<(), ErrorCode> {
    match fault {
        None => Ok(()),
        Some(e) => Err(e),
    }
}

impl Portfolio {
    /// The configuration is in range: a manager is named, the cutoff is from
    /// 1 to 50 and the minimum interval from an hour to a day.
    pub open spec fn is_well_formed(&self) -> bool {
        &&& !self.manager.is_zero()
        &&& 1 <= self.rebalance_threshold <= 50
        &&& 3600 <= self.min_rebalance_interval <= 86400
    }

    /// The earliest time of the next cycle: the last one plus the minimum
    /// interval, kept within the 64-bit signed range.
    pub open spec fn next_rebalance_time(&self) -> int {
        let due = self.last_rebalance + self.min_rebalance_interval;
        if due > i64::MAX {
            i64::MAX as int
        } else if due < i64::MIN {
            i64::MIN as int
        } else {
            due
        }
    }

    /// Accepts a percentile cutoff from 1 to 50.
    pub fn validate_rebalance_threshold(threshold: u8) -> (r: Result<(), ErrorCode>)
        ensures
            r == if 1 <= threshold <= 50 {
                Ok::<(), ErrorCode>(())
            } else {
                Err(ErrorCode::InvalidRebalanceThreshold)
            },
    {
        if threshold >= 1 && threshold <= 50 {
            Ok(())
        } else {
            Err(ErrorCode::InvalidRebalanceThreshold)
        }
    }

    /// Whether a cycle may run at `current_time`: the portfolio is not
    /// paused and the minimum interval since the last cycle has passed.
    pub fn can_rebalance(&self, current_time: i64) -> (r: bool)
        ensures
            r == (!self.emergency_pause && current_time >= self.next_rebalance_time()),
    {
        let due: i128 = self.last_rebalance as i128 + self.min_rebalance_interval as i128;
        let due: i128 = if due > i64::MAX as i128 {
            i64::MAX as i128
        } else if due < i64::MIN as i128 {
            i64::MIN as i128
        } else {
            due
        };
        !self.emergency_pause && current_time as i128 >= due
    }

    /// Accepts a minimum interval from one hour to one day, in seconds.
    pub fn validate_min_interval(interval: i64) -> (r: Result<(), ErrorCode>)
        ensures
            r == if 3600 <= interval <= 86400 {
                Ok::<(), ErrorCode>(())
            } else {
                Err(ErrorCode::InvalidRebalanceInterval)
            },
    {
        if interval >= 3600 && interval <= 86400 {
            Ok(())
        } else {
            Err(ErrorCode::InvalidRebalanceInterval)
        }
    }
}

impl Strategy {
    /// The record is in range: it has an identifier and valid protocol
    /// parameters, its balance is below the limit, its yield rate,
    /// volatility and score are on their scales, and its rank is a
    /// percentile.
    pub open spec fn is_well_formed(&self) -> bool {
        &&& !self.strategy_id.is_zero()
        &&& self.protocol_type.is_valid()
        &&& self.current_balance < BALANCE_LIMIT
        &&& self.yield_rate <= MAX_YIELD_RATE
        &&& self.volatility_score <= MAX_VOLATILITY_SCORE
        &&& self.performance_score <= 10_000
        &&& self.percentile_rank <= 100
    }

    /// Accepts a yield rate of at most [`MAX_YIELD_RATE`].
    pub fn validate_yield_rate(rate: u64) -> (r: Result<(), ErrorCode>)
        ensures
            r == if rate <= MAX_YIELD_RATE {
                Ok::<(), ErrorCode>(())
            } else {
                Err(ErrorCode::ExcessiveYieldRate)
            },
    {
        if rate <= MAX_YIELD_RATE {
            Ok(())
        } else {
            Err(ErrorCode::ExcessiveYieldRate)
        }
    }

    /// Accepts a balance below [`BALANCE_LIMIT`].
    pub fn validate_balance_update(new_balance: u64) -> (r: Result<(), ErrorCode>)
        ensures
            r == if new_balance < BALANCE_LIMIT {
                Ok::<(), ErrorCode>(())
            } else {
                Err(ErrorCode::BalanceOverflow)
            },
    {
        if new_balance < BALANCE_LIMIT {
            Ok(())
        } else {
            Err(ErrorCode::BalanceOverflow)
        }
    }

    /// Accepts a volatility score of at most [`MAX_VOLATILITY_SCORE`].
    pub fn validate_volatility_score(score: u32) -> (r: Result<(), ErrorCode>)
        ensures
            r == if score <= MAX_VOLATILITY_SCORE {
                Ok::<(), ErrorCode>(())
            } else {
                Err(ErrorCode::InvalidVolatilityScore)
            },
    {
        if score <= MAX_VOLATILITY_SCORE {
            Ok(())
        } else {
            Err(ErrorCode::InvalidVolatilityScore)
        }
    }
}

impl ProtocolType {
    /// The parameters are in range and every identifier is given; the two
    /// mints of a liquidity pair differ.
    pub open spec fn is_valid(&self) -> bool {
        match *self {
            ProtocolType::StableLending { pool_id, utilization, reserve_address } => {
                &&& !pool_id.is_zero()
                &&& !reserve_address.is_zero()
                &&& utilization <= 10_000
            },
            ProtocolType::YieldFarming {
                pair_id,
                reward_multiplier,
                token_a_mint,
                token_b_mint,
                fee_tier,
            } => {
                &&& !pair_id.is_zero()
                &&& !token_a_mint.is_zero()
                &&& !token_b_mint.is_zero()
                &&& token_a_mint != token_b_mint
                &&& 1 <= reward_multiplier <= 10
                &&& fee_tier <= 1000
            },
            ProtocolType::LiquidStaking { validator_id, commission, stake_pool, unstake_delay } => {
                &&& !validator_id.is_zero()
                &&& !stake_pool.is_zero()
                &&& commission <= 1000
                &&& unstake_delay <= 50
            },
        }
    }

    /// The first fault of the parameters, in the order in which they are
    /// tested; none where they are valid.
    pub open spec fn validation_fault(&self) -> Option<ErrorCode> {
        match *self {
            ProtocolType::StableLending { pool_id, utilization, reserve_address } => {
                if pool_id.is_zero() {
                    Some(ErrorCode::InvalidPoolId)
                } else if reserve_address.is_zero() {
                    Some(ErrorCode::InvalidReserveAddress)
                } else if utilization > 10_000 {
                    Some(ErrorCode::InvalidUtilization)
                } else {
                    None
                }
            },
            ProtocolType::YieldFarming {
                pair_id,
                reward_multiplier,
                token_a_mint,
                token_b_mint,
                fee_tier,
            } => {
                if pair_id.is_zero() {
                    Some(ErrorCode::InvalidPairId)
                } else if token_a_mint.is_zero() || token_b_mint.is_zero() {
                    Some(ErrorCode::InvalidTokenMint)
                } else if token_a_mint == token_b_mint {
                    Some(ErrorCode::DuplicateTokenMints)
                } else if reward_multiplier < 1 || reward_multiplier > 10 {
                    Some(ErrorCode::InvalidRewardMultiplier)
                } else if fee_tier > 1000 {
                    Some(ErrorCode::InvalidFeeTier)
                } else {
                    None
                }
            },
            ProtocolType::LiquidStaking { validator_id, commission, stake_pool, unstake_delay } => {
                if validator_id.is_zero() {
                    Some(ErrorCode::InvalidValidatorId)
                } else if stake_pool.is_zero() {
                    Some(ErrorCode::InvalidStakePool)
                } else if commission > 1000 {
                    Some(ErrorCode::InvalidCommission)
                } else if unstake_delay > 50 {
                    Some(ErrorCode::InvalidUnstakeDelay)
                } else {
                    None
                }
            },
        }
    }

    /// Checks the protocol's parameters: succeeds exactly where they are
    /// valid, and else fails with the first fault.
    pub fn validate(&self) -> (r: Result<(), ErrorCode>)
        ensures
            r == fault_to_result(self.validation_fault()),
            r is Ok <==> self.is_valid(),
    {
        match self {
            ProtocolType::StableLending { pool_id, utilization, reserve_address } => {
                if pool_id.is_default() {
                    return Err(ErrorCode::InvalidPoolId);
                }
                if reserve_address.is_default() {
                    return Err(ErrorCode::InvalidReserveAddress);
                }
                if *utilization > 10_000 {
                    return Err(ErrorCode::InvalidUtilization);
                }
                Ok(())
            },
            ProtocolType::YieldFarming {
                pair_id,
                reward_multiplier,
                token_a_mint,
                token_b_mint,
                fee_tier,
            } => {
                if pair_id.is_default() {
                    return Err(ErrorCode::InvalidPairId);
                }
                if token_a_mint.is_default() {
                    return Err(ErrorCode::InvalidTokenMint);
                }
                if token_b_mint.is_default() {
                    return Err(ErrorCode::InvalidTokenMint);
                }
                if *token_a_mint == *token_b_mint {
                    return Err(ErrorCode::DuplicateTokenMints);
                }
                if *reward_multiplier < 1 || *reward_multiplier > 10 {
                    return Err(ErrorCode::InvalidRewardMultiplier);
                }
                if *fee_tier > 1000 {
                    return Err(ErrorCode::InvalidFeeTier);
                }
                Ok(())
            },
            ProtocolType::LiquidStaking { validator_id, commission, stake_pool, unstake_delay } => {
                if validator_id.is_default() {
                    return Err(ErrorCode::InvalidValidatorId);
                }
                if stake_pool.is_default() {
                    return Err(ErrorCode::InvalidStakePool);
                }
                if *commission > 1000 {
                    return Err(ErrorCode::InvalidCommission);
                }
                if *unstake_delay > 50 {
                    return Err(ErrorCode::InvalidUnstakeDelay);
                }
                Ok(())
            },
        }
    }

    /// The protocol's name.
    pub open spec fn protocol_name(&self) -> Seq<char> {
        match *self {
            ProtocolType::StableLending { .. } => "Stable Lending"@,
            ProtocolType::YieldFarming { .. } => "Yield Farming"@,
            ProtocolType::LiquidStaking { .. } => "Liquid Staking"@,
        }
    }

    /// The protocol's name.
    pub fn get_protocol_name(&self) -> (r: &'static str)
        ensures
            r@ == self.protocol_name(),
    {
        match self {
            ProtocolType::StableLending { .. } => "Stable Lending",
            ProtocolType::YieldFarming { .. } => "Yield Farming",
            ProtocolType::LiquidStaking { .. } => "Liquid Staking",
        }
    }

    /// The token accounts a position in this protocol deals in: the reserve
    /// of a lending pool, the two mints of a pair, the pool of a stake.
    pub open spec fn expected_tokens(&self) -> Seq<Address> {
        match *self {
            ProtocolType::StableLending { reserve_address, .. } => seq![reserve_address],
            ProtocolType::YieldFarming { token_a_mint, token_b_mint, .. } => seq![
                token_a_mint,
                token_b_mint,
            ],
            ProtocolType::LiquidStaking { stake_pool, .. } => seq![stake_pool],
        }
    }

    /// The token accounts a position in this protocol deals in.
    pub fn get_expected_tokens(&self) -> (r: Vec<Address>)
        ensures
            r@ == self.expected_tokens(),
    {
        let mut tokens: Vec<Address> = Vec::new();
        match self {
            ProtocolType::StableLending { reserve_address, .. } => {
                tokens.push(*reserve_address);
            },
            ProtocolType::YieldFarming { token_a_mint, token_b_mint, .. } => {
                tokens.push(*token_a_mint);
                tokens.push(*token_b_mint);
            },
            ProtocolType::LiquidStaking { stake_pool, .. } => {
                tokens.push(*stake_pool);
            },
        }
        proof {
            assert(tokens@ =~= self.expected_tokens());
        }
        tokens
    }

    /// Accepts a balance that reaches the protocol's minimum.
    pub fn validate_balance_constraints(&self, balance: u64) -> (r: Result<(), ErrorCode>)
        ensures
            r == if balance >= self.minimum_balance_spec() {
                Ok::<(), ErrorCode>(())
            } else {
                Err(ErrorCode::InsufficientBalance)
            },
    {
        if balance >= self.minimum_balance() {
            Ok(())
        } else {
            Err(ErrorCode::InsufficientBalance)
        }
    }
}

/// What burning `burn` of `total_lp` pool tokens returns of a reserve: the
/// proportional share, rounded down.
pub open spec fn lp_withdrawal(reserve: int, total_lp: int, burn: int) -> int {
    burn * reserve / total_lp
}

/// The constant product of the reserves after a withdrawal is within 0.01%
/// of the product before it.
pub open spec fn product_preserved(reserve_a: int, reserve_b: int, out_a: int, out_b: int) -> bool {
    let new_a = if out_a <= reserve_a {
        reserve_a - out_a
    } else {
        0
    };
    let new_b = if out_b <= reserve_b {
        reserve_b - out_b
    } else {
        0
    };
    let old_k = reserve_a * reserve_b;
    new_a * new_b >= old_k - old_k / 10_000
}

/// A price of token A in units of token B, scaled by [`RATIO_SCALE`] and
/// rounded down.
pub open spec fn price_ratio(price_a: int, price_b: int) -> int {
    price_a * 1_000_000 / price_b
}

/// The impermanent loss at a change of the price ratio, both at the scale
/// of 10^6: `2 * sqrt(change) / (1 + change) - 1`, the root and the
/// division rounded down. It is zero at a change of one and never
/// positive.
pub open spec fn loss_at_change(change: int) -> int {
    2 * floor_sqrt(change * 1_000_000) * 1_000_000 / (1_000_000 + change) - 1_000_000
}

impl CapitalPosition {
    /// The platform controls no more pool tokens than the position holds.
    pub open spec fn is_well_formed(&self) -> bool {
        self.platform_controlled_lp <= self.lp_tokens
    }

    /// The verdict on burning `lp_tokens_to_burn` pool tokens against the
    /// given reserves. The tests, in this order: more than the position holds
    /// (`InsufficientBalance`); an empty pool (`InvalidPoolState`); a share
    /// that does not fit in 64 bits (`BalanceOverflow`); a constant product
    /// that falls by more than 0.01% (`InvariantViolation`).
    pub open spec fn lp_withdrawal_result(
        &self,
        current_reserve_a: u64,
        current_reserve_b: u64,
        total_lp_supply: u64,
        lp_tokens_to_burn: u64,
    ) -> Result<(u64, u64), ErrorCode> {
        let out_a = lp_withdrawal(
            current_reserve_a as int,
            total_lp_supply as int,
            lp_tokens_to_burn as int,
        );
        let out_b = lp_withdrawal(
            current_reserve_b as int,
            total_lp_supply as int,
            lp_tokens_to_burn as int,
        );
        if lp_tokens_to_burn > self.lp_tokens {
            Err(ErrorCode::InsufficientBalance)
        } else if total_lp_supply == 0 {
            Err(ErrorCode::InvalidPoolState)
        } else if out_a > u64::MAX || out_b > u64::MAX {
            Err(ErrorCode::BalanceOverflow)
        } else if !product_preserved(
            current_reserve_a as int,
            current_reserve_b as int,
            out_a,
            out_b,
        ) {
            Err(ErrorCode::InvariantViolation)
        } else {
            Ok((out_a as u64, out_b as u64))
        }
    }

    /// The amounts of both tokens that burning `lp_tokens_to_burn` pool
    /// tokens returns: of each reserve the share that the burnt tokens are of
    /// the supply, rounded down. Refused where the constant product of the
    /// reserves would fall by more than 0.01%.
    pub fn calculate_lp_withdrawal_amounts(
        &self,
        current_reserve_a: u64,
        current_reserve_b: u64,
        total_lp_supply: u64,
        lp_tokens_to_burn: u64,
    ) -> (r: Result<(u64, u64), ErrorCode>)
        ensures
            r == self.lp_withdrawal_result(
                current_reserve_a,
                current_reserve_b,
                total_lp_supply,
                lp_tokens_to_burn,
            ),
            r matches Ok((out_a, out_b)) ==> {
                &&& out_a * total_lp_supply <= lp_tokens_to_burn * current_reserve_a < (out_a + 1)
                    * total_lp_supply
                &&& out_b * total_lp_supply <= lp_tokens_to_burn * current_reserve_b < (out_b + 1)
                    * total_lp_supply
                &&& product_preserved(
                    current_reserve_a as int,
                    current_reserve_b as int,
                    out_a as int,
                    out_b as int,
                )
            },
    {
        if lp_tokens_to_burn > self.lp_tokens {
            return Err(ErrorCode::InsufficientBalance);
        }
        if total_lp_supply == 0 {
            return Err(ErrorCode::InvalidPoolState);
        }
        let token_a_out = mul_div(lp_tokens_to_burn, current_reserve_a, total_lp_supply);
        let token_b_out = mul_div(lp_tokens_to_burn, current_reserve_b, total_lp_supply);
        if token_a_out > u64::MAX as u128 || token_b_out > u64::MAX as u128 {
            return Err(ErrorCode::BalanceOverflow);
        }
        let token_a_out = token_a_out as u64;
        let token_b_out = token_b_out as u64;
        let new_reserve_a = current_reserve_a.saturating_sub(token_a_out);
        let new_reserve_b = current_reserve_b.saturating_sub(token_b_out);
        let new_k = widening_mul(new_reserve_a, new_reserve_b);
        let old_k = widening_mul(current_reserve_a, current_reserve_b);
        if new_k < old_k - old_k / 10_000 {
            return Err(ErrorCode::InvariantViolation);
        }
        proof {
            lemma_floor_division(
                lp_tokens_to_burn * current_reserve_a,
                total_lp_supply as int,
            );
            lemma_floor_division(
                lp_tokens_to_burn * current_reserve_b,
                total_lp_supply as int,
            );
        }
        Ok((token_a_out, token_b_out))
    }

    /// The verdict on a loss estimate at the given prices. The tests, in
    /// this order: a price older than [`MAX_PRICE_AGE`] seconds
    /// (`StalePrice`); an entry or current price of token B of zero
    /// (`InvalidPrice`); an entry ratio of zero (`BalanceOverflow`).
    /// Otherwise the estimate is [`loss_at_change`] of the current ratio
    /// over the entry ratio, taken at the scale of 10^6 and rounded down.
    pub open spec fn impermanent_loss_result(
        &self,
        current_price_a: u64,
        current_price_b: u64,
        price_timestamp: i64,
        current_time: i64,
    ) -> Result<i64, ErrorCode> {
        let entry_ratio = price_ratio(self.entry_price_a as int, self.entry_price_b as int);
        let current_ratio = price_ratio(current_price_a as int, current_price_b as int);
        if current_time - price_timestamp > MAX_PRICE_AGE {
            Err(ErrorCode::StalePrice)
        } else if self.entry_price_b == 0 || current_price_b == 0 {
            Err(ErrorCode::InvalidPrice)
        } else if entry_ratio == 0 {
            Err(ErrorCode::BalanceOverflow)
        } else {
            Ok(loss_at_change(current_ratio * 1_000_000 / entry_ratio) as i64)
        }
    }

    /// Estimates the impermanent loss of the position at the given prices
    /// (six decimals), which were observed at `price_timestamp`; the clock
    /// reads `current_time`.
    ///
    /// The estimate is in millionths of the value held: never positive,
    /// never below minus one million, and zero where the price ratio stands
    /// where it stood at entry.
    pub fn calculate_current_impermanent_loss(
        &self,
        current_price_a: u64,
        current_price_b: u64,
        price_timestamp: i64,
        current_time: i64,
    ) -> (r: Result<i64, ErrorCode>)
        ensures
            r == self.impermanent_loss_result(
                current_price_a,
                current_price_b,
                price_timestamp,
                current_time,
            ),
            r is Ok ==> -1_000_000 <= r->Ok_0 <= 0,
            r is Ok && price_ratio(current_price_a as int, current_price_b as int) == price_ratio(
                self.entry_price_a as int,
                self.entry_price_b as int,
            ) ==> r->Ok_0 == 0,
    {
        if current_time as i128 - price_timestamp as i128 > MAX_PRICE_AGE as i128 {
            return Err(ErrorCode::StalePrice);
        }
        if self.entry_price_b == 0 || current_price_b == 0 {
            return Err(ErrorCode::InvalidPrice);
        }
        let entry_ratio = mul_div(self.entry_price_a, RATIO_SCALE, self.entry_price_b);
        let current_ratio = mul_div(current_price_a, RATIO_SCALE, current_price_b);
        if entry_ratio == 0 {
            return Err(ErrorCode::BalanceOverflow);
        }
        proof {
            lemma_ratio_bound(current_price_a, current_price_b);
            lemma_quotient_within(current_ratio as int * 1_000_000, entry_ratio as int);
            if current_ratio == entry_ratio {
                lemma_no_change(entry_ratio as int);
            }
        }
        let ratio_change: u128 = current_ratio * 1_000_000u128 / entry_ratio;
        let sqrt_ratio = sqrt_u128(ratio_change * 1_000_000u128);
        proof {
            lemma_loss_ratio_bounds(ratio_change as int, sqrt_ratio as int);
        }
        let il_numerator: u128 = 2u128 * sqrt_ratio * 1_000_000u128;
        let il_denominator: u128 = 1_000_000u128 + ratio_change;
        let il_ratio: u128 = il_numerator / il_denominator;
        Ok(il_ratio as i64 - 1_000_000i64)
    }

    /// What stands against withdrawing `requested_amount` from the position
    /// under the given protocol, if anything.
    pub open spec fn withdrawal_fault(
        &self,
        requested_amount: u64,
        protocol_type: ProtocolType,
    ) -> Option<ErrorCode> {
        match protocol_type {
            ProtocolType::YieldFarming { .. } => {
                if requested_amount < 1000 {
                    Some(ErrorCode::WithdrawalTooSmall)
                } else if requested_amount > self.lp_tokens / 2 {
                    Some(ErrorCode::ExcessiveWithdrawal)
                } else {
                    None
                }
            },
            ProtocolType::LiquidStaking { unstake_delay, .. } => {
                if unstake_delay > 50 {
                    Some(ErrorCode::ExcessiveUnstakeDelay)
                } else if requested_amount > self.platform_controlled_lp {
                    Some(ErrorCode::InsufficientBalance)
                } else {
                    None
                }
            },
            ProtocolType::StableLending { utilization, .. } => {
                if utilization >= 9500 {
                    Some(ErrorCode::ProtocolHighUtilization)
                } else if requested_amount > self.token_a_amount {
                    Some(ErrorCode::InsufficientBalance)
                } else {
                    None
                }
            },
        }
    }

    /// Checks that `requested_amount` can be withdrawn under the protocol's
    /// rules: from a pool at least 1000 units and at most half of the pool
    /// tokens held; from a stake with a delay of at most 50 epochs no more
    /// than is under platform control; from a lending pool below 95%
    /// utilization no more than the token amount held.
    pub fn validate_withdrawal_feasibility(
        &self,
        requested_amount: u64,
        protocol_type: &ProtocolType,
    ) -> (r: Result<(), ErrorCode>)
        ensures
            r == fault_to_result(self.withdrawal_fault(requested_amount, *protocol_type)),
    {
        match protocol_type {
            ProtocolType::YieldFarming { .. } => {
                if requested_amount < 1000 {
                    return Err(ErrorCode::WithdrawalTooSmall);
                }
                if requested_amount > self.lp_tokens / 2 {
                    return Err(ErrorCode::ExcessiveWithdrawal);
                }
            },
            ProtocolType::LiquidStaking { unstake_delay, .. } => {
                if *unstake_delay > 50 {
                    return Err(ErrorCode::ExcessiveUnstakeDelay);
                }
                if requested_amount > self.platform_controlled_lp {
                    return Err(ErrorCode::InsufficientBalance);
                }
            },
            ProtocolType::StableLending { utilization, .. } => {
                if *utilization >= 9500 {
                    return Err(ErrorCode::ProtocolHighUtilization);
                }
                if requested_amount > self.token_a_amount {
                    return Err(ErrorCode::InsufficientBalance);
                }
            },
        }
        Ok(())
    }
}

/// Twice the root of `change * 10^6` never exceeds `10^6 + change`: the
/// share of value kept, `2 * sqrt(change) / (1 + change)` at the scale of
/// 10^6, is between zero and one.
proof fn lemma_loss_ratio_bounds(change: int, root: int)
    requires
        0 <= change,
        0 <= root,
        root * root <= change * 1_000_000,
    ensures
        2 * root <= 1_000_000 + change,
        0 <= 2 * root * 1_000_000 / (1_000_000 + change) <= 1_000_000,
{
    assert(2 * root <= 1_000_000 + change) by (nonlinear_arith)
        requires
            0 <= change,
            0 <= root,
            root * root <= change * 1_000_000,
    {
        assert((1_000_000 + change) * (1_000_000 + change) == (1_000_000 - change) * (1_000_000
            - change) + 4 * (change * 1_000_000));
        assert((1_000_000 - change) * (1_000_000 - change) >= 0);
        assert((2 * root) * (2 * root) == 4 * (root * root));
        assert((2 * root) * (2 * root) <= (1_000_000 + change) * (1_000_000 + change));
    }
    assert(2 * root * 1_000_000 == 1_000_000 * (2 * root));
    lemma_share_within_amount(1_000_000, 2 * root, 1_000_000 + change);
}

/// A ratio over itself is one, at the scale of 10^6, and there the loss is
/// zero.
proof fn lemma_no_change(ratio: int)
    requires
        0 < ratio,
    ensures
        ratio * 1_000_000 / ratio == 1_000_000,
        loss_at_change(1_000_000) == 0,
{
    assert(ratio * 1_000_000 / ratio == 1_000_000) by (nonlinear_arith)
        requires
            0 < ratio,
    ;
    assert(is_floor_sqrt(1_000_000_000_000, 1_000_000));
    lemma_floor_sqrt_is(1_000_000_000_000, 1_000_000);
}

} // verus!
