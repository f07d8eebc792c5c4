//! The failure codes shared by every operation of the engine.

use vstd::prelude::*;

verus! {

/// Why an operation was refused. Every failure of the engine is one of these;
/// an operation that fails leaves the records it was given untouched.
#[derive(Clone, Copy, Debug, PartialEq, Eq, Structural)]
pub enum ErrorCode {
    CustomError,
    InvalidRebalanceThreshold,
    InvalidRebalanceInterval,
    InvalidManager,
    InvalidStrategyId,
    ExcessiveYieldRate,
    BalanceOverflow,
    InsufficientBalance,
    EmergencyPaused,
    StrategyNotFound,
    UnauthorizedManager,
    InvalidVolatilityScore,
    InvalidPoolId,
    InvalidReserveAddress,
    InvalidUtilization,
    InvalidPairId,
    InvalidTokenMint,
    DuplicateTokenMints,
    InvalidRewardMultiplier,
    InvalidFeeTier,
    InvalidValidatorId,
    InvalidStakePool,
    InvalidCommission,
    InvalidUnstakeDelay,
    InvalidPoolState,
    InvariantViolation,
    StalePrice,
    InvalidPrice,
    WithdrawalTooSmall,
    ExcessiveWithdrawal,
    ExcessiveUnstakeDelay,
    ProtocolHighUtilization,
    InsufficientStrategies,
    TooManyStrategies,
    InvalidProtocolType,
    DuplicateStrategy,
    InvalidPerformanceScore,
}

} // verus!
