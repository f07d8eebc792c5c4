//! Quantitative rebalancing engine for a portfolio of yield strategies.
//!
//! The engine scores strategies ([`scoring`]), computes what leaving a
//! lending pool, a liquidity pool or a stake returns ([`extraction`]),
//! spreads capital over the best strategies ([`allocation`]) and combines
//! the three into a rebalancing plan ([`rebalance`]). It keeps no clock and
//! no storage: the caller hands in the records and the current time, and
//! carries out the transfers that a plan names.
//!
//! All amounts are integers in base units; rates and shares are in basis
//! points. No operation panics: an input that cannot be served is answered
//! with an [`ErrorCode`], and the records that were handed in are then
//! unchanged.

pub mod address;
pub mod allocation;
pub mod allocation_proofs;
pub mod error;
pub mod extraction;
pub mod math;
pub mod portfolio;
pub mod rebalance;
pub mod scoring;
pub mod state;
pub mod validation;

pub use address::Address;
pub use allocation::{
    calculate_optimal_allocation, calculate_risk_adjustment, RiskLimits, StrategyPerformanceData,
};
pub use error::ErrorCode;
pub use extraction::{
    extract_capital, extract_from_lending, extract_from_protocol, extract_from_staking,
    extract_from_yield_farming, ExtractionResult, ExtractionType,
};
pub use math::{sqrt_u128, sqrt_u64};
pub use portfolio::{execute_ranking_cycle, initialize_portfolio, register_strategy};
pub use rebalance::{
    calculate_expected_improvement, execute_complete_rebalancing, RebalancingPlan,
};
pub use scoring::{
    calculate_performance_score, update_performance, validate_calculation_precision,
};
pub use state::{
    AllocationType, CapitalAllocation, CapitalPosition, Portfolio, PositionType, ProtocolType,
    Strategy, StrategyStatus,
};
pub use validation::{redistribute_capital, validate_allocations};
