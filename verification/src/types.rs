//! Data model of the engine.
//!
//! Every real-valued field holds the bit pattern of an IEEE-754 binary64
//! value (see `bits`): weights, money, rates, returns and the metrics
//! computed from them.

use vstd::prelude::*;

verus! {

/// An ordered sequence of asset weights, one per tradable asset,
/// conceptually summing to one (the caller's responsibility).
#[derive(Debug)]
pub struct Portfolio {
    /// Weight per asset, as binary64 bit patterns.
    pub weights: Vec<u64>,
}

/// One sampled scenario: a rectangular table of log-returns,
/// rows = time periods, columns = assets.
#[derive(Debug)]
pub struct ReturnMatrix {
    /// One row of per-asset log-returns per period, as binary64 bit patterns.
    pub rows: Vec<Vec<u64>>,
}

impl ReturnMatrix {
    /// Every row has exactly `width` entries.
    pub open spec fn rect_with_width(&self, width: nat) -> bool {
        forall|i: int| 0 <= i < self.rows@.len() ==> (#[trigger] self.rows@[i])@.len() == width
    }
}

/// Parameters of one evaluation call.
#[derive(Debug)]
pub struct EvaluationConfig {
    /// Invested capital, as a binary64 bit pattern; must not be within
    /// tolerance of zero.
    pub money_to_invest: u64,
    /// Annual risk-free rate as a fraction, as a binary64 bit pattern.
    pub risk_free_rate: u64,
    /// Time horizon covered by one scenario, in days, as a binary64 bit
    /// pattern; must not be within tolerance of zero.
    pub time_horizon_in_days: u64,
    /// How many scenarios one population evaluation draws; at least one.
    pub simulations_per_generation: usize,
}

impl EvaluationConfig {
    /// A config is rejected when its time horizon or its invested capital
    /// is within tolerance of zero.
    pub open spec fn rejected(&self) -> bool {
        crate::bits::effectively_zero(self.time_horizon_in_days)
            || crate::bits::effectively_zero(self.money_to_invest)
    }
}

/// Output of scoring one portfolio against one scenario.
#[derive(Debug)]
pub struct PortfolioPerformance {
    /// Realized dollar return per period, as binary64 bit patterns.
    pub portfolio_returns: Vec<u64>,
    /// Annualized dollar return, as a binary64 bit pattern.
    pub annualized_return: u64,
    /// Annualized volatility as a fraction of invested capital,
    /// as a binary64 bit pattern.
    pub percent_annualized_volatility: u64,
    /// Sharpe ratio; exactly +0.0 for an effectively zero volatility.
    pub sharpe_ratio: u64,
}

/// Output of one population evaluation: per-portfolio averages aligned
/// with the input order, the last sampled scenario, and six population
/// statistics.
#[derive(Debug)]
pub struct PopulationEvaluationResult {
    /// Average annualized return per portfolio, in input order.
    pub average_returns: Vec<u64>,
    /// Average percent annualized volatility per portfolio, in input order.
    pub average_volatilities: Vec<u64>,
    /// Average Sharpe ratio per portfolio, in input order.
    pub average_sharpe_ratios: Vec<u64>,
    /// The scenario of the final trial, kept verbatim for diagnostics.
    pub last_scenario: ReturnMatrix,
    /// Greatest average return in the binary64 order.
    pub best_return: u64,
    /// Arithmetic mean of the average returns.
    pub population_average_return: u64,
    /// Least average volatility in the binary64 order (lower is better).
    pub best_volatility: u64,
    /// Arithmetic mean of the average volatilities.
    pub population_average_volatility: u64,
    /// Greatest average Sharpe ratio in the binary64 order.
    pub best_sharpe: u64,
    /// Arithmetic mean of the average Sharpe ratios.
    pub population_average_sharpe: u64,
}

/// Output of one batch call: per-portfolio sums, not averages, so that
/// results of independent calls can be merged by addition before one
/// final division by the combined iteration count.
#[derive(Debug)]
pub struct PartialBatchResult {
    /// Summed annualized return per portfolio, in input order.
    pub sum_returns: Vec<u64>,
    /// Summed percent annualized volatility per portfolio, in input order.
    pub sum_volatilities: Vec<u64>,
    /// Summed Sharpe ratio per portfolio, in input order.
    pub sum_sharpes: Vec<u64>,
    /// The scenario of the final trial, kept verbatim for diagnostics;
    /// empty when no iteration ran.
    pub last_scenario: ReturnMatrix,
    /// How many iterations the sums cover; needed for the final division.
    pub iterations: usize,
}

/// The failures the engine reports instead of crashing the host.
#[derive(Clone, Copy, Debug, PartialEq, Eq, Structural)]
pub enum EvalError {
    /// Invested capital or time horizon within tolerance of zero.
    ConfigurationError,
    /// A sampled scenario cannot be scored: fewer than two periods, or
    /// its column count does not match a portfolio's weight count.
    InsufficientDataError,
    /// No portfolios were submitted.
    EmptyPopulationError,
    /// The serialized portfolio batch could not be decoded.
    DecodeError,
}

} // verus!
