//! The performance calculator: one scenario and one weight vector give one
//! performance record.
//!
//! Per period, each asset's log-return is turned into a simple return via
//! `exp(r) - 1`, weight-summed across assets and scaled by the invested
//! capital; the mean and the sample variance of those per-period dollar
//! returns are annualized, and the Sharpe ratio is taken against the
//! risk-free dollar return, with an effectively zero volatility mapped to
//! a Sharpe ratio of exactly +0.0.

use vstd::prelude::*;
use rayon::iter::IntoParallelRefIterator;
use rayon::iter::ParallelIterator;
use crate::bits::DAYS_PER_YEAR_BITS;
use crate::bits::ONE_BITS;
use crate::bits::ZERO_BITS;
use crate::bits::effectively_nonzero;
use crate::bits::effectively_zero;
use crate::bits::is_effectively_nonzero;
use crate::bits::is_effectively_zero;
use crate::host::Real64;
use crate::types::EvalError;
use crate::types::PortfolioPerformance;
use crate::types::ReturnMatrix;

verus! {

/// The realized dollar return of one period: each asset's log-return is
/// converted to a simple return via `exp(r) - 1`, weighted, summed across
/// assets and scaled by the invested capital.
pub(crate) fn period_return<A: Real64>(
    row: &Vec<u64>,
    weights: &Vec<u64>,
    money_to_invest: u64,
    ops: &A,
) -> u64
    requires
        row@.len() == weights@.len(),
{
    let mut acc: u64 = ZERO_BITS;
    let mut j: usize = 0;
    while j < row.len()
        invariant
            j <= row@.len(),
            row@.len() == weights@.len(),
        decreases row@.len() - j,
    {
        let simple = ops.sub64(ops.exp64(row[j]), ONE_BITS);
        let term = ops.mul64(ops.mul64(simple, weights[j]), money_to_invest);
        acc = ops.add64(acc, term);
        j += 1;
    }
    acc
}

/// Relies on rayon's `par_iter().map(..).collect::<Vec<_>>()`: it applies
/// the function to every row and collects the results in the input order,
/// one result per row. The rows are independent, so they may be scored on
/// any number of worker threads.
#[verifier::external_body]
fn par_period_returns<A: Real64 + Sync>(
    rows: &Vec<Vec<u64>>,
    weights: &Vec<u64>,
    money_to_invest: u64,
    ops: &A,
) -> (r: Vec<u64>)
    requires
        forall|i: int| 0 <= i < rows@.len() ==> (#[trigger] rows@[i])@.len() == weights@.len(),
    ensures
        r@.len() == rows@.len(),
{
    rows.par_iter().map(|row| period_return(row, weights, money_to_invest, ops)).collect()
}

/// The Sharpe ratio decision: excess return over the risk-free dollar
/// return divided by the annualized dollar volatility, except that an
/// effectively zero (or NaN) volatility gives exactly +0.0 — such a
/// portfolio counts as non-comparable rather than infinitely good or bad.
pub fn sharpe_ratio_from<A: Real64>(
    annualized_return: u64,
    risk_free_return: u64,
    annualized_volatility: u64,
    ops: &A,
) -> (r: u64)
    ensures
        !effectively_nonzero(annualized_volatility) ==> r == ZERO_BITS,
{
    if is_effectively_nonzero(annualized_volatility) {
        ops.div64(ops.sub64(annualized_return, risk_free_return), annualized_volatility)
    } else {
        ZERO_BITS
    }
}

/// The calculation once the inputs are known valid: at least two periods,
/// a rectangular scenario matching the weight count, and a config clear
/// of zero.
pub(crate) fn performance_core<A: Real64 + Sync>(
    scenario: &ReturnMatrix,
    weights: &Vec<u64>,
    money_to_invest: u64,
    risk_free_rate: u64,
    time_horizon_in_days: u64,
    ops: &A,
) -> (r: PortfolioPerformance)
    requires
        !effectively_zero(time_horizon_in_days),
        !effectively_zero(money_to_invest),
        scenario.rows@.len() >= 2,
        forall|i: int|
            0 <= i < scenario.rows@.len() ==> (#[trigger] scenario.rows@[i])@.len()
                == weights@.len(),
    ensures
        r.portfolio_returns@.len() == scenario.rows@.len(),
{
    let number_of_periods = ops.from_count(scenario.rows.len());
    let portfolio_returns = par_period_returns(&scenario.rows, weights, money_to_invest, ops);

    let mut sum: u64 = ZERO_BITS;
    let mut i: usize = 0;
    while i < portfolio_returns.len()
        invariant
            i <= portfolio_returns@.len(),
        decreases portfolio_returns@.len() - i,
    {
        sum = ops.add64(sum, portfolio_returns[i]);
        i += 1;
    }
    let average_return = ops.div64(sum, number_of_periods);

    let mut squared_deviations: u64 = ZERO_BITS;
    i = 0;
    while i < portfolio_returns.len()
        invariant
            i <= portfolio_returns@.len(),
        decreases portfolio_returns@.len() - i,
    {
        let deviation = ops.sub64(portfolio_returns[i], average_return);
        squared_deviations = ops.add64(squared_deviations, ops.mul64(deviation, deviation));
        i += 1;
    }
    let variance = ops.div64(squared_deviations, ops.sub64(number_of_periods, ONE_BITS));
    let volatility = ops.sqrt64(variance);

    let time_horizon_in_years = ops.div64(time_horizon_in_days, DAYS_PER_YEAR_BITS);
    let periods_per_year = ops.div64(number_of_periods, time_horizon_in_years);
    let annualized_return = ops.mul64(average_return, periods_per_year);
    let annualized_volatility = ops.mul64(volatility, ops.sqrt64(periods_per_year));
    let percent_annualized_volatility = ops.div64(annualized_volatility, money_to_invest);
    let risk_free_return = ops.mul64(money_to_invest, risk_free_rate);
    let sharpe_ratio = sharpe_ratio_from(
        annualized_return,
        risk_free_return,
        annualized_volatility,
        ops,
    );

    PortfolioPerformance {
        portfolio_returns,
        annualized_return,
        percent_annualized_volatility,
        sharpe_ratio,
    }
}

/// Scores one portfolio against one scenario.
///
/// Rejections come before any numeric work: a time horizon or invested
/// capital within tolerance of zero is a `ConfigurationError`, and fewer
/// than two periods is an `InsufficientDataError` (the sample variance
/// needs at least two observations). The scenario must be rectangular
/// with one column per weight.
pub fn compute_portfolio_performance<A: Real64 + Sync>(
    scenario: &ReturnMatrix,
    weights: &Vec<u64>,
    money_to_invest: u64,
    risk_free_rate: u64,
    time_horizon_in_days: u64,
    ops: &A,
) -> (r: Result<PortfolioPerformance, EvalError>)
    requires
        forall|i: int|
            0 <= i < scenario.rows@.len() ==> (#[trigger] scenario.rows@[i])@.len()
                == weights@.len(),
    ensures
        (r == Err::<PortfolioPerformance, EvalError>(EvalError::ConfigurationError)) <==> (
        effectively_zero(time_horizon_in_days) || effectively_zero(money_to_invest)),
        !(effectively_zero(time_horizon_in_days) || effectively_zero(money_to_invest)) ==> ((r
            == Err::<PortfolioPerformance, EvalError>(EvalError::InsufficientDataError)) <==> scenario.rows@.len() < 2),
        r is Ok <==> (!effectively_zero(time_horizon_in_days) && !effectively_zero(money_to_invest)
            && scenario.rows@.len() >= 2),
        r matches Ok(p) ==> p.portfolio_returns@.len() == scenario.rows@.len(),
{
    if is_effectively_zero(time_horizon_in_days) || is_effectively_zero(money_to_invest) {
        return Err(EvalError::ConfigurationError);
    }
    if scenario.rows.len() < 2 {
        return Err(EvalError::InsufficientDataError);
    }
    Ok(
        performance_core(
            scenario,
            weights,
            money_to_invest,
            risk_free_rate,
            time_horizon_in_days,
            ops,
        ),
    )
}

} // verus!
