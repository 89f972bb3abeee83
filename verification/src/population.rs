//! The population evaluator: many simulation trials over a population,
//! reduced to per-portfolio averages and population statistics.

use vstd::prelude::*;
use crate::bits::ZERO_BITS;
use crate::bits::float_lt;
use crate::bits::max_float;
use crate::bits::min_float;
use crate::bits::seq_max_float;
use crate::bits::seq_min_float;
use crate::bits::lemma_max_float_is_element;
use crate::bits::lemma_max_float_not_below;
use crate::bits::lemma_min_float_is_element;
use crate::bits::lemma_min_float_not_above;
use crate::batch::run_batch_partial;
use crate::batch::partial_averages;
use crate::host::Real64;
use crate::host::Sampler;
use crate::types::EvalError;
use crate::types::EvaluationConfig;
use crate::types::PopulationEvaluationResult;
use crate::types::Portfolio;

verus! {

/// The arithmetic mean of a nonempty vector of binary64 values: the left
/// fold of their sum, divided by the count.
pub fn mean_float<A: Real64>(v: &Vec<u64>, ops: &A) -> u64
    requires
        v@.len() > 0,
{
    let mut sum: u64 = ZERO_BITS;
    let mut i: usize = 0;
    while i < v.len()
        invariant
            i <= v@.len(),
        decreases v@.len() - i,
    {
        sum = ops.add64(sum, v[i]);
        i += 1;
    }
    ops.div64(sum, ops.from_count(v.len()))
}

/// Evaluates a population: draws `simulations_per_generation` fresh
/// scenarios, scores every portfolio against each, averages each
/// portfolio's three metrics over the trials, and reduces the averages
/// into population statistics — the best return and Sharpe ratio are the
/// greatest averages, the best volatility is the least.
///
/// Rejections come before any numeric work, exactly as in
/// `run_batch_partial`: an empty population is an `EmptyPopulationError`,
/// a config within tolerance of zero is a `ConfigurationError`, and an
/// unusable sampled scenario is an `InsufficientDataError`.
pub fn evaluate_population<S: Sampler, A: Real64 + Sync>(
    population: &Vec<Portfolio>,
    config: &EvaluationConfig,
    sampler: &mut S,
    ops: &A,
) -> (r: Result<PopulationEvaluationResult, EvalError>)
    requires
        config.simulations_per_generation >= 1,
    ensures
        (population@.len() == 0) <==> (r == Err::<PopulationEvaluationResult, EvalError>(
            EvalError::EmptyPopulationError,
        )),
        population@.len() > 0 ==> ((r == Err::<PopulationEvaluationResult, EvalError>(
            EvalError::ConfigurationError,
        )) <==> config.rejected()),
        r matches Err(e) ==> (e == EvalError::EmptyPopulationError
            || e == EvalError::ConfigurationError || e == EvalError::InsufficientDataError),
        r matches Ok(res) ==> {
            &&& res.average_returns@.len() == population@.len()
            &&& res.average_volatilities@.len() == population@.len()
            &&& res.average_sharpe_ratios@.len() == population@.len()
            &&& res.best_return == seq_max_float(res.average_returns@)
            &&& res.best_volatility == seq_min_float(res.average_volatilities@)
            &&& res.best_sharpe == seq_max_float(res.average_sharpe_ratios@)
            &&& res.last_scenario.rows@.len() >= 2
            &&& crate::batch::scenario_fits(res.last_scenario, population@)
        },
{
    let partial = match run_batch_partial(
        population,
        config,
        config.simulations_per_generation,
        sampler,
        ops,
    ) {
        Ok(p) => p,
        Err(e) => {
            return Err(e);
        },
    };
    let (average_returns, average_volatilities, average_sharpe_ratios) = partial_averages(
        &partial,
        ops,
    );
    let best_return = max_float(&average_returns);
    let best_volatility = min_float(&average_volatilities);
    let best_sharpe = max_float(&average_sharpe_ratios);
    let population_average_return = mean_float(&average_returns, ops);
    let population_average_volatility = mean_float(&average_volatilities, ops);
    let population_average_sharpe = mean_float(&average_sharpe_ratios, ops);
    Ok(
        PopulationEvaluationResult {
            average_returns,
            average_volatilities,
            average_sharpe_ratios,
            last_scenario: partial.last_scenario,
            best_return,
            population_average_return,
            best_volatility,
            population_average_volatility,
            best_sharpe,
            population_average_sharpe,
        },
    )
}

/// The best statistics are maxima and minimum of the very set that is
/// averaged: each is an element of its vector of per-portfolio averages,
/// and it dominates every element — in the binary64 order, no average
/// return is above the best return, no average Sharpe ratio is above the
/// best Sharpe ratio, and no average volatility is below the best
/// volatility.
pub proof fn lemma_best_dominates_averages(res: PopulationEvaluationResult)
    requires
        res.average_returns@.len() > 0,
        res.average_volatilities@.len() > 0,
        res.average_sharpe_ratios@.len() > 0,
        res.best_return == seq_max_float(res.average_returns@),
        res.best_volatility == seq_min_float(res.average_volatilities@),
        res.best_sharpe == seq_max_float(res.average_sharpe_ratios@),
    ensures
        forall|i: int|
            0 <= i < res.average_returns@.len() ==> !float_lt(
                res.best_return,
                res.average_returns@[i],
            ),
        forall|i: int|
            0 <= i < res.average_sharpe_ratios@.len() ==> !float_lt(
                res.best_sharpe,
                res.average_sharpe_ratios@[i],
            ),
        forall|i: int|
            0 <= i < res.average_volatilities@.len() ==> !float_lt(
                res.average_volatilities@[i],
                res.best_volatility,
            ),
        res.average_returns@.contains(res.best_return),
        res.average_volatilities@.contains(res.best_volatility),
        res.average_sharpe_ratios@.contains(res.best_sharpe),
{
    lemma_max_float_not_below(res.average_returns@);
    lemma_max_float_not_below(res.average_sharpe_ratios@);
    lemma_min_float_not_above(res.average_volatilities@);
    lemma_max_float_is_element(res.average_returns@);
    lemma_max_float_is_element(res.average_sharpe_ratios@);
    lemma_min_float_is_element(res.average_volatilities@);
}

} // verus!
