//! The batch layer: a caller-specified number of simulation trials over a
//! population, returned as raw per-portfolio sums so that results of
//! independent calls can be merged by addition before one final division
//! by the combined iteration count.

use vstd::prelude::*;
use rayon::iter::IntoParallelRefIterator;
use rayon::iter::ParallelIterator;
use crate::bits::ZERO_BITS;
use crate::bits::effectively_zero;
use crate::bits::is_effectively_zero;
use crate::host::Real64;
use crate::host::Sampler;
use crate::perf::performance_core;
use crate::types::EvalError;
use crate::types::EvaluationConfig;
use crate::types::PartialBatchResult;
use crate::types::Portfolio;
use crate::types::ReturnMatrix;

verus! {

/// The scenario can score every portfolio of the population: each of its
/// rows has exactly one column per weight of each portfolio.
pub open spec fn scenario_fits(scenario: ReturnMatrix, population: Seq<Portfolio>) -> bool {
    forall|k: int|
        0 <= k < population.len() ==> scenario.rect_with_width(
            (#[trigger] population[k]).weights@.len(),
        )
}

/// Runtime check of `scenario_fits`.
fn scenario_fits_population(scenario: &ReturnMatrix, population: &Vec<Portfolio>) -> (r: bool)
    ensures
        r == scenario_fits(*scenario, population@),
{
    let mut k: usize = 0;
    while k < population.len()
        invariant
            k <= population@.len(),
            forall|t: int|
                0 <= t < k ==> scenario.rect_with_width(
                    (#[trigger] population@[t]).weights@.len(),
                ),
        decreases population@.len() - k,
    {
        let width = population[k].weights.len();
        let mut i: usize = 0;
        while i < scenario.rows.len()
            invariant
                k < population@.len(),
                i <= scenario.rows@.len(),
                width == population@[k as int].weights@.len(),
                forall|t: int| 0 <= t < i ==> (#[trigger] scenario.rows@[t])@.len() == width,
                forall|t: int|
                    0 <= t < k ==> scenario.rect_with_width(
                        (#[trigger] population@[t]).weights@.len(),
                    ),
            decreases scenario.rows@.len() - i,
        {
            if scenario.rows[i].len() != width {
                return false;
            }
            i += 1;
        }
        k += 1;
    }
    true
}

/// Relies on rayon's `par_iter().map(..).collect::<Vec<_>>()`: it applies
/// the function to every portfolio and collects the results in the input
/// order, one triple per portfolio. The portfolios are independent, so
/// they may be scored on any number of worker threads.
#[verifier::external_body]
fn par_portfolio_metrics<A: Real64 + Sync>(
    population: &Vec<Portfolio>,
    scenario: &ReturnMatrix,
    money_to_invest: u64,
    risk_free_rate: u64,
    time_horizon_in_days: u64,
    ops: &A,
) -> (r: Vec<(u64, u64, u64)>)
    requires
        !effectively_zero(time_horizon_in_days),
        !effectively_zero(money_to_invest),
        scenario.rows@.len() >= 2,
        scenario_fits(*scenario, population@),
    ensures
        r@.len() == population@.len(),
{
    population.par_iter().map(
        |p|
            {
                let perf = performance_core(
                    scenario,
                    &p.weights,
                    money_to_invest,
                    risk_free_rate,
                    time_horizon_in_days,
                    ops,
                );
                (perf.annualized_return, perf.percent_annualized_volatility, perf.sharpe_ratio)
            },
    ).collect()
}

/// Runs `iterations` simulation trials over the population and returns the
/// per-portfolio sums of the three metrics, unaveraged, with the scenario
/// of the final trial.
///
/// Rejections come before any numeric work: an empty population is an
/// `EmptyPopulationError`, a config with the invested capital or the time
/// horizon within tolerance of zero is a `ConfigurationError`, and a
/// sampled scenario with fewer than two periods or a shape that does not
/// match the population is an `InsufficientDataError`. With zero
/// iterations the sampler is never consulted, so the call is owed success:
/// every sum is the zero pattern and the retained scenario is empty.
pub fn run_batch_partial<S: Sampler, A: Real64 + Sync>(
    population: &Vec<Portfolio>,
    config: &EvaluationConfig,
    iterations: usize,
    sampler: &mut S,
    ops: &A,
) -> (r: Result<PartialBatchResult, EvalError>)
    ensures
        (population@.len() == 0) <==> (r == Err::<PartialBatchResult, EvalError>(
            EvalError::EmptyPopulationError,
        )),
        population@.len() > 0 ==> ((r == Err::<PartialBatchResult, EvalError>(
            EvalError::ConfigurationError,
        )) <==> config.rejected()),
        r matches Err(e) ==> (e == EvalError::EmptyPopulationError
            || e == EvalError::ConfigurationError || e == EvalError::InsufficientDataError),
        (population@.len() > 0 && !config.rejected() && iterations == 0) ==> r is Ok,
        r == Err::<PartialBatchResult, EvalError>(EvalError::InsufficientDataError)
            ==> iterations > 0,
        r matches Ok(p) ==> {
            &&& p.sum_returns@.len() == population@.len()
            &&& p.sum_volatilities@.len() == population@.len()
            &&& p.sum_sharpes@.len() == population@.len()
            &&& p.iterations == iterations
            &&& iterations == 0 ==> p.last_scenario.rows@.len() == 0
            &&& iterations == 0 ==> (forall|t: int|
                0 <= t < population@.len() ==> #[trigger] p.sum_returns@[t] == ZERO_BITS)
            &&& iterations == 0 ==> (forall|t: int|
                0 <= t < population@.len() ==> #[trigger] p.sum_volatilities@[t] == ZERO_BITS)
            &&& iterations == 0 ==> (forall|t: int|
                0 <= t < population@.len() ==> #[trigger] p.sum_sharpes@[t] == ZERO_BITS)
            &&& iterations > 0 ==> p.last_scenario.rows@.len() >= 2 && scenario_fits(
                p.last_scenario,
                population@,
            )
        },
{
    if population.len() == 0 {
        return Err(EvalError::EmptyPopulationError);
    }
    if is_effectively_zero(config.time_horizon_in_days) || is_effectively_zero(
        config.money_to_invest,
    ) {
        return Err(EvalError::ConfigurationError);
    }

    let n = population.len();
    let mut sum_returns: Vec<u64> = Vec::new();
    let mut sum_volatilities: Vec<u64> = Vec::new();
    let mut sum_sharpes: Vec<u64> = Vec::new();
    let mut i: usize = 0;
    while i < n
        invariant
            sum_returns@.len() == i,
            sum_volatilities@.len() == i,
            sum_sharpes@.len() == i,
            i <= n,
            forall|t: int| 0 <= t < i ==> #[trigger] sum_returns@[t] == ZERO_BITS,
            forall|t: int| 0 <= t < i ==> #[trigger] sum_volatilities@[t] == ZERO_BITS,
            forall|t: int| 0 <= t < i ==> #[trigger] sum_sharpes@[t] == ZERO_BITS,
        decreases n - i,
    {
        sum_returns.push(ZERO_BITS);
        sum_volatilities.push(ZERO_BITS);
        sum_sharpes.push(ZERO_BITS);
        i += 1;
    }

    let mut last_scenario = ReturnMatrix { rows: Vec::new() };
    let mut trial: usize = 0;
    while trial < iterations
        invariant
            n == population@.len(),
            n > 0,
            !config.rejected(),
            trial <= iterations,
            sum_returns@.len() == n,
            sum_volatilities@.len() == n,
            sum_sharpes@.len() == n,
            trial == 0 ==> (forall|t: int|
                0 <= t < n ==> #[trigger] sum_returns@[t] == ZERO_BITS),
            trial == 0 ==> (forall|t: int|
                0 <= t < n ==> #[trigger] sum_volatilities@[t] == ZERO_BITS),
            trial == 0 ==> (forall|t: int|
                0 <= t < n ==> #[trigger] sum_sharpes@[t] == ZERO_BITS),
            trial == 0 ==> last_scenario.rows@.len() == 0,
            trial > 0 ==> last_scenario.rows@.len() >= 2 && scenario_fits(
                last_scenario,
                population@,
            ),
        decreases iterations - trial,
    {
        let scenario = sampler.sample_returns();
        if scenario.rows.len() < 2 {
            return Err(EvalError::InsufficientDataError);
        }
        if !scenario_fits_population(&scenario, population) {
            return Err(EvalError::InsufficientDataError);
        }
        let metrics = par_portfolio_metrics(
            population,
            &scenario,
            config.money_to_invest,
            config.risk_free_rate,
            config.time_horizon_in_days,
            ops,
        );

        let mut next_returns: Vec<u64> = Vec::new();
        let mut next_volatilities: Vec<u64> = Vec::new();
        let mut next_sharpes: Vec<u64> = Vec::new();
        let mut idx: usize = 0;
        while idx < n
            invariant
                n == population@.len(),
                idx <= n,
                metrics@.len() == n,
                sum_returns@.len() == n,
                sum_volatilities@.len() == n,
                sum_sharpes@.len() == n,
                next_returns@.len() == idx,
                next_volatilities@.len() == idx,
                next_sharpes@.len() == idx,
            decreases n - idx,
        {
            let m = metrics[idx];
            next_returns.push(ops.add64(sum_returns[idx], m.0));
            next_volatilities.push(ops.add64(sum_volatilities[idx], m.1));
            next_sharpes.push(ops.add64(sum_sharpes[idx], m.2));
            idx += 1;
        }
        sum_returns = next_returns;
        sum_volatilities = next_volatilities;
        sum_sharpes = next_sharpes;
        last_scenario = scenario;
        trial += 1;
    }

    Ok(
        PartialBatchResult {
            sum_returns,
            sum_volatilities,
            sum_sharpes,
            last_scenario,
            iterations,
        },
    )
}

/// Merges two partial results computed over the same population: the sums
/// add element by element, the iteration counts add, and the later
/// result's last scenario is kept. Dividing the merged sums by the merged
/// iteration count then averages over both runs at once.
pub fn merge_partial_results<A: Real64>(
    first: PartialBatchResult,
    second: PartialBatchResult,
    ops: &A,
) -> (r: PartialBatchResult)
    requires
        first.sum_returns@.len() == second.sum_returns@.len(),
        first.sum_volatilities@.len() == second.sum_volatilities@.len(),
        first.sum_sharpes@.len() == second.sum_sharpes@.len(),
        first.iterations + second.iterations <= usize::MAX,
    ensures
        r.sum_returns@.len() == first.sum_returns@.len(),
        r.sum_volatilities@.len() == first.sum_volatilities@.len(),
        r.sum_sharpes@.len() == first.sum_sharpes@.len(),
        r.iterations == first.iterations + second.iterations,
        r.last_scenario == second.last_scenario,
{
    let merged_returns = add_elementwise(&first.sum_returns, &second.sum_returns, ops);
    let merged_volatilities = add_elementwise(
        &first.sum_volatilities,
        &second.sum_volatilities,
        ops,
    );
    let merged_sharpes = add_elementwise(&first.sum_sharpes, &second.sum_sharpes, ops);
    PartialBatchResult {
        sum_returns: merged_returns,
        sum_volatilities: merged_volatilities,
        sum_sharpes: merged_sharpes,
        last_scenario: second.last_scenario,
        iterations: first.iterations + second.iterations,
    }
}

/// Element-by-element binary64 addition of two equally long vectors.
fn add_elementwise<A: Real64>(a: &Vec<u64>, b: &Vec<u64>, ops: &A) -> (r: Vec<u64>)
    requires
        a@.len() == b@.len(),
    ensures
        r@.len() == a@.len(),
{
    let mut out: Vec<u64> = Vec::new();
    let mut i: usize = 0;
    while i < a.len()
        invariant
            a@.len() == b@.len(),
            i <= a@.len(),
            out@.len() == i,
        decreases a@.len() - i,
    {
        out.push(ops.add64(a[i], b[i]));
        i += 1;
    }
    out
}

/// Divides each per-portfolio sum of a partial result by its iteration
/// count, giving the three vectors of per-portfolio averages.
pub fn partial_averages<A: Real64>(partial: &PartialBatchResult, ops: &A) -> (r: (
    Vec<u64>,
    Vec<u64>,
    Vec<u64>,
))
    ensures
        r.0@.len() == partial.sum_returns@.len(),
        r.1@.len() == partial.sum_volatilities@.len(),
        r.2@.len() == partial.sum_sharpes@.len(),
{
    let count = ops.from_count(partial.iterations);
    (
        div_each(&partial.sum_returns, count, ops),
        div_each(&partial.sum_volatilities, count, ops),
        div_each(&partial.sum_sharpes, count, ops),
    )
}

/// Divides every element by the same binary64 divisor.
fn div_each<A: Real64>(v: &Vec<u64>, divisor: u64, ops: &A) -> (r: Vec<u64>)
    ensures
        r@.len() == v@.len(),
{
    let mut out: Vec<u64> = Vec::new();
    let mut i: usize = 0;
    while i < v.len()
        invariant
            i <= v@.len(),
            out@.len() == i,
        decreases v@.len() - i,
    {
        out.push(ops.div64(v[i], divisor));
        i += 1;
    }
    out
}

/// What `bincode` decodes a byte string to, when it decodes at all: a
/// list of weight vectors, each weight the bit pattern of a binary64.
pub uninterp spec fn decoded_weights(bytes: Seq<u8>) -> Option<Seq<Seq<u64>>>;

/// Relies on `bincode::deserialize` for `Vec<Vec<u64>>`: with the fixed
/// integer encoding the top-level functions use, the result is a function
/// of the input bytes alone — a length-prefixed list of length-prefixed
/// lists of eight-byte little-endian words. A binary64 weight serializes
/// as exactly the eight bytes of its bit pattern, so the weights arrive
/// here as bit patterns.
#[verifier::external_body]
fn decode_weight_vectors(bytes: &Vec<u8>) -> (r: Option<Vec<Vec<u64>>>)
    ensures
        r is Some <==> decoded_weights(bytes@) is Some,
        r matches Some(v) ==> Some(v.deep_view()) == decoded_weights(bytes@),
{
    bincode::deserialize::<Vec<Vec<u64>>>(bytes.as_slice()).ok()
}

/// Decodes a serialized batch of portfolios. A byte string that does not
/// decode is rejected as a `DecodeError`; one that does yields the decoded
/// weight vectors, in order.
pub fn decode_portfolio_batch(bytes: &Vec<u8>) -> (r: Result<Vec<Portfolio>, EvalError>)
    ensures
        r is Ok <==> decoded_weights(bytes@) is Some,
        r matches Ok(ps) ==> {
            &&& ps@.len() == decoded_weights(bytes@).unwrap().len()
            &&& forall|k: int|
                0 <= k < ps@.len() ==> (#[trigger] ps@[k]).weights@ == decoded_weights(
                    bytes@,
                ).unwrap()[k]
        },
        r matches Err(e) ==> e == EvalError::DecodeError,
{
    let decoded = decode_weight_vectors(bytes);
    match decoded {
        None => Err(EvalError::DecodeError),
        Some(rows) => {
            let ghost target = decoded_weights(bytes@).unwrap();
            proof {
                assert(rows.deep_view() =~= target);
            }
            let mut portfolios: Vec<Portfolio> = Vec::new();
            let mut k: usize = 0;
            while k < rows.len()
                invariant
                    k <= rows@.len(),
                    rows.deep_view() == target,
                    target.len() == rows@.len(),
                    portfolios@.len() == k,
                    forall|t: int|
                        0 <= t < k ==> (#[trigger] portfolios@[t]).weights@ == target[t],
                decreases rows@.len() - k,
            {
                let row = &rows[k];
                let mut weights: Vec<u64> = Vec::new();
                let mut j: usize = 0;
                while j < row.len()
                    invariant
                        k < rows@.len(),
                        row == rows@[k as int],
                        j <= row@.len(),
                        weights@ =~= row@.take(j as int),
                    decreases row@.len() - j,
                {
                    weights.push(row[j]);
                    proof {
                        assert(weights@ =~= row@.take(j as int + 1));
                    }
                    j += 1;
                }
                proof {
                    assert(weights@ =~= rows@[k as int]@);
                    assert(rows@[k as int].deep_view() =~= rows@[k as int]@);
                    assert(rows.deep_view()[k as int] == rows@[k as int].deep_view());
                }
                portfolios.push(Portfolio { weights });
                k += 1;
            }
            Ok(portfolios)
        },
    }
}

} // verus!
