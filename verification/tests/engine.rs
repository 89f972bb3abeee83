use portfolio_sim::batch::decode_portfolio_batch;
use portfolio_sim::batch::merge_partial_results;
use portfolio_sim::batch::partial_averages;
use portfolio_sim::batch::run_batch_partial;
use portfolio_sim::bits::ge64;
use portfolio_sim::bits::is_effectively_nonzero;
use portfolio_sim::bits::is_effectively_zero;
use portfolio_sim::bits::lt64;
use portfolio_sim::bits::max_float;
use portfolio_sim::bits::min_float;
use portfolio_sim::host::Real64;
use portfolio_sim::host::Sampler;
use portfolio_sim::perf::compute_portfolio_performance;
use portfolio_sim::population::evaluate_population;
use portfolio_sim::types::EvalError;
use portfolio_sim::types::EvaluationConfig;
use portfolio_sim::types::Portfolio;
use portfolio_sim::types::ReturnMatrix;

/// Host arithmetic: real IEEE-754 binary64 operations on bit patterns.
struct HostOps;

impl Real64 for HostOps {
    fn add64(&self, a: u64, b: u64) -> u64 {
        (f64::from_bits(a) + f64::from_bits(b)).to_bits()
    }
    fn sub64(&self, a: u64, b: u64) -> u64 {
        (f64::from_bits(a) - f64::from_bits(b)).to_bits()
    }
    fn mul64(&self, a: u64, b: u64) -> u64 {
        (f64::from_bits(a) * f64::from_bits(b)).to_bits()
    }
    fn div64(&self, a: u64, b: u64) -> u64 {
        (f64::from_bits(a) / f64::from_bits(b)).to_bits()
    }
    fn exp64(&self, a: u64) -> u64 {
        f64::from_bits(a).exp().to_bits()
    }
    fn sqrt64(&self, a: u64) -> u64 {
        f64::from_bits(a).sqrt().to_bits()
    }
    fn from_count(&self, n: usize) -> u64 {
        (n as f64).to_bits()
    }
}

/// A deterministic sampler that returns the same scenario on every draw.
struct FixedSampler {
    rows: Vec<Vec<f64>>,
}

impl Sampler for FixedSampler {
    fn sample_returns(&mut self) -> ReturnMatrix {
        ReturnMatrix { rows: self.rows.iter().map(|r| bits_row(r)).collect() }
    }
}

fn bits_row(row: &[f64]) -> Vec<u64> {
    row.iter().map(|x| x.to_bits()).collect()
}

fn matrix(rows: &[&[f64]]) -> ReturnMatrix {
    ReturnMatrix { rows: rows.iter().map(|r| bits_row(r)).collect() }
}

fn portfolio(weights: &[f64]) -> Portfolio {
    Portfolio { weights: bits_row(weights) }
}

fn config(money: f64, rate: f64, days: f64, sims: usize) -> EvaluationConfig {
    EvaluationConfig {
        money_to_invest: money.to_bits(),
        risk_free_rate: rate.to_bits(),
        time_horizon_in_days: days.to_bits(),
        simulations_per_generation: sims,
    }
}

fn close(actual: u64, expected: f64, tolerance: f64) -> bool {
    (f64::from_bits(actual) - expected).abs() < tolerance
}

#[test]
fn concrete_two_period_two_asset_scenario() {
    let scenario = matrix(&[&[0.01, 0.02], &[-0.01, 0.0]]);
    let weights = bits_row(&[0.5, 0.5]);
    let perf = compute_portfolio_performance(
        &scenario,
        &weights,
        1000.0f64.to_bits(),
        0.02f64.to_bits(),
        30.0f64.to_bits(),
        &HostOps,
    )
    .unwrap();
    assert_eq!(perf.portfolio_returns.len(), 2);
    assert!(close(perf.portfolio_returns[0], 15.13, 0.01));
    assert!(close(perf.portfolio_returns[1], -4.98, 0.01));
    assert!(close(perf.annualized_return, 123.46, 0.05));
    assert!(close(perf.percent_annualized_volatility, 0.0701, 0.001));
    assert!(close(perf.sharpe_ratio, 1.48, 0.01));
}

#[test]
fn zero_volatility_gives_sharpe_exactly_zero() {
    // All weight on an asset whose return is identical every period.
    let scenario = matrix(&[&[0.01, 0.25], &[0.01, -0.5], &[0.01, 0.125]]);
    let weights = bits_row(&[1.0, 0.0]);
    let perf = compute_portfolio_performance(
        &scenario,
        &weights,
        1000.0f64.to_bits(),
        0.02f64.to_bits(),
        30.0f64.to_bits(),
        &HostOps,
    )
    .unwrap();
    let sharpe = f64::from_bits(perf.sharpe_ratio);
    assert_eq!(sharpe, 0.0);
    assert!(!sharpe.is_nan());
    assert!(!sharpe.is_infinite());
}

#[test]
fn zero_money_is_a_configuration_error() {
    let scenario = matrix(&[&[0.01], &[0.02]]);
    let weights = bits_row(&[1.0]);
    let r = compute_portfolio_performance(
        &scenario,
        &weights,
        0.0f64.to_bits(),
        0.02f64.to_bits(),
        30.0f64.to_bits(),
        &HostOps,
    );
    assert_eq!(r.unwrap_err(), EvalError::ConfigurationError);
}

#[test]
fn zero_time_horizon_is_a_configuration_error() {
    let scenario = matrix(&[&[0.01], &[0.02]]);
    let weights = bits_row(&[1.0]);
    let r = compute_portfolio_performance(
        &scenario,
        &weights,
        1000.0f64.to_bits(),
        0.02f64.to_bits(),
        0.0f64.to_bits(),
        &HostOps,
    );
    assert_eq!(r.unwrap_err(), EvalError::ConfigurationError);
}

#[test]
fn zero_period_scenario_is_insufficient_data() {
    let scenario = matrix(&[]);
    let weights = bits_row(&[1.0]);
    let r = compute_portfolio_performance(
        &scenario,
        &weights,
        1000.0f64.to_bits(),
        0.02f64.to_bits(),
        30.0f64.to_bits(),
        &HostOps,
    );
    assert_eq!(r.unwrap_err(), EvalError::InsufficientDataError);
}

#[test]
fn one_period_scenario_is_insufficient_data() {
    let scenario = matrix(&[&[0.01]]);
    let weights = bits_row(&[1.0]);
    let r = compute_portfolio_performance(
        &scenario,
        &weights,
        1000.0f64.to_bits(),
        0.02f64.to_bits(),
        30.0f64.to_bits(),
        &HostOps,
    );
    assert_eq!(r.unwrap_err(), EvalError::InsufficientDataError);
}

#[test]
fn empty_population_is_rejected() {
    let mut sampler = FixedSampler { rows: vec![vec![0.01], vec![0.02]] };
    let population: Vec<Portfolio> = Vec::new();
    let r = evaluate_population(&population, &config(1000.0, 0.02, 30.0, 2), &mut sampler, &HostOps);
    assert_eq!(r.unwrap_err(), EvalError::EmptyPopulationError);
    let r2 = run_batch_partial(&population, &config(1000.0, 0.02, 30.0, 2), 2, &mut sampler, &HostOps);
    assert_eq!(r2.unwrap_err(), EvalError::EmptyPopulationError);
}

#[test]
fn short_sampled_scenario_is_insufficient_data() {
    let mut sampler = FixedSampler { rows: vec![vec![0.01]] };
    let population = vec![portfolio(&[1.0])];
    let r = evaluate_population(&population, &config(1000.0, 0.02, 30.0, 2), &mut sampler, &HostOps);
    assert_eq!(r.unwrap_err(), EvalError::InsufficientDataError);
}

#[test]
fn mismatched_scenario_width_is_insufficient_data() {
    let mut sampler = FixedSampler { rows: vec![vec![0.01, 0.02], vec![0.02, 0.01]] };
    let population = vec![portfolio(&[1.0])];
    let r = evaluate_population(&population, &config(1000.0, 0.02, 30.0, 2), &mut sampler, &HostOps);
    assert_eq!(r.unwrap_err(), EvalError::InsufficientDataError);
}

#[test]
fn averages_align_with_population_order_and_length() {
    let mut sampler = FixedSampler { rows: vec![vec![0.01, 0.03], vec![-0.02, 0.01], vec![0.005, 0.0]] };
    let population = vec![
        portfolio(&[1.0, 0.0]),
        portfolio(&[0.0, 1.0]),
        portfolio(&[0.5, 0.5]),
    ];
    let res = evaluate_population(&population, &config(1000.0, 0.02, 30.0, 4), &mut sampler, &HostOps)
        .unwrap();
    assert_eq!(res.average_returns.len(), 3);
    assert_eq!(res.average_volatilities.len(), 3);
    assert_eq!(res.average_sharpe_ratios.len(), 3);
    // The sampler is deterministic, so each portfolio's average equals its
    // single-scenario metric; check alignment against a direct calculation.
    let scenario = sampler.sample_returns();
    for (i, p) in population.iter().enumerate() {
        let perf = compute_portfolio_performance(
            &scenario,
            &p.weights,
            1000.0f64.to_bits(),
            0.02f64.to_bits(),
            30.0f64.to_bits(),
            &HostOps,
        )
        .unwrap();
        let avg = f64::from_bits(res.average_returns[i]);
        let one = f64::from_bits(perf.annualized_return);
        assert!((avg - one).abs() < 1e-9 * one.abs().max(1.0));
    }
    // The last sampled scenario is retained verbatim.
    assert_eq!(res.last_scenario.rows.len(), 3);
    for (row, expect) in res.last_scenario.rows.iter().zip(scenario.rows.iter()) {
        assert_eq!(row, expect);
    }
}

#[test]
fn best_statistics_dominate_population_averages() {
    let mut sampler = FixedSampler { rows: vec![vec![0.02, -0.01], vec![-0.01, 0.03], vec![0.01, 0.01]] };
    let population = vec![
        portfolio(&[1.0, 0.0]),
        portfolio(&[0.0, 1.0]),
        portfolio(&[0.7, 0.3]),
    ];
    let res = evaluate_population(&population, &config(1000.0, 0.02, 30.0, 3), &mut sampler, &HostOps)
        .unwrap();
    let best_return = f64::from_bits(res.best_return);
    let avg_return = f64::from_bits(res.population_average_return);
    let best_sharpe = f64::from_bits(res.best_sharpe);
    let avg_sharpe = f64::from_bits(res.population_average_sharpe);
    let best_vol = f64::from_bits(res.best_volatility);
    let avg_vol = f64::from_bits(res.population_average_volatility);
    assert!(best_return >= avg_return);
    assert!(best_sharpe >= avg_sharpe);
    assert!(best_vol <= avg_vol);
    // And the best values are exactly the extremes of the aligned averages.
    assert_eq!(res.best_return, max_float(&res.average_returns));
    assert_eq!(res.best_volatility, min_float(&res.average_volatilities));
    assert_eq!(res.best_sharpe, max_float(&res.average_sharpe_ratios));
}

#[test]
fn merged_partial_results_match_one_combined_run() {
    let rows = vec![vec![0.015, -0.005], vec![-0.01, 0.02], vec![0.005, 0.01]];
    let population = vec![portfolio(&[0.6, 0.4]), portfolio(&[0.2, 0.8])];
    let cfg = config(1000.0, 0.02, 30.0, 1);

    let mut sampler_a = FixedSampler { rows: rows.clone() };
    let first = run_batch_partial(&population, &cfg, 1, &mut sampler_a, &HostOps).unwrap();
    let mut sampler_b = FixedSampler { rows: rows.clone() };
    let second = run_batch_partial(&population, &cfg, 1, &mut sampler_b, &HostOps).unwrap();
    let merged = merge_partial_results(first, second, &HostOps);
    assert_eq!(merged.iterations, 2);

    let mut sampler_c = FixedSampler { rows };
    let combined = run_batch_partial(&population, &cfg, 2, &mut sampler_c, &HostOps).unwrap();
    assert_eq!(combined.iterations, 2);

    assert_eq!(merged.sum_returns, combined.sum_returns);
    assert_eq!(merged.sum_volatilities, combined.sum_volatilities);
    assert_eq!(merged.sum_sharpes, combined.sum_sharpes);

    // Dividing by the combined iteration count normalizes the merge.
    let (avg_r, avg_v, avg_s) = partial_averages(&merged, &HostOps);
    let (one_r, one_v, one_s) = partial_averages(&combined, &HostOps);
    assert_eq!(avg_r, one_r);
    assert_eq!(avg_v, one_v);
    assert_eq!(avg_s, one_s);
}

#[test]
fn zero_iterations_give_zero_sums_and_an_empty_scenario() {
    let mut sampler = FixedSampler { rows: vec![vec![0.01], vec![0.02]] };
    let population = vec![portfolio(&[1.0])];
    let r = run_batch_partial(&population, &config(1000.0, 0.02, 30.0, 1), 0, &mut sampler, &HostOps)
        .unwrap();
    assert_eq!(r.iterations, 0);
    assert_eq!(r.sum_returns, vec![0.0f64.to_bits()]);
    assert!(r.last_scenario.rows.is_empty());
}

#[test]
fn portfolio_batch_decodes_back_to_its_weights() {
    let batch: Vec<Vec<f64>> = vec![vec![0.5, 0.5], vec![1.0, 0.0], vec![0.25, 0.75]];
    let blob = bincode::serialize(&batch).unwrap();
    let decoded = decode_portfolio_batch(&blob).unwrap();
    assert_eq!(decoded.len(), 3);
    for (p, w) in decoded.iter().zip(batch.iter()) {
        let expect: Vec<u64> = w.iter().map(|x| x.to_bits()).collect();
        assert_eq!(p.weights, expect);
    }
}

#[test]
fn malformed_portfolio_batch_is_a_decode_error() {
    let blob: Vec<u8> = vec![1, 2, 3];
    let r = decode_portfolio_batch(&blob);
    assert_eq!(r.unwrap_err(), EvalError::DecodeError);
}

#[test]
fn bit_level_comparisons_match_binary64_semantics() {
    let nan = f64::NAN.to_bits();
    let one = 1.0f64.to_bits();
    let minus_one = (-1.0f64).to_bits();
    let pzero = 0.0f64.to_bits();
    let nzero = (-0.0f64).to_bits();
    assert!(lt64(minus_one, one));
    assert!(!lt64(one, minus_one));
    assert!(!lt64(pzero, nzero));
    assert!(!lt64(nzero, pzero));
    assert!(ge64(pzero, nzero));
    assert!(ge64(nzero, pzero));
    assert!(!lt64(nan, one));
    assert!(!ge64(nan, one));
    assert!(!ge64(one, nan));
    assert!(lt64(f64::NEG_INFINITY.to_bits(), minus_one));
    assert!(ge64(f64::INFINITY.to_bits(), one));

    assert!(is_effectively_zero(1.0e-10f64.to_bits()));
    assert!(is_effectively_zero((-1.0e-10f64).to_bits()));
    assert!(!is_effectively_zero(1.0e-8f64.to_bits()));
    assert!(is_effectively_nonzero((-1.0e-8f64).to_bits()));
    assert!(!is_effectively_nonzero(nan));
    assert!(!is_effectively_zero(nan));
}
