//! Monte Carlo portfolio evaluation engine.
//!
//! The engine scores a population of portfolios against randomly sampled
//! market-return scenarios: a performance calculator turns one scenario and
//! one weight vector into annualized risk/return/efficiency metrics, a
//! population evaluator averages those metrics over many scenarios and
//! reduces them into population statistics, and a batch layer returns the
//! raw per-portfolio sums so that independent runs can be merged before the
//! final division.
//!
//! Verus has no floating-point support, so every real-valued quantity is
//! carried as the bit pattern of an IEEE-754 binary64 value, held in a
//! `u64`. Comparisons and tolerance tests are fully determined by the bit
//! patterns and are implemented and verified in `bits`; the arithmetic
//! itself is supplied by the host through the `Real64` trait, exactly as
//! the random scenarios are supplied through the `Sampler` trait.

pub mod batch;
pub mod bits;
pub mod host;
pub mod perf;
pub mod population;
pub mod types;
