//! Interfaces the host supplies to the engine.
//!
//! Two collaborators stand outside the verified engine: the arithmetic of
//! IEEE-754 binary64 values, which Verus cannot express, and the random
//! scenario generator, whose model is out of the engine's scope. Both are
//! consumed through traits on bit patterns; the engine promises nothing
//! about the values they return and validates what needs validating.

use vstd::prelude::*;
use crate::types::ReturnMatrix;

verus! {

/// Binary64 arithmetic on bit patterns, supplied by the host.
///
/// Each method must return the bit pattern of the IEEE-754 binary64
/// result of the named operation on the values with the given bit
/// patterns. The engine treats the results as opaque: its contracts state
/// only what follows from the bit patterns themselves.
pub trait Real64 {
    /// The sum `a + b`.
    fn add64(&self, a: u64, b: u64) -> u64;

    /// The difference `a - b`.
    fn sub64(&self, a: u64, b: u64) -> u64;

    /// The product `a * b`.
    fn mul64(&self, a: u64, b: u64) -> u64;

    /// The quotient `a / b`.
    fn div64(&self, a: u64, b: u64) -> u64;

    /// `e` raised to `a`.
    fn exp64(&self, a: u64) -> u64;

    /// The square root of `a`.
    fn sqrt64(&self, a: u64) -> u64;

    /// The count `n` converted to binary64.
    fn from_count(&self, n: usize) -> u64;
}

/// The random scenario generator: one call draws one fresh matrix of
/// log-returns. The engine assumes nothing about the result and checks
/// its shape before any numeric work.
pub trait Sampler {
    /// Draws one scenario.
    fn sample_returns(&mut self) -> ReturnMatrix;
}

} // verus!
