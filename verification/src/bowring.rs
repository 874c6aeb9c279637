//! A bounded driver for the iterative (Bowring) inverse conversion.
//!
//! The fixed-point refinement itself works on `f64` state and lives with
//! the caller, behind the [`ConvergenceStep`] trait. The driver here owns
//! the loop: it is the part that guarantees the iteration stops, either
//! because the height estimate settled or because the step cap was hit,
//! so that no input can make a conversion run forever.

use vstd::prelude::*;
use crate::error::ConvError;

verus! {

/// The step cap the conversions use: generous next to the handful of
/// refinements a well-posed point needs, small enough that a conversion
/// that will never settle fails fast.
pub const BOWRING_MAX_STEPS: u64 = 100;

/// One refinement pass of a fixed-point iteration.
///
/// An implementor keeps the numeric state (the current latitude and
/// height estimates) and, on each call, recomputes the estimates once and
/// reports whether they have settled.
pub trait ConvergenceStep {
    /// Refine the estimates once; `true` means they have settled and the
    /// iteration may stop.
    fn step(&mut self) -> bool;
}

/// How a driven iteration ended: whether the estimates settled, and how
/// many steps were taken.
#[derive(Clone, Copy, Debug, PartialEq, Eq, Structural)]
pub struct IterationOutcome {
    pub converged: bool,
    pub steps: u64,
}

/// Drive a fixed-point iteration until the stepper reports that its
/// estimates settled, but never beyond `max_steps` steps.
///
/// Whether the iteration settles is the stepper's to decide; what is
/// promised holds of every stepper: the step count never exceeds the cap,
/// a settled outcome took at least one step, and an unsettled outcome
/// means the whole budget was spent.
pub fn run_to_convergence<S: ConvergenceStep>(stepper: &mut S, max_steps: u64) -> (o:
    IterationOutcome)
    ensures
        o.steps <= max_steps,
        o.converged ==> 1 <= o.steps,
        !o.converged ==> o.steps == max_steps,
{
    let mut steps: u64 = 0;
    let mut converged: bool = false;
    while !converged && steps < max_steps
        invariant
            steps <= max_steps,
            converged ==> 1 <= steps,
        decreases max_steps - steps,
    {
        converged = stepper.step();
        steps = steps + 1;
    }
    IterationOutcome { converged, steps }
}

/// The conversion result an iteration outcome stands for: the step count
/// on convergence, the convergence-failure signal otherwise.
pub open spec fn convergence_result_spec(o: IterationOutcome) -> Result<u64, ConvError> {
    if o.converged {
        Ok(o.steps)
    } else {
        Err(ConvError::ConvergenceFailure)
    }
}

/// Turn an iteration outcome into the caller-facing result: `Ok` with the
/// step count exactly when the estimates settled, `ConvergenceFailure`
/// exactly when they did not.
pub fn convergence_result(o: IterationOutcome) -> (r: Result<u64, ConvError>)
    ensures
        r == convergence_result_spec(o),
        r is Ok <==> o.converged,
{
    if o.converged {
        Ok(o.steps)
    } else {
        Err(ConvError::ConvergenceFailure)
    }
}

} // verus!
