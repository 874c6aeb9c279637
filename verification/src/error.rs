//! The error values that a conversion can surface to its caller.

use vstd::prelude::*;
use crate::method::Method;

verus! {

/// A condition that a conversion reports instead of aborting.
///
/// Degenerate geometry (a point on the polar axis) is handled inside the
/// algorithms and never surfaces here; these values cover real failures:
/// bad ellipsoid parameters, a method that is declared but not implemented,
/// and an iteration that ran out of its step budget.
#[derive(Clone, Copy, Debug, PartialEq, Eq, Structural)]
pub enum ConvError {
    /// The ellipsoid constructor was given a non-positive semi-major axis
    /// or a non-positive inverse flattening.
    InvalidEllipsoidParameters,
    /// The named method is part of the public surface but has no
    /// implementation yet.
    NotImplemented(Method),
    /// The iterative method hit its step cap before the height estimate
    /// settled.
    ConvergenceFailure,
}

/// What `describe` returns for each error value.
pub open spec fn describe_spec(e: ConvError) -> Seq<char> {
    match e {
        ConvError::InvalidEllipsoidParameters => "invalid ellipsoid parameters"@,
        ConvError::NotImplemented(_) => "method not yet implemented"@,
        ConvError::ConvergenceFailure => "iteration failed to converge"@,
    }
}

impl ConvError {
    /// A short human-readable account of the error, for callers that print.
    pub fn describe(&self) -> (r: String)
        ensures
            r@ == describe_spec(*self),
    {
        match self {
            ConvError::InvalidEllipsoidParameters => "invalid ellipsoid parameters".to_owned(),
            ConvError::NotImplemented(_) => "method not yet implemented".to_owned(),
            ConvError::ConvergenceFailure => "iteration failed to converge".to_owned(),
        }
    }
}

} // verus!
