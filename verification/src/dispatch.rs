//! The algorithm dispatcher: from a method identifier to the algorithm
//! that runs, or to the typed not-implemented signal.

use vstd::prelude::*;
use crate::error::ConvError;
use crate::method::Method;
use crate::method::method_of_name;
use crate::method::parse_method;

verus! {

/// The inverse-conversion algorithms that have an implementation.
#[derive(Clone, Copy, Debug, PartialEq, Eq, Structural)]
pub enum Algorithm {
    Bowring,
    Olson,
    Ublox,
}

/// Whether a method identifier has an implementation behind it.
pub open spec fn is_implemented(m: Method) -> bool {
    m != Method::Vermeille && m != Method::Borkowski
}

/// The algorithm each implemented method runs; the placeholders map to
/// the not-implemented signal carrying their own identifier.
pub open spec fn algorithm_of_method(m: Method) -> Result<Algorithm, ConvError> {
    match m {
        Method::Bowring => Ok(Algorithm::Bowring),
        Method::Olson => Ok(Algorithm::Olson),
        Method::Ublox => Ok(Algorithm::Ublox),
        Method::Vermeille => Err(ConvError::NotImplemented(Method::Vermeille)),
        Method::Borkowski => Err(ConvError::NotImplemented(Method::Borkowski)),
    }
}

/// Select the algorithm a method identifier runs.
///
/// Succeeds exactly on the implemented methods; a placeholder method
/// yields `NotImplemented` with its own identifier, never a numeric
/// result and never an abort.
pub fn select_algorithm(m: Method) -> (r: Result<Algorithm, ConvError>)
    ensures
        r == algorithm_of_method(m),
        r is Ok <==> is_implemented(m),
{
    match m {
        Method::Bowring => Ok(Algorithm::Bowring),
        Method::Olson => Ok(Algorithm::Olson),
        Method::Ublox => Ok(Algorithm::Ublox),
        Method::Vermeille => Err(ConvError::NotImplemented(Method::Vermeille)),
        Method::Borkowski => Err(ConvError::NotImplemented(Method::Borkowski)),
    }
}

/// The plan a free-text method name leads to: parse the name (unknown
/// names default to Olson), then select.
pub open spec fn plan_of_name(name: Seq<char>) -> Result<Algorithm, ConvError> {
    algorithm_of_method(method_of_name(name))
}

/// Map a free-text method name to the algorithm that will run, or to the
/// not-implemented signal for a declared placeholder.
pub fn plan_conversion(name: &str) -> (r: Result<Algorithm, ConvError>)
    ensures
        r == plan_of_name(name@),
{
    select_algorithm(parse_method(name))
}

/// A name that is not a known method identifier leads to the same plan as
/// the name `"olson"`, and that plan is to run Olson: the documented
/// unknown-to-default policy, end to end.
pub proof fn lemma_unknown_name_runs_olson(name: Seq<char>)
    requires
        !crate::method::is_known_method_name(name),
    ensures
        plan_of_name(name) == plan_of_name("olson"@),
        plan_of_name(name) == Ok::<Algorithm, ConvError>(Algorithm::Olson),
{
    crate::method::lemma_unknown_name_defaults_to_olson(name);
    crate::method::lemma_name_round_trip(Method::Olson);
}

} // verus!
