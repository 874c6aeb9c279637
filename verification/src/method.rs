//! Method identifiers for the inverse (ECEF to LLA) conversion.
//!
//! Callers select an algorithm by name at the boundary; here the free-text
//! name becomes a closed identifier, with an explicit unknown-to-default
//! policy: any name that is not one of the five known identifiers selects
//! Olson.

use vstd::prelude::*;

verus! {

/// The identifiers of the inverse-conversion methods in the public surface.
///
/// `Bowring`, `Olson` and `Ublox` are implemented; `Vermeille` and
/// `Borkowski` are declared placeholders.
#[derive(Clone, Copy, Debug, PartialEq, Eq, Structural)]
pub enum Method {
    Bowring,
    Olson,
    Ublox,
    Vermeille,
    Borkowski,
}

/// Whether a name is one of the five known method identifiers.
pub open spec fn is_known_method_name(name: Seq<char>) -> bool {
    ||| name == "bowring"@
    ||| name == "olson"@
    ||| name == "ublox"@
    ||| name == "vermeille"@
    ||| name == "borkowski"@
}

/// The method a name selects: each known name its own method, and any
/// other name the Olson default.
pub open spec fn method_of_name(name: Seq<char>) -> Method {
    if name == "bowring"@ {
        Method::Bowring
    } else if name == "olson"@ {
        Method::Olson
    } else if name == "ublox"@ {
        Method::Ublox
    } else if name == "vermeille"@ {
        Method::Vermeille
    } else if name == "borkowski"@ {
        Method::Borkowski
    } else {
        Method::Olson
    }
}

/// Turn a free-text method name into a `Method`, defaulting to Olson for
/// an unrecognized name.
pub fn parse_method(name: &str) -> (m: Method)
    ensures
        m == method_of_name(name@),
{
    let owned = name.to_owned();
    if owned == "bowring".to_owned() {
        Method::Bowring
    } else if owned == "olson".to_owned() {
        Method::Olson
    } else if owned == "ublox".to_owned() {
        Method::Ublox
    } else if owned == "vermeille".to_owned() {
        Method::Vermeille
    } else if owned == "borkowski".to_owned() {
        Method::Borkowski
    } else {
        Method::Olson
    }
}

/// The canonical name of each method, the one `method_of_name` maps back
/// to it.
pub open spec fn name_of_method(m: Method) -> Seq<char> {
    match m {
        Method::Bowring => "bowring"@,
        Method::Olson => "olson"@,
        Method::Ublox => "ublox"@,
        Method::Vermeille => "vermeille"@,
        Method::Borkowski => "borkowski"@,
    }
}

impl Method {
    /// The canonical name of this method.
    pub fn name(&self) -> (r: &'static str)
        ensures
            r@ == name_of_method(*self),
    {
        match self {
            Method::Bowring => "bowring",
            Method::Olson => "olson",
            Method::Ublox => "ublox",
            Method::Vermeille => "vermeille",
            Method::Borkowski => "borkowski",
        }
    }
}

/// An unrecognized method name selects the same method as the name
/// `"olson"`: the unknown-to-default policy of the dispatcher.
pub proof fn lemma_unknown_name_defaults_to_olson(name: Seq<char>)
    requires
        !is_known_method_name(name),
    ensures
        method_of_name(name) == method_of_name("olson"@),
{
    lemma_method_names_distinct();
}

/// Each method's canonical name parses back to that method: the name map
/// and the parse map invert each other on the canonical names.
pub proof fn lemma_name_round_trip(m: Method)
    ensures
        method_of_name(name_of_method(m)) == m,
{
    lemma_method_names_distinct();
}

/// The five canonical method names are pairwise distinct.
proof fn lemma_method_names_distinct()
    ensures
        "bowring"@ != "olson"@,
        "bowring"@ != "ublox"@,
        "bowring"@ != "vermeille"@,
        "bowring"@ != "borkowski"@,
        "olson"@ != "ublox"@,
        "olson"@ != "vermeille"@,
        "olson"@ != "borkowski"@,
        "ublox"@ != "vermeille"@,
        "ublox"@ != "borkowski"@,
        "vermeille"@ != "borkowski"@,
{
    reveal_strlit("bowring");
    reveal_strlit("olson");
    reveal_strlit("ublox");
    reveal_strlit("vermeille");
    reveal_strlit("borkowski");
    assert("bowring"@.len() == 7);
    assert("olson"@.len() == 5);
    assert("ublox"@.len() == 5);
    assert("vermeille"@.len() == 9);
    assert("borkowski"@.len() == 9);
    assert("olson"@[0] == 'o' && "ublox"@[0] == 'u');
    assert("vermeille"@[0] == 'v' && "borkowski"@[0] == 'b');
}

} // verus!
