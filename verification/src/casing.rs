//! The identifier casing engine. A wire key or declaration name is produced
//! by one of a fixed set of pure, total casing transforms; the transforms
//! themselves come from the Inflector crate and are named here so that every
//! consumer of a key provably agrees with every producer.

use inflector::Inflector;
use vstd::prelude::*;

verus! {

/// The result of Inflector's `to_camel_case`: a pure function of the
/// characters alone.
pub uninterp spec fn camel_of(s: Seq<char>) -> Seq<char>;

/// The result of Inflector's `to_pascal_case`: a pure function of the
/// characters alone.
pub uninterp spec fn pascal_of(s: Seq<char>) -> Seq<char>;

/// The result of Inflector's `to_snake_case`: a pure function of the
/// characters alone.
pub uninterp spec fn snake_of(s: Seq<char>) -> Seq<char>;

/// The result of Inflector's `to_screaming_snake_case`: a pure function of
/// the characters alone.
pub uninterp spec fn screaming_snake_of(s: Seq<char>) -> Seq<char>;

/// Relies on Inflector's `to_camel_case`: it reads only the characters of
/// its argument and is deterministic.
#[verifier::external_body]
pub fn to_camel_case(s: &str) -> (r: String)
    ensures
        r@ == camel_of(s@),
{
    s.to_camel_case()
}

/// Relies on Inflector's `to_pascal_case`: it reads only the characters of
/// its argument and is deterministic.
#[verifier::external_body]
pub fn to_pascal_case(s: &str) -> (r: String)
    ensures
        r@ == pascal_of(s@),
{
    s.to_pascal_case()
}

/// Relies on Inflector's `to_snake_case`: it reads only the characters of
/// its argument and is deterministic.
#[verifier::external_body]
pub fn to_snake_case(s: &str) -> (r: String)
    ensures
        r@ == snake_of(s@),
{
    s.to_snake_case()
}

/// Relies on Inflector's `to_screaming_snake_case`: it reads only the
/// characters of its argument and is deterministic.
#[verifier::external_body]
pub fn to_screaming_snake_case(s: &str) -> (r: String)
    ensures
        r@ == screaming_snake_of(s@),
{
    s.to_screaming_snake_case()
}

/// The casing conventions a target or a serialization tag may ask for.
#[derive(Clone, Copy, PartialEq, Eq, Structural, Debug)]
pub enum Casing {
    Original,
    CamelCase,
    PascalCase,
    SnakeCase,
    ScreamingSnakeCase,
}

/// What `format_string` returns for each convention.
pub open spec fn spec_format_string(casing: Casing, s: Seq<char>) -> Seq<char> {
    match casing {
        Casing::Original => s,
        Casing::CamelCase => camel_of(s),
        Casing::PascalCase => pascal_of(s),
        Casing::SnakeCase => snake_of(s),
        Casing::ScreamingSnakeCase => screaming_snake_of(s),
    }
}

impl Casing {
    /// Transforms an identifier into this convention; pure and total, with
    /// no error cases.
    pub fn format_string(&self, s: &str) -> (r: String)
        ensures
            r@ == spec_format_string(*self, s@),
    {
        match self {
            Casing::Original => s.to_owned(),
            Casing::CamelCase => to_camel_case(s),
            Casing::PascalCase => to_pascal_case(s),
            Casing::SnakeCase => to_snake_case(s),
            Casing::ScreamingSnakeCase => to_screaming_snake_case(s),
        }
    }
}

} // verus!
