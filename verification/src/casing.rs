//! The case conversion used for host-visible names.
use vstd::prelude::*;

verus! {

/// The camel-case rendering of a name: what convert_case yields for it. The
/// result is a function of the input characters alone.
pub uninterp spec fn camel_of(s: Seq<char>) -> Seq<char>;

/// Relies on convert_case's `Casing::to_case` with `Case::Camel`: a pure
/// conversion of the input string, splitting on the default boundaries and
/// rejoining in camel case.
#[verifier::external_body]
pub(crate) fn to_camel_case(s: &str) -> (r: String)
    ensures
        r@ == camel_of(s@),
{
    convert_case::Casing::to_case(&s, convert_case::Case::Camel)
}

} // verus!
