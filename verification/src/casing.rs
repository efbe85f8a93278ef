use heck::CamelCase;
use heck::SnakeCase;
use vstd::prelude::*;

verus! {

/// The UpperCamelCase form of a string, as heck's conversion defines it.
pub uninterp spec fn camel_of(s: Seq<char>) -> Seq<char>;

/// The snake_case form of a string, as heck's conversion defines it.
pub uninterp spec fn snake_of(s: Seq<char>) -> Seq<char>;

/// Relies on heck's `CamelCase::to_camel_case`: the result depends on the
/// input characters alone; an empty string holds no words, so it stays empty.
#[verifier::external_body]
pub(crate) fn to_camel(s: &str) -> (r: String)
    ensures
        r@ == camel_of(s@),
        s@.len() == 0 ==> r@.len() == 0,
{
    s.to_camel_case()
}

/// Relies on heck's `SnakeCase::to_snake_case`: the result depends on the
/// input characters alone; an empty string holds no words, so it stays empty.
#[verifier::external_body]
pub(crate) fn to_snake(s: &str) -> (r: String)
    ensures
        r@ == snake_of(s@),
        s@.len() == 0 ==> r@.len() == 0,
{
    s.to_snake_case()
}

} // verus!
