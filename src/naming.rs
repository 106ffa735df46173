use vstd::prelude::*;
use heck::ToSnakeCase;

verus! {

/// The snake-case form of a text, as `heck` computes it.
pub uninterp spec fn snake_case_of(s: Seq<char>) -> Seq<char>;

/// Relies on `heck::ToSnakeCase::to_snake_case` for `str`: the result depends
/// on the characters of the input alone.
#[verifier::external_body]
fn to_snake_case(s: &str) -> (r: String)
    ensures
        r@ == snake_case_of(s@),
{
    s.to_snake_case()
}

/// The identifier of the accessor that joins `prefix`, a variant name and
/// `suffix`: the snake-case form of their concatenation.
pub open spec fn accessor_ident(prefix: Seq<char>, variant: Seq<char>, suffix: Seq<char>) -> Seq<char> {
    snake_case_of(prefix + variant + suffix)
}

/// Joins `prefix`, the variant name and `suffix`, then converts the whole to
/// snake case.
pub fn accessor_name(prefix: &str, variant: &str, suffix: &str) -> (r: String)
    ensures
        r@ == accessor_ident(prefix@, variant@, suffix@),
{
    let mut joined = String::from_str(prefix);
    joined.append(variant);
    joined.append(suffix);
    to_snake_case(joined.as_str())
}

/// The name of the error type generated for an enum named `name`.
pub open spec fn error_ident(name: Seq<char>) -> Seq<char> {
    name + "Error"@
}

/// The name of the error type generated for the enum `name`: `name` followed
/// by `Error`.
pub fn error_name(name: &str) -> (r: String)
    ensures
        r@ == error_ident(name@),
{
    let mut r = String::from_str(name);
    r.append("Error");
    r
}

} // verus!
