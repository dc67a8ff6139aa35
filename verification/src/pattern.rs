//! The boundary to the `regex` crate.
//!
//! Nothing in this module is proved: it declares the crate's types and states
//! what its functions return. Everything else in the library is verified
//! against these statements.

use vstd::prelude::*;

verus! {

/// A compiled regular expression of the `regex` crate. Its inside is not
/// visible to the verifier.
#[verifier::external_type_specification]
#[verifier::external_body]
pub struct ExRegex(regex::Regex);

/// The error of the `regex` crate for a pattern that it does not accept.
#[verifier::external_type_specification]
#[verifier::external_body]
pub struct ExRegexError(regex::Error);

/// What `regex::Regex::new` returns for a pattern.
pub uninterp spec fn compiled(pattern: Seq<char>) -> Result<regex::Regex, regex::Error>;

/// What `regex::Regex::is_match` returns for an expression and a haystack.
pub uninterp spec fn found_in(expression: regex::Regex, haystack: Seq<char>) -> bool;

/// Whether the `regex` crate accepts `pattern`.
pub open spec fn pattern_valid(pattern: Seq<char>) -> bool {
    compiled(pattern) is Ok
}

/// Whether the expression that `pattern` compiles to occurs somewhere in
/// `haystack`. False for a pattern that does not compile.
pub open spec fn pattern_matches(pattern: Seq<char>, haystack: Seq<char>) -> bool {
    match compiled(pattern) {
        Ok(expression) => found_in(expression, haystack),
        Err(_) => false,
    }
}

/// Calls `regex::Regex::new`. The claim: the result is a function of the
/// pattern's text alone, named `compiled`.
#[verifier::external_body]
pub(crate) fn compile(pattern: &str) -> (r: Result<regex::Regex, regex::Error>)
    ensures
        r == compiled(pattern@),
{
    regex::Regex::new(pattern)
}

/// Calls `regex::Regex::is_match`. The claim: the result is a function of
/// the expression and of the haystack's text alone, named `found_in`.
#[verifier::external_body]
pub(crate) fn is_match(expression: &regex::Regex, haystack: &str) -> (b: bool)
    ensures
        b == found_in(*expression, haystack@),
{
    expression.is_match(haystack)
}

} // verus!
