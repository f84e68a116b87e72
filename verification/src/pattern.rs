//! Regular expressions, as the regex crate compiles and matches them.

use vstd::prelude::*;

verus! {

#[verifier::external_type_specification]
#[verifier::external_body]
pub struct ExRegex(regex::Regex);

/// Whether the regex crate accepts `pattern` as a regular expression.
pub uninterp spec fn pattern_compiles(pattern: Seq<char>) -> bool;

/// The pattern that a compiled regular expression was made from.
pub uninterp spec fn pattern_of(re: regex::Regex) -> Seq<char>;

/// Whether the regular expression `pattern` matches somewhere in `text`.
pub uninterp spec fn pattern_matches(pattern: Seq<char>, text: Seq<char>) -> bool;

/// `regex::Regex::new`: compiles `pattern` with the crate's default limits.
/// The outcome depends on the pattern alone, and the compiled expression
/// remembers its pattern. A failure is handed back as the text of the
/// crate's error.
#[verifier::external_body]
pub(crate) fn compile_pattern(pattern: &str) -> (r: Result<regex::Regex, String>)
    ensures
        (r is Ok) == pattern_compiles(pattern@),
        r matches Ok(re) ==> pattern_of(re) == pattern@,
{
    regex::Regex::new(pattern).map_err(|e| e.to_string())
}

/// `regex::Regex::is_match`: whether the expression matches anywhere in
/// `text`, which depends on its pattern and the text alone.
#[verifier::external_body]
pub(crate) fn regex_is_match(re: &regex::Regex, text: &str) -> (b: bool)
    ensures
        b == pattern_matches(pattern_of(*re), text@),
{
    re.is_match(text)
}

} // verus!
