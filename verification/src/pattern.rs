//! Regular expressions, compiled and run by the `regex` crate.

use vstd::prelude::*;

verus! {

/// The `regex` crate's compiled regular expression.
#[verifier::external_type_specification]
#[verifier::external_body]
pub struct ExRegex(regex::Regex);

/// Named result of `regex::Regex::new`: whether the pattern compiles.
pub uninterp spec fn regex_compiles(pattern: Seq<char>) -> bool;

/// Named result of `regex::Regex::find_iter(..).count()`: the number of
/// successive non-overlapping matches of the pattern in the text.
pub uninterp spec fn regex_match_count(pattern: Seq<char>, text: Seq<char>) -> nat;

/// A compiled regular expression together with its source.
pub struct Pattern {
    source: String,
    re: regex::Regex,
}

impl Pattern {
    /// The source of the regular expression.
    pub closed spec fn source(&self) -> Seq<char> {
        self.source@
    }
}

/// Calls `regex::Regex::new` on `source`. The contract claims that the
/// result is present exactly when the pattern compiles, and that it keeps
/// its source.
#[verifier::external_body]
pub(crate) fn compile_pattern(source: &str) -> (r: Option<Pattern>)
    ensures
        r is Some <==> regex_compiles(source@),
        r matches Some(p) ==> p.source() == source@,
{
    match regex::Regex::new(source) {
        Ok(re) => Some(Pattern { source: source.to_string(), re }),
        Err(_) => None,
    }
}

/// Calls `regex::Regex::find_iter` on `text` and counts the matches. The
/// contract names the count, a function of the pattern and the text.
#[verifier::external_body]
pub(crate) fn count_matches(p: &Pattern, text: &str) -> (n: usize)
    ensures
        n == regex_match_count(p.source(), text@),
{
    p.re.find_iter(text).count()
}

/// Calls `regex::Regex::is_match` on `text`. The contract claims what the
/// crate documents: there is a match anywhere in the text, that is, the
/// successive matches are not none.
#[verifier::external_body]
pub(crate) fn has_match(p: &Pattern, text: &str) -> (b: bool)
    ensures
        b == (regex_match_count(p.source(), text@) > 0),
{
    p.re.is_match(text)
}

} // verus!
