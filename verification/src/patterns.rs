//! Regular expressions, compiled and searched by the `regex` crate.
use vstd::prelude::*;

verus! {

#[verifier::external_type_specification]
#[verifier::external_body]
pub struct ExRegex(regex::Regex);

#[verifier::external_type_specification]
#[verifier::external_body]
pub struct ExRegexSet(regex::RegexSet);

#[verifier::external_type_specification]
#[verifier::external_body]
pub struct ExRegexError(regex::Error);

/// Whether `regex::Regex::new` accepts `pattern`.
pub uninterp spec fn regex_compiles(pattern: Seq<char>) -> bool;

/// The text of the leftmost-first match of `pattern` in `haystack`, as
/// `regex::Regex::find` reports it (`None` when nothing matches).
pub uninterp spec fn regex_first_match(pattern: Seq<char>, haystack: Seq<char>) -> Option<Seq<char>>;

/// Whether `regex::RegexSet::new` accepts the list `patterns`.
pub uninterp spec fn regex_set_compiles(patterns: Seq<Seq<char>>) -> bool;

/// Whether the member `pattern` of a compiled set matches somewhere in
/// `haystack`, as `regex::RegexSet::matches` reports it for that member.
pub uninterp spec fn regex_set_member_matches(pattern: Seq<char>, haystack: Seq<char>) -> bool;

/// A regular expression compiled from `pattern`.
pub(crate) struct Pattern {
    compiled: regex::Regex,
    pattern: Ghost<Seq<char>>,
}

impl Pattern {
    /// The source text that this expression was compiled from.
    pub closed spec fn source(&self) -> Seq<char> {
        self.pattern@
    }
}

/// Compiles `pattern` with `regex::Regex::new`. The contract claims that it
/// succeeds exactly when the pattern is accepted (`regex_compiles`), and that
/// the compiled expression remembers its source text, as `Regex::as_str`
/// documents.
#[verifier::external_body]
pub(crate) fn compile_pattern(pattern: &str) -> (r: Result<Pattern, regex::Error>)
    ensures
        r is Ok <==> regex_compiles(pattern@),
        r matches Ok(p) ==> p.source() == pattern@,
{
    regex::Regex::new(pattern).map(|compiled| Pattern { compiled, pattern: Ghost(pattern@) })
}

/// Searches `haystack` with `regex::Regex::find` and returns the matched
/// text. The contract names the result (`regex_first_match`), over the
/// expression's source text and the haystack.
#[verifier::external_body]
pub(crate) fn find_first(p: &Pattern, haystack: &str) -> (r: Option<String>)
    ensures
        r matches Some(s) ==> regex_first_match(p.source(), haystack@) == Some(s@),
        r is None ==> regex_first_match(p.source(), haystack@) is None,
{
    p.compiled.find(haystack).map(|m| m.as_str().to_string())
}

/// A set of regular expressions compiled together from a list of patterns.
pub(crate) struct PatternSet {
    compiled: regex::RegexSet,
    patterns: Ghost<Seq<Seq<char>>>,
}

impl PatternSet {
    /// The source texts that the set was compiled from, in order.
    pub closed spec fn sources(&self) -> Seq<Seq<char>> {
        self.patterns@
    }
}

/// Compiles the list `patterns` with `regex::RegexSet::new`. The contract
/// claims that it succeeds exactly when the list is accepted
/// (`regex_set_compiles`), and that the set remembers its source texts in
/// order, as `RegexSet::patterns` documents.
#[verifier::external_body]
pub(crate) fn compile_pattern_set(patterns: &[&str]) -> (r: Result<PatternSet, regex::Error>)
    ensures
        r is Ok <==> regex_set_compiles(patterns@.map_values(|p: &str| p@)),
        r matches Ok(s) ==> s.sources() == patterns@.map_values(|p: &str| p@),
{
    regex::RegexSet::new(patterns).map(
        |compiled| PatternSet { compiled, patterns: Ghost(patterns@.map_values(|p: &str| p@)) },
    )
}

/// Runs `regex::RegexSet::matches` on `haystack` and reads, with
/// `SetMatches::matched`, one flag per pattern of the set. The contract
/// claims, as `SetMatches::len` documents, that there is one flag for each
/// pattern, and, as `RegexSet::matches` and `SetMatches::matched` document
/// (the flag at index `i` says whether the regex given at index `i` matches
/// the haystack), that each flag is the match of its own pattern
/// (`regex_set_member_matches`) on the haystack.
#[verifier::external_body]
pub(crate) fn set_matches(s: &PatternSet, haystack: &str) -> (r: Vec<bool>)
    ensures
        r@.len() == s.sources().len(),
        forall|i: int|
            0 <= i < r@.len() ==> #[trigger] r@[i] == regex_set_member_matches(
                s.sources()[i],
                haystack@,
            ),
{
    let m = s.compiled.matches(haystack);
    (0..m.len()).map(|i| m.matched(i)).collect()
}

} // verus!
