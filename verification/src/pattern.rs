//! Regular-expression patterns compiled once and matched against request
//! paths, on top of the `regex` crate.

use vstd::prelude::*;

verus! {

/// `regex::Regex`, carried opaquely.
#[verifier::external_type_specification]
#[verifier::external_body]
pub struct ExRegex(regex::Regex);

/// `regex::Error`, carried opaquely.
#[verifier::external_type_specification]
#[verifier::external_body]
pub struct ExRegexError(regex::Error);

/// `regex::Captures`, the groups of a match, carried opaquely.
#[verifier::external_type_specification]
#[verifier::external_body]
pub struct ExCaptures<'h>(regex::Captures<'h>);

/// Whether `regex::Regex::new` accepts `pattern` (its syntax is valid and the
/// compiled program stays under the default size limits). The size limit is
/// counted in the memory sizes of the target, so near the limit the answer
/// may differ between a 32-bit and a 64-bit build; within one build it is a
/// function of the pattern.
pub uninterp spec fn regex_compiles(pattern: Seq<char>) -> bool;

/// Whether the regular expression `pattern` matches somewhere in `haystack`
/// (unanchored search, as `regex::Regex::is_match` does it).
pub uninterp spec fn regex_is_match(pattern: Seq<char>, haystack: Seq<char>) -> bool;

/// A regular expression together with the pattern text it was compiled from.
/// Values are only made by [`compile`], so `re` is always the compilation
/// of `source`.
pub struct CompiledPattern {
    source: String,
    re: regex::Regex,
}

impl View for CompiledPattern {
    type V = Seq<char>;

    /// The pattern text.
    open spec fn view(&self) -> Seq<char> {
        self.source_view()
    }
}

impl CompiledPattern {
    pub closed spec fn source_view(&self) -> Seq<char> {
        self.source@
    }
}

/// Calls `regex::Regex::new(pattern)`. Trusted: the call succeeds exactly
/// when `regex_compiles(pattern@)` (a function of the pattern alone, since
/// `Regex::new` uses fixed default limits, measured for the target it is
/// built for), and on success the value keeps
/// `pattern` as its source.
#[verifier::external_body]
pub(crate) fn compile(pattern: &str) -> (res: Result<CompiledPattern, regex::Error>)
    ensures
        res.is_ok() == regex_compiles(pattern@),
        res matches Ok(c) ==> c@ == pattern@,
{
    match regex::Regex::new(pattern) {
        Ok(re) => Ok(CompiledPattern { source: pattern.to_string(), re }),
        Err(e) => Err(e),
    }
}

/// Calls `regex::Regex::is_match(&self.re, haystack)`. Trusted: the result is
/// `regex_is_match` of the pattern source and the haystack.
#[verifier::external_body]
pub(crate) fn is_match(p: &CompiledPattern, haystack: &str) -> (res: bool)
    ensures
        res == regex_is_match(p@, haystack@),
{
    p.re.is_match(haystack)
}

/// Calls `regex::Regex::captures(&self.re, haystack)`. Trusted: it gives
/// the groups of a match exactly when the pattern matches somewhere in the
/// haystack (its documentation: `None` when the regex does not match), the
/// same condition as `is_match`. What the groups hold is not stated.
#[verifier::external_body]
pub(crate) fn captures<'h>(p: &CompiledPattern, haystack: &'h str) -> (res: Option<regex::Captures<'h>>)
    ensures
        res is Some == regex_is_match(p@, haystack@),
{
    p.re.captures(haystack)
}

} // verus!
