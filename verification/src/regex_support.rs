//! Regular expressions from the `regex` crate, as the text filters use them.
use vstd::prelude::*;
use regex::RegexBuilder;

verus! {

/// `regex::Regex`, a compiled regular expression, held opaquely.
#[verifier::external_type_specification]
#[verifier::external_body]
pub struct ExRegex(regex::Regex);

/// `regex::Error`, the reason a pattern was not compiled, held opaquely.
#[verifier::external_type_specification]
#[verifier::external_body]
pub struct ExRegexError(regex::Error);

/// Whether the `regex` crate compiles `pattern` with default settings and
/// the given case insensitivity.
pub uninterp spec fn regexCompiles(pattern: Seq<char>, caseInsensitive: bool) -> bool;

/// Whether the regular expression compiled from `pattern` with the given
/// case insensitivity matches somewhere in `haystack`.
pub uninterp spec fn regexMatches(pattern: Seq<char>, caseInsensitive: bool, haystack: Seq<char>) -> bool;

/// A compiled regular expression together with the pattern and the case
/// insensitivity it was compiled from; only `buildRegex` makes one.
pub struct CompiledRegex {
    regex: regex::Regex,
    pattern: String,
    caseInsensitive: bool,
}

impl CompiledRegex {
    /// The pattern it was compiled from.
    pub closed spec fn patternView(&self) -> Seq<char> {
        self.pattern@
    }

    /// Whether it was compiled case insensitively.
    pub closed spec fn isCaseInsensitive(&self) -> bool {
        self.caseInsensitive
    }

    /// The pattern it was compiled from (`Regex::as_str`).
    pub fn asStr(&self) -> (pattern: &str)
        ensures
            pattern@ == self.patternView(),
    {
        self.pattern.as_str()
    }
}

/// Calls `RegexBuilder::new(pattern).case_insensitive(caseInsensitive).build()`
/// of the `regex` crate. Trusted to succeed exactly when the pattern compiles
/// (`regexCompiles`), and then to give a regular expression built from that
/// pattern and case insensitivity.
#[verifier::external_body]
pub fn buildRegex(pattern: &str, caseInsensitive: bool) -> (result: Result<CompiledRegex, regex::Error>)
    ensures
        result is Ok <==> regexCompiles(pattern@, caseInsensitive),
        result matches Ok(compiled) ==> compiled.patternView() == pattern@ && compiled.isCaseInsensitive() == caseInsensitive,
{
    match RegexBuilder::new(pattern).case_insensitive(caseInsensitive).build() {
        Ok(regex) => Ok(CompiledRegex { regex, pattern: pattern.to_string(), caseInsensitive }),
        Err(error) => Err(error),
    }
}

/// Calls `Regex::is_match` of the `regex` crate. Trusted to give
/// `regexMatches` of the pattern and case insensitivity the expression was
/// built from and of the haystack.
#[verifier::external_body]
pub fn regexIsMatch(compiled: &CompiledRegex, haystack: &str) -> (matched: bool)
    ensures
        matched == regexMatches(compiled.patternView(), compiled.isCaseInsensitive(), haystack@),
{
    compiled.regex.is_match(haystack)
}

/// Lower case text as `str::to_lowercase` gives it.
pub uninterp spec fn lowercase(text: Seq<char>) -> Seq<char>;

/// Calls `str::to_lowercase`. Trusted to give `lowercase` of the text, and
/// an empty text for an empty one.
#[verifier::external_body]
pub fn toLowercase(text: &str) -> (lower: String)
    ensures
        lower@ == lowercase(text@),
        text@.len() == 0 ==> lower@.len() == 0,
{
    text.to_lowercase()
}

} // verus!
