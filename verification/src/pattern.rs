//! Regular expressions, compiled and run by the `regex` crate.
//!
//! Nothing here is proved about what a pattern means. The module gives names to
//! what the crate computes, so that the rest of the library can say exactly which
//! patterns were tried on which text.

use vstd::prelude::*;

verus! {

/// `regex::Regex`, a compiled regex for text. Nothing inside it is read here.
#[verifier::external_type_specification]
#[verifier::external_body]
pub struct ExTextRegex(regex::Regex);

/// `regex::bytes::Regex`, a compiled regex for bytes. Nothing inside it is read
/// here.
#[verifier::external_type_specification]
#[verifier::external_body]
pub struct ExBytesRegex(regex::bytes::Regex);

/// `regex::Error`, what a pattern that does not compile gives. It is only told
/// apart from success.
#[verifier::external_type_specification]
#[verifier::external_body]
pub struct ExRegexError(regex::Error);

/// The texts in which a compiled text regex finds a match.
pub uninterp spec fn text_regex_language(re: regex::Regex) -> Set<Seq<char>>;

/// The byte strings in which a compiled byte regex finds a match.
pub uninterp spec fn bytes_regex_language(re: regex::bytes::Regex) -> Set<Seq<u8>>;

/// What `regex::Regex::new` makes of a pattern: nothing where the pattern does not
/// compile, else the texts in which the compiled regex finds a match.
pub uninterp spec fn text_pattern_language(pattern: Seq<char>) -> Option<Set<Seq<char>>>;

/// What `regex::bytes::Regex::new` makes of a pattern: nothing where the pattern
/// does not compile, else the byte strings in which the compiled regex finds a match.
pub uninterp spec fn bytes_pattern_language(pattern: Seq<char>) -> Option<Set<Seq<u8>>>;

/// Calls `regex::Regex::new`. Trusted: the outcome depends on the pattern alone,
/// and a regex that comes back matches the texts that the pattern stands for.
#[verifier::external_body]
pub(crate) fn compile_text(pattern: &str) -> (r: Result<regex::Regex, regex::Error>)
    ensures
        match r {
            Ok(re) => text_pattern_language(pattern@) == Some(text_regex_language(re)),
            Err(_) => text_pattern_language(pattern@) is None,
        },
{
    regex::Regex::new(pattern)
}

/// Calls `regex::Regex::is_match`. Trusted: the answer is whether the regex finds
/// a match anywhere in the text.
#[verifier::external_body]
pub(crate) fn text_is_match(re: &regex::Regex, text: &str) -> (found: bool)
    ensures
        found == text_regex_language(*re).contains(text@),
{
    re.is_match(text)
}

/// Calls `regex::bytes::Regex::new`. Trusted: the outcome depends on the pattern
/// alone, and a regex that comes back matches the byte strings that the pattern
/// stands for.
#[verifier::external_body]
pub(crate) fn compile_bytes(pattern: &str) -> (r: Result<regex::bytes::Regex, regex::Error>)
    ensures
        match r {
            Ok(re) => bytes_pattern_language(pattern@) == Some(bytes_regex_language(re)),
            Err(_) => bytes_pattern_language(pattern@) is None,
        },
{
    regex::bytes::Regex::new(pattern)
}

/// Calls `regex::bytes::Regex::is_match`. Trusted: the answer is whether the regex
/// finds a match anywhere in the bytes, which need not be text.
#[verifier::external_body]
pub(crate) fn bytes_is_match(re: &regex::bytes::Regex, haystack: &[u8]) -> (found: bool)
    ensures
        found == bytes_regex_language(*re).contains(haystack@),
{
    re.is_match(haystack)
}

/// Whether a pattern compiles as a text regex.
pub open spec fn text_pattern_compiles(pattern: Seq<char>) -> bool {
    text_pattern_language(pattern) is Some
}

/// Whether a pattern compiles as a byte regex.
pub open spec fn bytes_pattern_compiles(pattern: Seq<char>) -> bool {
    bytes_pattern_language(pattern) is Some
}

/// Whether a pattern compiles as a text regex and finds a match in the text.
pub open spec fn text_matches(pattern: Seq<char>, text: Seq<char>) -> bool {
    match text_pattern_language(pattern) {
        Some(language) => language.contains(text),
        None => false,
    }
}

/// Whether a pattern compiles as a byte regex and finds a match in the bytes.
pub open spec fn bytes_match(pattern: Seq<char>, haystack: Seq<u8>) -> bool {
    match bytes_pattern_language(pattern) {
        Some(language) => language.contains(haystack),
        None => false,
    }
}

} // verus!
