//! Regular expressions, as the `regex` crate provides them. Nothing here is
//! proved: each contract states what that crate documents of the call.
use vstd::prelude::*;
use regex::Regex;

verus! {

#[verifier::external_type_specification]
#[verifier::external_body]
pub struct ExRegex(regex::Regex);

#[verifier::external_type_specification]
#[verifier::external_body]
pub struct ExRegexError(regex::Error);

/// What `Regex::new` returns for a pattern.
pub uninterp spec fn regex_new(pattern: Seq<char>) -> Result<Regex, regex::Error>;

/// The pattern that a regular expression was compiled from.
pub uninterp spec fn regex_source(re: Regex) -> Seq<char>;

/// Whether a regular expression matches anywhere in a text.
pub uninterp spec fn regex_is_match(re: Regex, haystack: Seq<char>) -> bool;

/// A text with every match of a regular expression replaced.
pub uninterp spec fn regex_replace_all(
    re: Regex,
    haystack: Seq<char>,
    replacement: Seq<char>,
) -> Seq<char>;

/// `regex::Regex::new`: compiling depends on the pattern alone.
#[verifier::external_body]
pub(crate) fn compile(pattern: &str) -> (r: Result<Regex, regex::Error>)
    ensures
        r == regex_new(pattern@),
{
    Regex::new(pattern)
}

/// `regex::Regex::as_str`: the text that the pattern was compiled from.
#[verifier::external_body]
pub(crate) fn source(re: &Regex) -> (s: String)
    ensures
        s@ == regex_source(*re),
{
    re.as_str().to_owned()
}

/// `regex::Regex::is_match`: true if and only if there is a match anywhere in
/// the text.
#[verifier::external_body]
pub(crate) fn is_match(re: &Regex, haystack: &str) -> (r: bool)
    ensures
        r == regex_is_match(*re, haystack@),
{
    re.is_match(haystack)
}

/// `regex::Regex::replace_all`: all non-overlapping matches are replaced.
#[verifier::external_body]
pub(crate) fn replace_all(re: &Regex, haystack: &str, replacement: &str) -> (s: String)
    ensures
        s@ == regex_replace_all(*re, haystack@, replacement@),
{
    re.replace_all(haystack, replacement).into_owned()
}

} // verus!
