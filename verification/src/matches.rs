//! Comparing a text with a matcher, after normalizing it.
use vstd::prelude::*;
use vstd::string::StringExecFns;
use crate::document::NodeId;
use crate::error::QueryError;
use crate::pattern::{compile, is_match, regex_is_match, regex_new, regex_replace_all, replace_all};
use crate::text::{chars_of, lowercase, str_eq, string_of, to_lowercase, trim, trim_chars};
use crate::types::matches::{DefaultNormalizerOptions, Matcher, NormalizerFn, NormalizerOptions};
use regex::Regex;

verus! {

/// How a text is prepared before it is compared.
pub enum Normalizer<'a> {
    Default { trim: bool, collapse_whitespace: bool },
    Custom(&'a Box<dyn NormalizerFn>),
}

/// The pattern for a run of white space.
pub open spec fn whitespace_run() -> Seq<char> {
    seq!['\\', 's', '+']
}

/// The text with each run of white space replaced by one space: what the
/// regular expression for such a run makes of it when every match is replaced
/// by a space. The text stays as it is should that expression not compile.
pub open spec fn collapse_whitespace(text: Seq<char>) -> Seq<char> {
    match regex_new(whitespace_run()) {
        Ok(re) => regex_replace_all(re, text, seq![' ']),
        Err(_) => text,
    }
}

/// What the default normalizer makes of a text: it trims first and collapses
/// after.
pub open spec fn normalized(text: Seq<char>, trim_ends: bool, collapse: bool) -> Seq<char> {
    let trimmed = if trim_ends {
        trim(text)
    } else {
        text
    };
    if collapse {
        collapse_whitespace(trimmed)
    } else {
        trimmed
    }
}

fn collapse(text: String) -> (r: String)
    ensures
        r@ == collapse_whitespace(text@),
{
    proof {
        reveal_strlit("\\s+");
        reveal_strlit(" ");
        assert("\\s+"@ == whitespace_run());
        assert(" "@ == seq![' ']);
    }
    match compile("\\s+") {
        Ok(re) => replace_all(&re, text.as_str(), " "),
        Err(_) => text,
    }
}

impl<'a> Normalizer<'a> {
    /// What the normalizer makes of a text.
    pub open spec fn applied(self, text: Seq<char>) -> Seq<char> {
        match self {
            Normalizer::Default { trim, collapse_whitespace } => normalized(
                text,
                trim,
                collapse_whitespace,
            ),
            Normalizer::Custom(custom) => custom.normalized(text),
        }
    }

    /// The normalized text.
    pub fn apply(&self, text: &str) -> (r: String)
        ensures
            r@ == self.applied(text@),
    {
        match self {
            Normalizer::Default { trim, collapse_whitespace } => {
                let trimmed = if *trim {
                    let chars = chars_of(text);
                    string_of(&trim_chars(&chars))
                } else {
                    String::from_str(text)
                };
                if *collapse_whitespace {
                    collapse(trimmed)
                } else {
                    trimmed
                }
            },
            Normalizer::Custom(custom) => custom.normalize(text),
        }
    }
}

/// The default normalizer: it trims and collapses unless told otherwise.
pub fn get_default_normalizer(options: DefaultNormalizerOptions) -> (r: Normalizer<'static>)
    ensures
        r == (Normalizer::Default {
            trim: options.trim.unwrap_or(true),
            collapse_whitespace: options.collapse_whitespace.unwrap_or(true),
        }),
{
    Normalizer::Default {
        trim: options.trim.unwrap_or(true),
        collapse_whitespace: options.collapse_whitespace.unwrap_or(true),
    }
}

/// The message for a normalizer that is given together with `trim` or
/// `collapse_whitespace`.
pub open spec fn normalizer_conflict() -> Seq<char> {
    "\n`trim` and `collapse_whitespace` are not supported with a normalizer. \nIf you want to use the default trim and `collapse_whitespace logic in your normalizer, \nuse `get_default_normalizer(DefaultNormalizerOptions {trim, collapse_whitespace})` and compose that into your normalizer."@
}

/// What `make_normalizer` returns.
pub open spec fn made_normalizer<'a>(options: NormalizerOptions<'a>) -> Result<
    Normalizer<'a>,
    Seq<char>,
> {
    match options.normalizer {
        Some(custom) => if options.trim is Some || options.collapse_whitespace is Some {
            Err(normalizer_conflict())
        } else {
            Ok(Normalizer::Custom(custom))
        },
        None => Ok(
            Normalizer::Default {
                trim: options.trim.unwrap_or(true),
                collapse_whitespace: options.collapse_whitespace.unwrap_or(true),
            },
        ),
    }
}

/// Constructs the normalizer that the options ask for. A custom normalizer
/// cannot be combined with `trim` or `collapse_whitespace`, whatever their
/// values: that is a configuration error.
pub fn make_normalizer<'a>(options: NormalizerOptions<'a>) -> (r: Result<
    Normalizer<'a>,
    QueryError,
>)
    ensures
        match r {
            Ok(normalizer) => made_normalizer(options) == Ok::<Normalizer<'a>, Seq<char>>(
                normalizer,
            ),
            Err(QueryError::Configuration(message)) => made_normalizer(options) == Err::<
                Normalizer<'a>,
                Seq<char>,
            >(message@),
            Err(_) => false,
        },
{
    match options.normalizer {
        Some(custom) => {
            if options.trim.is_some() || options.collapse_whitespace.is_some() {
                Err(
                    QueryError::Configuration(
                        String::from_str(
                            "\n`trim` and `collapse_whitespace` are not supported with a normalizer. \nIf you want to use the default trim and `collapse_whitespace logic in your normalizer, \nuse `get_default_normalizer(DefaultNormalizerOptions {trim, collapse_whitespace})` and compose that into your normalizer.",
                        ),
                    ),
                )
            } else {
                Ok(Normalizer::Custom(custom))
            }
        },
        None => Ok(
            get_default_normalizer(
                DefaultNormalizerOptions {
                    trim: options.trim,
                    collapse_whitespace: options.collapse_whitespace,
                },
            ),
        ),
    }
}

/// Normalizes a text as the options ask for: it is trimmed first and its white
/// space collapsed after, each unless switched off; or the caller's own
/// normalizer is used instead, which cannot be combined with either.
pub fn normalize(text: &str, options: NormalizerOptions) -> (r: Result<String, QueryError>)
    ensures
        match made_normalizer(options) {
            Err(message) => r matches Err(QueryError::Configuration(said)) && said@ == message,
            Ok(normalizer) => r matches Ok(out) && out@ == normalizer.applied(text@),
        },
{
    let normalizer = make_normalizer(options)?;
    Ok(normalizer.apply(text))
}

/// Whether a normalized text satisfies a matcher: a function by its answer
/// for the text and the node, a regular expression by search, a number by its
/// decimal text, a string by equality, which in a fuzzy comparison ignores
/// case.
pub open spec fn text_matches(
    normalized: Seq<char>,
    node: Option<NodeId>,
    matcher: Matcher,
    exact: bool,
) -> bool {
    match matcher {
        Matcher::Function(test) => test.accepts(normalized, node),
        Matcher::Regex(re) => regex_is_match(re, normalized),
        Matcher::Number(number) => normalized == number@,
        Matcher::String(wanted) => if exact {
            normalized == wanted@
        } else {
            lowercase(normalized) == lowercase(wanted@)
        },
    }
}

fn match_regex(matcher: &Regex, text: &str) -> (r: bool)
    ensures
        r == regex_is_match(*matcher, text@),
{
    is_match(matcher, text)
}

/// Compares a text that is already normalized.
pub fn matches_normalized(
    normalized: &str,
    node: Option<NodeId>,
    matcher: &Matcher,
    exact: bool,
) -> (r: bool)
    ensures
        r == text_matches(normalized@, node, *matcher, exact),
{
    match matcher {
        Matcher::Function(test) => test.test(normalized, node),
        Matcher::Regex(re) => match_regex(re, normalized),
        Matcher::Number(number) => str_eq(normalized, number.as_str()),
        Matcher::String(wanted) => {
            if exact {
                str_eq(normalized, wanted.as_str())
            } else {
                let a = to_lowercase(normalized);
                let b = to_lowercase(wanted.as_str());
                str_eq(a.as_str(), b.as_str())
            }
        },
    }
}

/// What `matches` and `fuzzy_matches` answer: the matcher's answer for the
/// normalized text and the node. No text never matches, and then neither the
/// normalizer nor the matcher is asked.
pub open spec fn matches_text(
    text: Option<Seq<char>>,
    node: Option<NodeId>,
    matcher: Matcher,
    normalizer: Normalizer,
    exact: bool,
) -> bool {
    match text {
        Some(text) => text_matches(normalizer.applied(text), node, matcher, exact),
        None => false,
    }
}

/// A text that may be missing, as its characters.
pub open spec fn option_view(text: Option<String>) -> Option<Seq<char>> {
    match text {
        Some(text) => Some(text@),
        None => None,
    }
}

fn compare(
    text_to_match: Option<String>,
    node: Option<NodeId>,
    matcher: &Matcher,
    normalizer: &Normalizer,
    exact: bool,
) -> (r: bool)
    ensures
        r == matches_text(option_view(text_to_match), node, *matcher, *normalizer, exact),
{
    match text_to_match {
        Some(text) => {
            let normalized = normalizer.apply(text.as_str());
            matches_normalized(normalized.as_str(), node, matcher, exact)
        },
        None => false,
    }
}

/// Whether the text matches, ignoring case where the matcher is a string.
pub fn fuzzy_matches(
    text_to_match: Option<String>,
    node: Option<NodeId>,
    matcher: &Matcher,
    normalizer: &Normalizer,
) -> (r: bool)
    ensures
        r == matches_text(option_view(text_to_match), node, *matcher, *normalizer, false),
{
    compare(text_to_match, node, matcher, normalizer, false)
}

/// Whether the text matches exactly.
pub fn matches(
    text_to_match: Option<String>,
    node: Option<NodeId>,
    matcher: &Matcher,
    normalizer: &Normalizer,
) -> (r: bool)
    ensures
        r == matches_text(option_view(text_to_match), node, *matcher, *normalizer, true),
{
    compare(text_to_match, node, matcher, normalizer, true)
}

} // verus!
