//! Matchers, normalizers and the options that the text queries take.
use vstd::prelude::*;
use vstd::string::StringExecFns;
use regex::Regex;
use crate::document::NodeId;
use crate::pattern::{regex_source, source};

verus! {

/// A test written by the caller. It is handed the normalized text and, where
/// there is one, the node that the text was taken from. Its answer depends on
/// these two alone: `accepts` is that answer.
pub trait MatcherFunction {
    /// What the test answers for a text and a node. An implementation that
    /// does not say what it answers leaves this as it is: some function of
    /// the two.
    open spec fn accepts(&self, text: Seq<char>, node: Option<NodeId>) -> bool {
        (arbitrary::<spec_fn(&Self, Seq<char>, Option<NodeId>) -> bool>())(self, text, node)
    }

    fn test(&self, text: &str, node: Option<NodeId>) -> (r: bool)
        ensures
            r == self.accepts(text@, node),
    ;
}

/// A normalizer written by the caller. What it makes of a text depends on the
/// text alone: `normalized` is that result.
pub trait NormalizerFn {
    /// What the normalizer makes of a text. An implementation that does not
    /// say what it makes leaves this as it is: some function of the text.
    open spec fn normalized(&self, text: Seq<char>) -> Seq<char> {
        (arbitrary::<spec_fn(&Self, Seq<char>) -> Seq<char>>())(self, text)
    }

    fn normalize(&self, text: &str) -> (r: String)
        ensures
            r@ == self.normalized(text@),
    ;
}

/// What a text is compared with.
pub enum Matcher {
    Function(Box<dyn MatcherFunction>),
    Regex(Regex),
    /// A number, held as its decimal text.
    Number(String),
    String(String),
}

impl Matcher {
    /// The matcher as it is written into messages.
    pub open spec fn shown(self) -> Seq<char> {
        match self {
            Matcher::Function(_) => "MatcherFn"@,
            Matcher::Regex(re) => regex_source(re),
            Matcher::Number(n) => n@,
            Matcher::String(s) => s@,
        }
    }

    /// The matcher as it is written into messages.
    pub fn to_string(&self) -> (s: String)
        ensures
            s@ == self.shown(),
    {
        match self {
            Matcher::Function(_) => String::from_str("MatcherFn"),
            Matcher::Regex(re) => source(re),
            Matcher::Number(n) => n.clone(),
            Matcher::String(s) => s.clone(),
        }
    }
}

impl vstd::std_specs::convert::FromSpecImpl<Regex> for Matcher {
    open spec fn obeys_from_spec() -> bool {
        true
    }

    open spec fn from_spec(value: Regex) -> Matcher {
        Matcher::Regex(value)
    }
}

impl vstd::std_specs::convert::FromSpecImpl<String> for Matcher {
    open spec fn obeys_from_spec() -> bool {
        true
    }

    open spec fn from_spec(value: String) -> Matcher {
        Matcher::String(value)
    }
}

impl vstd::std_specs::convert::FromSpecImpl<&str> for Matcher {
    open spec fn obeys_from_spec() -> bool {
        false
    }

    open spec fn from_spec(value: &str) -> Matcher {
        arbitrary()
    }
}

impl From<&str> for Matcher {
    /// The string matcher for a text.
    fn from(value: &str) -> (m: Matcher)
        ensures
            m matches Matcher::String(text) && text@ == value@,
    {
        Matcher::String(String::from_str(value))
    }
}

impl vstd::std_specs::convert::FromSpecImpl<i64> for Matcher {
    open spec fn obeys_from_spec() -> bool {
        false
    }

    open spec fn from_spec(value: i64) -> Matcher {
        arbitrary()
    }
}

impl From<i64> for Matcher {
    /// The number matcher for a whole number: it holds the number written in
    /// decimal.
    fn from(value: i64) -> (m: Matcher)
        ensures
            m matches Matcher::Number(text) && crate::number::i64_of(text@) == Some(value),
    {
        Matcher::Number(crate::number::to_decimal(value))
    }
}

impl From<Regex> for Matcher {
    fn from(value: Regex) -> (m: Matcher)
        ensures
            m == Matcher::Regex(value),
    {
        Matcher::Regex(value)
    }
}

impl From<String> for Matcher {
    fn from(value: String) -> (m: Matcher)
        ensures
            m == Matcher::String(value),
    {
        Matcher::String(value)
    }
}

/// How a text is to be normalized. A normalizer of the caller's own excludes
/// the other two fields.
pub struct NormalizerOptions<'a> {
    pub trim: Option<bool>,
    pub collapse_whitespace: Option<bool>,
    pub normalizer: Option<&'a Box<dyn NormalizerFn>>,
}

/// What the default normalizer does; each is done where not set.
pub struct DefaultNormalizerOptions {
    pub trim: Option<bool>,
    pub collapse_whitespace: Option<bool>,
}

impl Default for DefaultNormalizerOptions {
    /// Nothing set: the text is trimmed and its white space collapsed.
    fn default() -> (r: Self)
        ensures
            r == (DefaultNormalizerOptions { trim: None, collapse_whitespace: None }),
    {
        DefaultNormalizerOptions { trim: None, collapse_whitespace: None }
    }
}

impl<'a> Default for NormalizerOptions<'a> {
    /// Nothing set: the default normalizer, which trims and collapses.
    fn default() -> (r: Self)
        ensures
            r == (NormalizerOptions { trim: None, collapse_whitespace: None, normalizer: None }),
    {
        NormalizerOptions { trim: None, collapse_whitespace: None, normalizer: None }
    }
}

/// The options of a query by text or attribute. A field left `None` takes its
/// default: `exact` is true, and see `make_normalizer` for the other three.
pub struct MatcherOptions {
    pub exact: Option<bool>,
    pub trim: Option<bool>,
    pub collapse_whitespace: Option<bool>,
    pub normalizer: Option<Box<dyn NormalizerFn>>,
    pub suggest: Option<bool>,
}

impl Default for MatcherOptions {
    /// Nothing set.
    fn default() -> (r: Self)
        ensures
            r == (MatcherOptions {
                exact: None,
                trim: None,
                collapse_whitespace: None,
                normalizer: None,
                suggest: None,
            }),
    {
        MatcherOptions::new()
    }
}

impl MatcherOptions {
    pub fn new() -> (r: Self)
        ensures
            r == (MatcherOptions {
                exact: None,
                trim: None,
                collapse_whitespace: None,
                normalizer: None,
                suggest: None,
            }),
    {
        MatcherOptions {
            exact: None,
            trim: None,
            collapse_whitespace: None,
            normalizer: None,
            suggest: None,
        }
    }

    pub fn exact(self, value: bool) -> (r: Self)
        ensures
            r == (Self { exact: Some(value), ..self }),
    {
        let mut r = self;
        r.exact = Some(value);
        r
    }

    pub fn trim(self, value: bool) -> (r: Self)
        ensures
            r == (Self { trim: Some(value), ..self }),
    {
        let mut r = self;
        r.trim = Some(value);
        r
    }

    pub fn collapse_whitespace(self, value: bool) -> (r: Self)
        ensures
            r == (Self { collapse_whitespace: Some(value), ..self }),
    {
        let mut r = self;
        r.collapse_whitespace = Some(value);
        r
    }

    pub fn normalizer(self, value: Box<dyn NormalizerFn>) -> (r: Self)
        ensures
            r == (Self { normalizer: Some(value), ..self }),
    {
        let mut r = self;
        r.normalizer = Some(value);
        r
    }

    pub fn suggest(self, value: bool) -> (r: Self)
        ensures
            r == (Self { suggest: Some(value), ..self }),
    {
        let mut r = self;
        r.suggest = Some(value);
        r
    }
}

/// Which elements a query by text leaves out.
#[derive(Debug, PartialEq, Eq)]
pub enum Ignore {
    /// None.
    False,
    /// Those that this selector matches.
    String(String),
}

impl Clone for Ignore {
    fn clone(&self) -> (r: Self)
        ensures
            r == *self,
    {
        match self {
            Ignore::False => Ignore::False,
            Ignore::String(selector) => Ignore::String(selector.clone()),
        }
    }
}

impl vstd::std_specs::convert::FromSpecImpl<String> for Ignore {
    open spec fn obeys_from_spec() -> bool {
        true
    }

    open spec fn from_spec(value: String) -> Ignore {
        Ignore::String(value)
    }
}

impl From<String> for Ignore {
    fn from(value: String) -> (r: Ignore)
        ensures
            r == Ignore::String(value),
    {
        Ignore::String(value)
    }
}

/// `MatcherOptions`, and the two selectors: `selector` keeps only the elements
/// that it matches (default `*`), `ignore` leaves out those that it matches
/// (default: the configuration's).
pub struct SelectorMatcherOptions {
    pub exact: Option<bool>,
    pub trim: Option<bool>,
    pub collapse_whitespace: Option<bool>,
    pub normalizer: Option<Box<dyn NormalizerFn>>,
    pub suggest: Option<bool>,
    pub selector: Option<String>,
    pub ignore: Option<Ignore>,
}

impl Default for SelectorMatcherOptions {
    /// Nothing set.
    fn default() -> (r: Self)
        ensures
            r == (SelectorMatcherOptions {
                exact: None,
                trim: None,
                collapse_whitespace: None,
                normalizer: None,
                suggest: None,
                selector: None,
                ignore: None,
            }),
    {
        SelectorMatcherOptions::new()
    }
}

impl SelectorMatcherOptions {
    pub fn new() -> (r: Self)
        ensures
            r == (SelectorMatcherOptions {
                exact: None,
                trim: None,
                collapse_whitespace: None,
                normalizer: None,
                suggest: None,
                selector: None,
                ignore: None,
            }),
    {
        SelectorMatcherOptions {
            exact: None,
            trim: None,
            collapse_whitespace: None,
            normalizer: None,
            suggest: None,
            selector: None,
            ignore: None,
        }
    }

    pub fn exact(self, value: bool) -> (r: Self)
        ensures
            r == (Self { exact: Some(value), ..self }),
    {
        let mut r = self;
        r.exact = Some(value);
        r
    }

    pub fn trim(self, value: bool) -> (r: Self)
        ensures
            r == (Self { trim: Some(value), ..self }),
    {
        let mut r = self;
        r.trim = Some(value);
        r
    }

    pub fn collapse_whitespace(self, value: bool) -> (r: Self)
        ensures
            r == (Self { collapse_whitespace: Some(value), ..self }),
    {
        let mut r = self;
        r.collapse_whitespace = Some(value);
        r
    }

    pub fn normalizer(self, value: Box<dyn NormalizerFn>) -> (r: Self)
        ensures
            r == (Self { normalizer: Some(value), ..self }),
    {
        let mut r = self;
        r.normalizer = Some(value);
        r
    }

    pub fn suggest(self, value: bool) -> (r: Self)
        ensures
            r == (Self { suggest: Some(value), ..self }),
    {
        let mut r = self;
        r.suggest = Some(value);
        r
    }

    pub fn selector(self, value: &str) -> (r: Self)
        ensures
            r.selector matches Some(text) && text@ == value@,
            r == (Self { selector: r.selector, ..self }),
    {
        let mut r = self;
        r.selector = Some(String::from_str(value));
        r
    }

    pub fn ignore(self, value: Ignore) -> (r: Self)
        ensures
            r == (Self { ignore: Some(value), ..self }),
    {
        let mut r = self;
        r.ignore = Some(value);
        r
    }
}

} // verus!
