//! The errors that queries and the retry loop report.
use vstd::prelude::*;
use vstd::string::StringExecFns;

verus! {

/// Why a query failed.
#[derive(Clone, Debug, PartialEq, Eq)]
pub enum QueryError {
    /// Options that cannot be used together.
    Configuration(String),
    /// An error of the document itself, such as a text that is no selector.
    JsError(String),
    /// No element, or more than one, where exactly one was asked for; and a
    /// better query where suggestions are switched on.
    Element(String),
    /// An option that the role asked for does not have.
    Unsupported(String),
}

/// An error as its kind and its text.
pub enum QueryErrorView {
    Configuration(Seq<char>),
    JsError(Seq<char>),
    Element(Seq<char>),
    Unsupported(Seq<char>),
}

impl View for QueryError {
    type V = QueryErrorView;

    open spec fn view(&self) -> QueryErrorView {
        match self {
            QueryError::Configuration(text) => QueryErrorView::Configuration(text@),
            QueryError::JsError(text) => QueryErrorView::JsError(text@),
            QueryError::Element(text) => QueryErrorView::Element(text@),
            QueryError::Unsupported(text) => QueryErrorView::Unsupported(text@),
        }
    }
}

impl QueryErrorView {
    /// What the error shows to a reader.
    pub open spec fn message(self) -> Seq<char> {
        match self {
            QueryErrorView::Configuration(text) => configuration_prefix() + text,
            QueryErrorView::JsError(text) => text,
            QueryErrorView::Element(text) => text,
            QueryErrorView::Unsupported(text) => text,
        }
    }
}

/// The elements that a query found, or its error.
pub open spec fn found_view(found: Result<Vec<usize>, QueryError>) -> Result<
    Seq<usize>,
    QueryErrorView,
> {
    match found {
        Ok(elements) => Ok(elements@),
        Err(error) => Err(error@),
    }
}

/// The element that a query found, or its error.
pub open spec fn one_view<T>(found: Result<T, QueryError>) -> Result<T, QueryErrorView> {
    match found {
        Ok(element) => Ok(element),
        Err(error) => Err(error@),
    }
}

/// What a configuration error's message starts with.
pub open spec fn configuration_prefix() -> Seq<char> {
    "invalid configuration: "@
}

impl QueryError {
    /// The text inside the error, whatever its kind.
    pub open spec fn text(self) -> Seq<char> {
        match self {
            QueryError::Configuration(text) => text@,
            QueryError::JsError(text) => text@,
            QueryError::Element(text) => text@,
            QueryError::Unsupported(text) => text@,
        }
    }

    /// What the error shows to a reader.
    pub open spec fn message(self) -> Seq<char> {
        match self {
            QueryError::Configuration(text) => configuration_prefix() + text@,
            _ => self.text(),
        }
    }

    /// What the error shows to a reader.
    pub fn to_string(&self) -> (s: String)
        ensures
            s@ == self.message(),
            s@ == self@.message(),
    {
        match self {
            QueryError::Configuration(text) => String::from_str("invalid configuration: ").concat(
                text.as_str(),
            ),
            QueryError::JsError(text) => text.clone(),
            QueryError::Element(text) => text.clone(),
            QueryError::Unsupported(text) => text.clone(),
        }
    }
}

/// How waiting for a callback ended without a result.
#[derive(Clone, Debug, PartialEq, Eq)]
pub enum WaitForError<E> {
    /// The time ran out before the callback was ever called.
    TimedOut,
    /// The time ran out; this is the error of the last call.
    Error(E),
}

} // verus!
