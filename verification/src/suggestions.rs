//! Proposing a better query for an element that was found.
use vstd::prelude::*;
use crate::document::{attribute_of, Document, Node, NodeId};
use crate::text::{extend_str, string_of};
use crate::types::matches::{Matcher, MatcherOptions};
use crate::types::suggestions::{Method, Suggestion, Variant};

verus! {

/// The name of the function that a variant of a query is called by.
pub open spec fn query_method(variant: Variant, method: Method) -> Seq<char> {
    variant.name() + "_by_"@ + method.name()
}

fn make_suggestion(query_name: Method, content: String, variant: Variant) -> (suggestion: Suggestion)
    ensures
        suggestion.query_name == query_name,
        suggestion.query_method@ == query_method(variant, query_name),
        suggestion.query_matcher == Matcher::String(content),
        suggestion.query_options == (MatcherOptions {
            exact: None,
            trim: None,
            collapse_whitespace: None,
            normalizer: None,
            suggest: None,
        }),
        suggestion.variant == variant,
        suggestion.warning is None,
{
    let mut name: Vec<char> = Vec::new();
    extend_str(&mut name, variant.to_string().as_str());
    extend_str(&mut name, "_by_");
    extend_str(&mut name, query_name.to_string().as_str());
    Suggestion {
        query_name,
        query_method: string_of(&name),
        query_matcher: Matcher::String(content),
        query_options: MatcherOptions::new(),
        variant,
        warning: None,
    }
}

/// The data where the method may be suggested: where none was asked for, or
/// this one.
pub open spec fn suggestable<T>(
    current_method: Method,
    requested_method: Option<Method>,
    data: Option<T>,
) -> Option<T> {
    if requested_method is None || requested_method == Some(current_method) {
        data
    } else {
        None
    }
}

/// The data where the method may be suggested.
pub fn can_suggest<T>(current_method: Method, requested_method: Option<Method>, data: Option<T>) -> (r:
    Option<T>)
    ensures
        r == suggestable(current_method, requested_method, data),
{
    match requested_method {
        None => data,
        Some(requested) => if requested == current_method {
            data
        } else {
            None
        },
    }
}

/// The text of the query that is suggested for an element: its `alt`
/// attribute, for a query by alt text.
pub open spec fn suggested_alt(node: Node, method: Option<Method>) -> Option<Seq<char>> {
    suggestable(Method::AltText, method, attribute_of(node.attributes@, "alt"@))
}

/// The better query for an element, where there is one: by alt text, for an
/// element that has an `alt` attribute. The variant is `Get` where none is
/// given.
pub fn get_suggested_query(
    doc: &Document,
    element: NodeId,
    variant: Option<Variant>,
    method: Option<Method>,
) -> (r: Option<Suggestion>)
    requires
        doc.contains(element),
    ensures
        match r {
            Some(suggestion) => {
                &&& suggested_alt(doc.nodes()[element as int], method) matches Some(alt)
                &&& suggestion.query_name == Method::AltText
                &&& suggestion.variant == variant.unwrap_or(Variant::Get)
                &&& suggestion.query_method@ == query_method(suggestion.variant, Method::AltText)
                &&& suggestion.query_matcher matches Matcher::String(text) && text@ == alt
                &&& suggestion.query_options == (MatcherOptions {
                    exact: None,
                    trim: None,
                    collapse_whitespace: None,
                    normalizer: None,
                    suggest: None,
                })
                &&& suggestion.warning is None
            },
            None => suggested_alt(doc.nodes()[element as int], method) is None,
        },
{
    let variant = match variant {
        Some(variant) => variant,
        None => Variant::Get,
    };
    let alt = match doc.node(element).get_attribute("alt") {
        Some(alt) => Some(alt.clone()),
        None => None,
    };
    match can_suggest(Method::AltText, method, alt) {
        Some(alt) => Some(make_suggestion(Method::AltText, alt, variant)),
        None => None,
    }
}

} // verus!
