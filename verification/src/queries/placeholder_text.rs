//! Finding elements by their `placeholder` attribute.
use vstd::prelude::*;
use crate::types::config::Config;
use crate::error::WaitForError;
use crate::queries::{
    find, find_all, find_all_post, find_post, get, get_all, get_all_post, get_post, query,
    query_all, query_all_post, query_post, Query, Snapshots,
};
use crate::types::wait_for::WaitForOptions;
use crate::wait_for::Clock;
use crate::document::{Document, NodeId};
use crate::error::{found_view, QueryError};
use crate::query_helpers::{attribute_found, attribute_query, found_by_attribute, message_for};
use crate::types::matches::{Matcher, MatcherOptions};

verus! {

/// The elements below `container` whose `placeholder` attribute the matcher
/// accepts, in document order.
pub fn _query_all_by_placeholder_text(
    doc: &Document,
    container: NodeId,
    text: &Matcher,
    options: &MatcherOptions,
) -> (r: Result<Vec<NodeId>, QueryError>)
    requires
        doc.contains(container),
    ensures
        found_view(r) == attribute_found(doc.nodes(), "placeholder"@, container, *text, *options, false),
        r matches Ok(found) ==> found_by_attribute(doc.nodes(), "placeholder"@, container, false, found@),
{
    attribute_query("placeholder", doc, container, text, options, false)
}

pub fn get_multiple_error(text: &Matcher) -> (r: String)
    ensures
        r@ == "Found multiple elements with the placeholder text: "@ + text.shown(),
{
    message_for("Found multiple elements with the placeholder text: ", text)
}

pub fn get_missing_error(text: &Matcher) -> (r: String)
    ensures
        r@ == "Unable to find an element with the placeholder text: "@ + text.shown(),
{
    message_for("Unable to find an element with the placeholder text: ", text)
}

/// All elements below `container` with a `placeholder` attribute that the matcher accepts; none is no error.
pub fn query_all_by_placeholder_text(
    doc: &Document,
    config: &Config,
    container: NodeId,
    text: &Matcher,
    options: &MatcherOptions,
) -> (r: Result<Vec<NodeId>, QueryError>)
    requires
        doc.contains(container),
    ensures
        query_all_post(Query::PlaceholderText(text, options), doc.nodes(), *config, container, r),
{
    query_all(doc, config, container, &Query::PlaceholderText(text, options))
}

/// The element below `container` with a `placeholder` attribute that the matcher accepts, or `None`; several are an
/// error.
pub fn query_by_placeholder_text(
    doc: &Document,
    config: &Config,
    container: NodeId,
    text: &Matcher,
    options: &MatcherOptions,
) -> (r: Result<Option<NodeId>, QueryError>)
    requires
        doc.contains(container),
    ensures
        query_post(Query::PlaceholderText(text, options), doc.nodes(), *config, container, r),
{
    query(doc, config, container, &Query::PlaceholderText(text, options))
}

/// All elements below `container` with a `placeholder` attribute that the matcher accepts; none is an error.
pub fn get_all_by_placeholder_text(
    doc: &Document,
    config: &Config,
    container: NodeId,
    text: &Matcher,
    options: &MatcherOptions,
) -> (r: Result<Vec<NodeId>, QueryError>)
    requires
        doc.contains(container),
    ensures
        get_all_post(Query::PlaceholderText(text, options), doc.nodes(), *config, container, r),
{
    get_all(doc, config, container, &Query::PlaceholderText(text, options))
}

/// The one element below `container` with a `placeholder` attribute that the matcher accepts; none and several are
/// errors.
pub fn get_by_placeholder_text(
    doc: &Document,
    config: &Config,
    container: NodeId,
    text: &Matcher,
    options: &MatcherOptions,
) -> (r: Result<NodeId, QueryError>)
    requires
        doc.contains(container),
    ensures
        get_post(Query::PlaceholderText(text, options), doc.nodes(), *config, container, r),
{
    get(doc, config, container, &Query::PlaceholderText(text, options))
}

/// Waits for elements below `container` with a `placeholder` attribute that the matcher accepts: retries
/// `get_all_by_placeholder_text` on the document as it is at each poll.
pub fn find_all_by_placeholder_text<S: Snapshots, C: Clock>(
    source: &S,
    clock: &C,
    config: &Config,
    container: NodeId,
    text: &Matcher,
    options: &MatcherOptions,
    wait_for_options: &WaitForOptions,
) -> (r: Result<(Document, Vec<NodeId>), WaitForError<QueryError>>)
    ensures
        find_all_post(source, clock, *wait_for_options, Query::PlaceholderText(text, options), *config, container, r),
{
    find_all(source, clock, config, container, &Query::PlaceholderText(text, options), wait_for_options)
}

/// Waits for the one element below `container` with a `placeholder` attribute that the matcher accepts: retries
/// `get_by_placeholder_text` on the document as it is at each poll.
pub fn find_by_placeholder_text<S: Snapshots, C: Clock>(
    source: &S,
    clock: &C,
    config: &Config,
    container: NodeId,
    text: &Matcher,
    options: &MatcherOptions,
    wait_for_options: &WaitForOptions,
) -> (r: Result<(Document, NodeId), WaitForError<QueryError>>)
    ensures
        find_post(source, clock, *wait_for_options, Query::PlaceholderText(text, options), *config, container, r),
{
    find(source, clock, config, container, &Query::PlaceholderText(text, options), wait_for_options)
}

} // verus!
