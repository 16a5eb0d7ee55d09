//! Finding elements by the attribute that the configuration reserves for
//! tests.
use vstd::prelude::*;
use crate::error::WaitForError;
use crate::queries::{
    find, find_all, find_all_post, find_post, get, get_all, get_all_post, get_post, query,
    query_all, query_all_post, query_post, Query, Snapshots,
};
use crate::types::wait_for::WaitForOptions;
use crate::wait_for::Clock;
use crate::document::{Document, NodeId};
use crate::error::{found_view, QueryError};
use crate::query_helpers::{attribute_found, attribute_query, found_by_attribute};
use crate::text::{extend_str, string_of};
use crate::types::config::Config;
use crate::types::matches::{Matcher, MatcherOptions};

verus! {

/// The attribute that queries by test id read.
pub fn get_test_id_attribute(config: &Config) -> (r: String)
    ensures
        r == config.test_id_attribute,
{
    config.test_id_attribute.clone()
}

/// The elements below `container` whose test id the matcher accepts, in
/// document order.
pub fn _query_all_by_test_id(
    doc: &Document,
    config: &Config,
    container: NodeId,
    id: &Matcher,
    options: &MatcherOptions,
) -> (r: Result<Vec<NodeId>, QueryError>)
    requires
        doc.contains(container),
    ensures
        found_view(r) == attribute_found(
            doc.nodes(),
            config.test_id_attribute@,
            container,
            *id,
            *options,
            false,),
        r matches Ok(found) ==> found_by_attribute(
            doc.nodes(),
            config.test_id_attribute@,
            container,
            false,
            found@,
        ),
{
    attribute_query(get_test_id_attribute(config).as_str(), doc, container, id, options, false)
}

/// The attribute and the id as a message shows them: `[attribute="id"]`.
pub open spec fn shown_test_id(attribute: Seq<char>, id: Matcher) -> Seq<char> {
    "["@ + attribute + "=\""@ + id.shown() + "\"]"@
}

fn message(prefix: &str, config: &Config, id: &Matcher) -> (r: String)
    ensures
        r@ == prefix@ + shown_test_id(config.test_id_attribute@, *id),
{
    let mut out: Vec<char> = Vec::new();
    extend_str(&mut out, prefix);
    let ghost start = out@;
    extend_str(&mut out, "[");
    extend_str(&mut out, get_test_id_attribute(config).as_str());
    extend_str(&mut out, "=\"");
    extend_str(&mut out, id.to_string().as_str());
    extend_str(&mut out, "\"]");
    assert(out@ == start + shown_test_id(config.test_id_attribute@, *id));
    string_of(&out)
}

pub fn get_multiple_error(config: &Config, id: &Matcher) -> (r: String)
    ensures
        r@ == "Found multiple elements by: "@ + shown_test_id(config.test_id_attribute@, *id),
{
    message("Found multiple elements by: ", config, id)
}

pub fn get_missing_error(config: &Config, id: &Matcher) -> (r: String)
    ensures
        r@ == "Unable to find an element by: "@ + shown_test_id(config.test_id_attribute@, *id),
{
    message("Unable to find an element by: ", config, id)
}

/// All elements below `container` with a test id that the matcher accepts; none is no error.
pub fn query_all_by_test_id(
    doc: &Document,
    config: &Config,
    container: NodeId,
    id: &Matcher,
    options: &MatcherOptions,
) -> (r: Result<Vec<NodeId>, QueryError>)
    requires
        doc.contains(container),
    ensures
        query_all_post(Query::TestId(id, options), doc.nodes(), *config, container, r),
{
    query_all(doc, config, container, &Query::TestId(id, options))
}

/// The element below `container` with a test id that the matcher accepts, or `None`; several are an
/// error.
pub fn query_by_test_id(
    doc: &Document,
    config: &Config,
    container: NodeId,
    id: &Matcher,
    options: &MatcherOptions,
) -> (r: Result<Option<NodeId>, QueryError>)
    requires
        doc.contains(container),
    ensures
        query_post(Query::TestId(id, options), doc.nodes(), *config, container, r),
{
    query(doc, config, container, &Query::TestId(id, options))
}

/// All elements below `container` with a test id that the matcher accepts; none is an error.
pub fn get_all_by_test_id(
    doc: &Document,
    config: &Config,
    container: NodeId,
    id: &Matcher,
    options: &MatcherOptions,
) -> (r: Result<Vec<NodeId>, QueryError>)
    requires
        doc.contains(container),
    ensures
        get_all_post(Query::TestId(id, options), doc.nodes(), *config, container, r),
{
    get_all(doc, config, container, &Query::TestId(id, options))
}

/// The one element below `container` with a test id that the matcher accepts; none and several are
/// errors.
pub fn get_by_test_id(
    doc: &Document,
    config: &Config,
    container: NodeId,
    id: &Matcher,
    options: &MatcherOptions,
) -> (r: Result<NodeId, QueryError>)
    requires
        doc.contains(container),
    ensures
        get_post(Query::TestId(id, options), doc.nodes(), *config, container, r),
{
    get(doc, config, container, &Query::TestId(id, options))
}

/// Waits for elements below `container` with a test id that the matcher accepts: retries
/// `get_all_by_test_id` on the document as it is at each poll.
pub fn find_all_by_test_id<S: Snapshots, C: Clock>(
    source: &S,
    clock: &C,
    config: &Config,
    container: NodeId,
    id: &Matcher,
    options: &MatcherOptions,
    wait_for_options: &WaitForOptions,
) -> (r: Result<(Document, Vec<NodeId>), WaitForError<QueryError>>)
    ensures
        find_all_post(source, clock, *wait_for_options, Query::TestId(id, options), *config, container, r),
{
    find_all(source, clock, config, container, &Query::TestId(id, options), wait_for_options)
}

/// Waits for the one element below `container` with a test id that the matcher accepts: retries
/// `get_by_test_id` on the document as it is at each poll.
pub fn find_by_test_id<S: Snapshots, C: Clock>(
    source: &S,
    clock: &C,
    config: &Config,
    container: NodeId,
    id: &Matcher,
    options: &MatcherOptions,
    wait_for_options: &WaitForOptions,
) -> (r: Result<(Document, NodeId), WaitForError<QueryError>>)
    ensures
        find_post(source, clock, *wait_for_options, Query::TestId(id, options), *config, container, r),
{
    find(source, clock, config, container, &Query::TestId(id, options), wait_for_options)
}

} // verus!
