//! Finding elements by their `title` attribute, and the titles of drawings by
//! their text.
use vstd::prelude::*;
use crate::types::config::Config;
use crate::error::WaitForError;
use crate::queries::{
    find, find_all, find_all_post, find_post, get, get_all, get_all_post, get_post, query,
    query_all, query_all_post, query_post, Query, Snapshots,
};
use crate::types::wait_for::WaitForOptions;
use crate::wait_for::Clock;
use crate::document::{ancestor_or_self, attribute_of, select, Document, Node, NodeId, NodeKind};
use crate::error::{found_view, QueryError, QueryErrorView};
use crate::get_node_text::{get_node_text, node_text};
use crate::query_helpers::{comparison, found_among, message_for, Comparison, TextMatch};
use crate::types::matches::{Matcher, MatcherOptions};

verus! {

/// The node is a `title` element directly inside an `svg` element.
pub open spec fn svg_title(nodes: Seq<Node>, d: NodeId) -> bool {
    nodes[d as int].named("title"@) && match nodes[d as int].parent {
        Some(parent) => parent < nodes.len() && nodes[parent as int].named("svg"@),
        None => false,
    }
}

fn is_svg_title(doc: &Document, d: NodeId) -> (r: bool)
    requires
        doc.contains(d),
    ensures
        r == svg_title(doc.nodes(), d),
{
    let node = doc.node(d);
    if !node.is_named("title") {
        return false;
    }
    match node.parent {
        Some(parent) => parent < doc.node_count() && doc.node(parent).is_named("svg"),
        None => false,
    }
}

/// Whether the node at `d` is one that a query by title looks at: an element
/// below `container` that has a `title` attribute or is the title of a
/// drawing.
pub open spec fn title_candidate(nodes: Seq<Node>, container: NodeId) -> spec_fn(NodeId) -> bool {
    |d: NodeId|
        nodes[d as int].kind == NodeKind::Element && d != container && ancestor_or_self(
            nodes,
            container as int,
            d as int,
        ) && (attribute_of(nodes[d as int].attributes@, "title"@) is Some || svg_title(nodes, d))
}

/// Whether the node at `d` is an element below `container` whose `title`
/// attribute is accepted, or which is the title of a drawing with a text that
/// is accepted.
pub open spec fn title_keep(nodes: Seq<Node>, container: NodeId, wanted: Comparison) -> spec_fn(
    NodeId,
) -> bool {
    |d: NodeId|
        nodes[d as int].kind == NodeKind::Element && d != container && ancestor_or_self(
            nodes,
            container as int,
            d as int,
        ) && (wanted.accepts(attribute_of(nodes[d as int].attributes@, "title"@), Some(d)) || (
        svg_title(nodes, d) && wanted.accepts(Some(node_text(nodes, d)), Some(d))))
}

/// What a query by title finds, in document order.
pub open spec fn title_found(
    nodes: Seq<Node>,
    container: NodeId,
    text: Matcher,
    options: MatcherOptions,
) -> Result<Seq<NodeId>, QueryErrorView> {
    match comparison(
        text,
        options.exact,
        options.trim,
        options.collapse_whitespace,
        options.normalizer,
    ) {
        Err(error) => Err(error),
        Ok(wanted) => Ok(select(nodes.len(), title_keep(nodes, container, wanted))),
    }
}

/// The elements below `container` whose `title` attribute the matcher
/// accepts, and the titles of drawings whose text it accepts, in document
/// order.
pub fn _query_all_by_title(
    doc: &Document,
    container: NodeId,
    text: &Matcher,
    options: &MatcherOptions,
) -> (r: Result<Vec<NodeId>, QueryError>)
    requires
        doc.contains(container),
    ensures
        found_view(r) == title_found(doc.nodes(), container, *text, *options),
        r matches Ok(found) ==> found_among(
            found@,
            doc.len(),
            title_candidate(doc.nodes(), container),
        ),
{
    let compare = TextMatch::new(
        text,
        options.exact,
        options.trim,
        options.collapse_whitespace,
        &options.normalizer,
    )?;
    let ghost setup = comparison(
        *text,
        options.exact,
        options.trim,
        options.collapse_whitespace,
        options.normalizer,
    );
    let mut found: Vec<NodeId> = Vec::new();
    let count = doc.node_count();
    let mut d: usize = 0;
    while d < count
        invariant
            d <= count,
            count == doc.len(),
            doc.contains(container),
            match setup {
                Ok(wanted) => compare.stands_for(wanted) && found@ == select(
                    d as nat,
                    title_keep(doc.nodes(), container, wanted),
                ),
                Err(_) => false,
            },
            found_among(found@, d as nat, title_candidate(doc.nodes(), container)),
        decreases count - d,
    {
        let node = doc.node(d);
        if node.kind == NodeKind::Element && doc.is_below(d, container) {
            let title = match node.get_attribute("title") {
                Some(value) => Some(value.clone()),
                None => None,
            };
            let mut keep = compare.test(title, Some(d));
            if !keep && is_svg_title(doc, d) {
                keep = compare.test(Some(get_node_text(doc, d)), Some(d));
            }
            if keep {
                found.push(d);
            }
        }
        d += 1;
    }
    Ok(found)
}

pub fn get_multiple_error(title: &Matcher) -> (r: String)
    ensures
        r@ == "Found multiple elements with the title: "@ + title.shown(),
{
    message_for("Found multiple elements with the title: ", title)
}

pub fn get_missing_error(title: &Matcher) -> (r: String)
    ensures
        r@ == "Unable to find an element with the title: "@ + title.shown(),
{
    message_for("Unable to find an element with the title: ", title)
}

/// All elements below `container` with a title that the matcher accepts; none is no error.
pub fn query_all_by_title(
    doc: &Document,
    config: &Config,
    container: NodeId,
    title: &Matcher,
    options: &MatcherOptions,
) -> (r: Result<Vec<NodeId>, QueryError>)
    requires
        doc.contains(container),
    ensures
        query_all_post(Query::Title(title, options), doc.nodes(), *config, container, r),
{
    query_all(doc, config, container, &Query::Title(title, options))
}

/// The element below `container` with a title that the matcher accepts, or `None`; several are an
/// error.
pub fn query_by_title(
    doc: &Document,
    config: &Config,
    container: NodeId,
    title: &Matcher,
    options: &MatcherOptions,
) -> (r: Result<Option<NodeId>, QueryError>)
    requires
        doc.contains(container),
    ensures
        query_post(Query::Title(title, options), doc.nodes(), *config, container, r),
{
    query(doc, config, container, &Query::Title(title, options))
}

/// All elements below `container` with a title that the matcher accepts; none is an error.
pub fn get_all_by_title(
    doc: &Document,
    config: &Config,
    container: NodeId,
    title: &Matcher,
    options: &MatcherOptions,
) -> (r: Result<Vec<NodeId>, QueryError>)
    requires
        doc.contains(container),
    ensures
        get_all_post(Query::Title(title, options), doc.nodes(), *config, container, r),
{
    get_all(doc, config, container, &Query::Title(title, options))
}

/// The one element below `container` with a title that the matcher accepts; none and several are
/// errors.
pub fn get_by_title(
    doc: &Document,
    config: &Config,
    container: NodeId,
    title: &Matcher,
    options: &MatcherOptions,
) -> (r: Result<NodeId, QueryError>)
    requires
        doc.contains(container),
    ensures
        get_post(Query::Title(title, options), doc.nodes(), *config, container, r),
{
    get(doc, config, container, &Query::Title(title, options))
}

/// Waits for elements below `container` with a title that the matcher accepts: retries
/// `get_all_by_title` on the document as it is at each poll.
pub fn find_all_by_title<S: Snapshots, C: Clock>(
    source: &S,
    clock: &C,
    config: &Config,
    container: NodeId,
    title: &Matcher,
    options: &MatcherOptions,
    wait_for_options: &WaitForOptions,
) -> (r: Result<(Document, Vec<NodeId>), WaitForError<QueryError>>)
    ensures
        find_all_post(source, clock, *wait_for_options, Query::Title(title, options), *config, container, r),
{
    find_all(source, clock, config, container, &Query::Title(title, options), wait_for_options)
}

/// Waits for the one element below `container` with a title that the matcher accepts: retries
/// `get_by_title` on the document as it is at each poll.
pub fn find_by_title<S: Snapshots, C: Clock>(
    source: &S,
    clock: &C,
    config: &Config,
    container: NodeId,
    title: &Matcher,
    options: &MatcherOptions,
    wait_for_options: &WaitForOptions,
) -> (r: Result<(Document, NodeId), WaitForError<QueryError>>)
    ensures
        find_post(source, clock, *wait_for_options, Query::Title(title, options), *config, container, r),
{
    find(source, clock, config, container, &Query::Title(title, options), wait_for_options)
}

} // verus!
