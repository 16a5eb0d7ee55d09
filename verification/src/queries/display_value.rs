//! Finding form controls by the value that they show.
use vstd::prelude::*;
use crate::types::config::Config;
use crate::error::WaitForError;
use crate::queries::{
    find, find_all, find_all_post, find_post, get, get_all, get_all_post, get_post, query,
    query_all, query_all_post, query_post, Query, Snapshots,
};
use crate::types::wait_for::WaitForOptions;
use crate::wait_for::Clock;
use crate::document::{ancestor_or_self, select, Document, Node, NodeId};
use crate::error::{found_view, QueryError, QueryErrorView};
use crate::get_node_text::{get_node_text, node_text, value_of};
use crate::query_helpers::{comparison, found_among, message_for, Comparison, TextMatch};
use crate::types::matches::{Matcher, MatcherOptions};

verus! {

/// Whether the node at `o` is a selected option below `list` whose text is
/// accepted.
pub open spec fn shown_option(nodes: Seq<Node>, list: NodeId, o: int, wanted: Comparison) -> bool {
    nodes[o].named("option"@) && nodes[o].selected && o != list && ancestor_or_self(
        nodes,
        list as int,
        o,
    ) && wanted.accepts(Some(node_text(nodes, o as NodeId)), Some(o as NodeId))
}

/// One of the first `k` nodes is a selected option below `list` whose text is
/// accepted.
pub open spec fn shows_option(nodes: Seq<Node>, list: NodeId, k: int, wanted: Comparison) -> bool
    decreases k,
{
    k > 0 && (shows_option(nodes, list, k - 1, wanted) || shown_option(nodes, list, k - 1, wanted))
}

/// Whether a form control shows a value that is accepted: a select by one of
/// its selected options, an input or a textarea by its value.
pub open spec fn shows(nodes: Seq<Node>, d: NodeId, wanted: Comparison) -> bool {
    if nodes[d as int].named("select"@) {
        shows_option(nodes, d, nodes.len() as int, wanted)
    } else {
        (nodes[d as int].named("input"@) || nodes[d as int].named("textarea"@)) && wanted.accepts(
            Some(value_of(nodes[d as int])),
            Some(d),
        )
    }
}

/// Whether the node at `d` is one that a query by display value looks at: an
/// input, a textarea or a select below `container`.
pub open spec fn display_value_candidate(nodes: Seq<Node>, container: NodeId) -> spec_fn(
    NodeId,
) -> bool {
    |d: NodeId|
        d != container && ancestor_or_self(nodes, container as int, d as int) && (nodes[d as int].named(
            "select"@,
        ) || nodes[d as int].named("input"@) || nodes[d as int].named("textarea"@))
}

/// Whether the node at `d` is a form control below `container` that shows a
/// value that is accepted.
pub open spec fn display_value_keep(
    nodes: Seq<Node>,
    container: NodeId,
    wanted: Comparison,
) -> spec_fn(NodeId) -> bool {
    |d: NodeId|
        d != container && ancestor_or_self(nodes, container as int, d as int) && shows(
            nodes,
            d,
            wanted,
        )
}

/// What a query by display value finds, in document order.
pub open spec fn display_value_found(
    nodes: Seq<Node>,
    container: NodeId,
    value: Matcher,
    options: MatcherOptions,
) -> Result<Seq<NodeId>, QueryErrorView> {
    match comparison(
        value,
        options.exact,
        options.trim,
        options.collapse_whitespace,
        options.normalizer,
    ) {
        Err(error) => Err(error),
        Ok(wanted) => Ok(select(nodes.len(), display_value_keep(nodes, container, wanted))),
    }
}

fn option_shown(doc: &Document, list: NodeId, compare: &TextMatch) -> (r: bool)
    requires
        doc.contains(list),
    ensures
        forall|wanted: Comparison|
            compare.stands_for(wanted) ==> r == shows_option(
                doc.nodes(),
                list,
                doc.len() as int,
                wanted,
            ),
{
    let count = doc.node_count();
    let mut shown = false;
    let mut o: usize = 0;
    while o < count
        invariant
            o <= count,
            count == doc.len(),
            doc.contains(list),
            forall|wanted: Comparison|
                compare.stands_for(wanted) ==> shown == shows_option(
                    doc.nodes(),
                    list,
                    o as int,
                    wanted,
                ),
        decreases count - o,
    {
        let node = doc.node(o);
        if !shown && node.is_named("option") && node.selected && doc.is_below(o, list) {
            shown = compare.test(Some(get_node_text(doc, o)), Some(o));
        }
        o += 1;
    }
    shown
}

/// The inputs, textareas and selects below `container` that show a value that
/// the matcher accepts, in document order.
pub fn _query_all_by_display_value(
    doc: &Document,
    container: NodeId,
    value: &Matcher,
    options: &MatcherOptions,
) -> (r: Result<Vec<NodeId>, QueryError>)
    requires
        doc.contains(container),
    ensures
        found_view(r) == display_value_found(doc.nodes(), container, *value, *options),
        r matches Ok(found) ==> found_among(
            found@,
            doc.len(),
            display_value_candidate(doc.nodes(), container),
        ),
{
    let compare = TextMatch::new(
        value,
        options.exact,
        options.trim,
        options.collapse_whitespace,
        &options.normalizer,
    )?;
    let ghost setup = comparison(
        *value,
        options.exact,
        options.trim,
        options.collapse_whitespace,
        options.normalizer,
    );
    let mut found: Vec<NodeId> = Vec::new();
    let count = doc.node_count();
    let mut d: usize = 0;
    while d < count
        invariant
            d <= count,
            count == doc.len(),
            doc.contains(container),
            match setup {
                Ok(wanted) => compare.stands_for(wanted) && found@ == select(
                    d as nat,
                    display_value_keep(doc.nodes(), container, wanted),
                ),
                Err(_) => false,
            },
            found_among(found@, d as nat, display_value_candidate(doc.nodes(), container)),
        decreases count - d,
    {
        let node = doc.node(d);
        if doc.is_below(d, container) {
            let keep = if node.is_named("select") {
                option_shown(doc, d, &compare)
            } else if node.is_named("input") || node.is_named("textarea") {
                let shown = match &node.value {
                    Some(value) => value.clone(),
                    None => String::new(),
                };
                compare.test(Some(shown), Some(d))
            } else {
                false
            };
            if keep {
                found.push(d);
            }
        }
        d += 1;
    }
    Ok(found)
}

pub fn get_multiple_error(value: &Matcher) -> (r: String)
    ensures
        r@ == "Found multiple elements with the display value: "@ + value.shown(),
{
    message_for("Found multiple elements with the display value: ", value)
}

pub fn get_missing_error(value: &Matcher) -> (r: String)
    ensures
        r@ == "Unable to find an element with the display value: "@ + value.shown(),
{
    message_for("Unable to find an element with the display value: ", value)
}

/// All elements below `container` with a value shown that the matcher accepts; none is no error.
pub fn query_all_by_display_value(
    doc: &Document,
    config: &Config,
    container: NodeId,
    value: &Matcher,
    options: &MatcherOptions,
) -> (r: Result<Vec<NodeId>, QueryError>)
    requires
        doc.contains(container),
    ensures
        query_all_post(Query::DisplayValue(value, options), doc.nodes(), *config, container, r),
{
    query_all(doc, config, container, &Query::DisplayValue(value, options))
}

/// The element below `container` with a value shown that the matcher accepts, or `None`; several are an
/// error.
pub fn query_by_display_value(
    doc: &Document,
    config: &Config,
    container: NodeId,
    value: &Matcher,
    options: &MatcherOptions,
) -> (r: Result<Option<NodeId>, QueryError>)
    requires
        doc.contains(container),
    ensures
        query_post(Query::DisplayValue(value, options), doc.nodes(), *config, container, r),
{
    query(doc, config, container, &Query::DisplayValue(value, options))
}

/// All elements below `container` with a value shown that the matcher accepts; none is an error.
pub fn get_all_by_display_value(
    doc: &Document,
    config: &Config,
    container: NodeId,
    value: &Matcher,
    options: &MatcherOptions,
) -> (r: Result<Vec<NodeId>, QueryError>)
    requires
        doc.contains(container),
    ensures
        get_all_post(Query::DisplayValue(value, options), doc.nodes(), *config, container, r),
{
    get_all(doc, config, container, &Query::DisplayValue(value, options))
}

/// The one element below `container` with a value shown that the matcher accepts; none and several are
/// errors.
pub fn get_by_display_value(
    doc: &Document,
    config: &Config,
    container: NodeId,
    value: &Matcher,
    options: &MatcherOptions,
) -> (r: Result<NodeId, QueryError>)
    requires
        doc.contains(container),
    ensures
        get_post(Query::DisplayValue(value, options), doc.nodes(), *config, container, r),
{
    get(doc, config, container, &Query::DisplayValue(value, options))
}

/// Waits for elements below `container` with a value shown that the matcher accepts: retries
/// `get_all_by_display_value` on the document as it is at each poll.
pub fn find_all_by_display_value<S: Snapshots, C: Clock>(
    source: &S,
    clock: &C,
    config: &Config,
    container: NodeId,
    value: &Matcher,
    options: &MatcherOptions,
    wait_for_options: &WaitForOptions,
) -> (r: Result<(Document, Vec<NodeId>), WaitForError<QueryError>>)
    ensures
        find_all_post(source, clock, *wait_for_options, Query::DisplayValue(value, options), *config, container, r),
{
    find_all(source, clock, config, container, &Query::DisplayValue(value, options), wait_for_options)
}

/// Waits for the one element below `container` with a value shown that the matcher accepts: retries
/// `get_by_display_value` on the document as it is at each poll.
pub fn find_by_display_value<S: Snapshots, C: Clock>(
    source: &S,
    clock: &C,
    config: &Config,
    container: NodeId,
    value: &Matcher,
    options: &MatcherOptions,
    wait_for_options: &WaitForOptions,
) -> (r: Result<(Document, NodeId), WaitForError<QueryError>>)
    ensures
        find_post(source, clock, *wait_for_options, Query::DisplayValue(value, options), *config, container, r),
{
    find(source, clock, config, container, &Query::DisplayValue(value, options), wait_for_options)
}

} // verus!
