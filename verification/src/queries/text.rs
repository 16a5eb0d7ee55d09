//! Finding elements by the text that they show.
use vstd::prelude::*;
use crate::error::WaitForError;
use crate::queries::{
    find, find_all, find_all_post, find_post, get, get_all, get_all_post, get_post, query,
    query_all, query_all_post, query_post, Query, Snapshots,
};
use crate::types::wait_for::WaitForOptions;
use crate::wait_for::Clock;
use crate::document::{ancestor_or_self, select, Document, Node, NodeId};
use crate::error::{found_view, QueryError, QueryErrorView};
use crate::get_node_text::{get_node_text, node_text};
use crate::query_helpers::{
    comparison, found_among, invalid_selector, message_for, read_selector, Comparison, TextMatch,
};
use crate::selector::{parse_selector, selector_matches, Selector, SelectorView};
use crate::text::{extend_str, str_eq, string_of};
use crate::types::config::Config;
use crate::types::matches::{Ignore, Matcher, SelectorMatcherOptions};

verus! {

/// The selector of the elements that a query may find: every element where
/// none is given.
pub open spec fn selector_text(selector: Option<String>) -> Seq<char> {
    match selector {
        Some(text) => text@,
        None => "*"@,
    }
}

/// The selector of the elements that a query by text leaves out: that of the
/// options, else that of the configuration. `None` where nothing is left out,
/// which is also so where the text is no selector.
pub open spec fn ignored(ignore: Option<Ignore>, default_ignore: Seq<char>) -> Option<SelectorView> {
    match ignore {
        Some(Ignore::False) => None,
        Some(Ignore::String(text)) => parse_selector(text@),
        None => parse_selector(default_ignore),
    }
}

/// Whether the node at `d` is one that a query by text looks at: `container`
/// or an element below it that the selector matches and the selector of
/// ignored elements does not.
pub open spec fn text_candidate(
    nodes: Seq<Node>,
    container: NodeId,
    selector: SelectorView,
    ignore: Option<SelectorView>,
) -> spec_fn(NodeId) -> bool {
    |d: NodeId|
        ancestor_or_self(nodes, container as int, d as int) && selector_matches(
            nodes[d as int],
            selector,
        ) && !(ignore matches Some(ignore) && selector_matches(nodes[d as int], ignore))
}

/// What holds of the elements found by their text: each is one that the
/// query looks at, and they stand in document order.
pub open spec fn found_by_text(
    nodes: Seq<Node>,
    default_ignore: Seq<char>,
    container: NodeId,
    options: SelectorMatcherOptions,
    found: Seq<NodeId>,
) -> bool {
    match parse_selector(selector_text(options.selector)) {
        Some(selector) => found_among(
            found,
            nodes.len(),
            text_candidate(nodes, container, selector, ignored(options.ignore, default_ignore)),
        ),
        None => false,
    }
}

/// Whether the node at `d` is `container` or below it, is matched by the
/// selector and not by the selector of ignored elements, and has a text that
/// is accepted.
pub open spec fn text_keep(
    nodes: Seq<Node>,
    container: NodeId,
    selector: SelectorView,
    ignore: Option<SelectorView>,
    wanted: Comparison,
) -> spec_fn(NodeId) -> bool {
    |d: NodeId|
        ancestor_or_self(nodes, container as int, d as int) && selector_matches(
            nodes[d as int],
            selector,
        ) && !(ignore matches Some(ignore) && selector_matches(nodes[d as int], ignore))
            && wanted.accepts(Some(node_text(nodes, d)), Some(d))
}

/// What a query by text finds, in document order.
pub open spec fn text_found(
    nodes: Seq<Node>,
    default_ignore: Seq<char>,
    container: NodeId,
    text: Matcher,
    options: SelectorMatcherOptions,
) -> Result<Seq<NodeId>, QueryErrorView> {
    match comparison(
        text,
        options.exact,
        options.trim,
        options.collapse_whitespace,
        options.normalizer,
    ) {
        Err(error) => Err(error),
        Ok(wanted) => match parse_selector(selector_text(options.selector)) {
            None => Err(invalid_selector(selector_text(options.selector))),
            Some(selector) => Ok(
                select(
                    nodes.len(),
                    text_keep(
                        nodes,
                        container,
                        selector,
                        ignored(options.ignore, default_ignore),
                        wanted,
                    ),
                ),
            ),
        },
    }
}

pub(crate) fn wanted_selector(selector: &Option<String>) -> (r: Result<Selector, QueryError>)
    ensures
        match r {
            Ok(parsed) => parse_selector(selector_text(*selector)) == Some(parsed@),
            Err(error) => parse_selector(selector_text(*selector)) is None && error@
                == invalid_selector(selector_text(*selector)),
        },
{
    match selector {
        Some(text) => read_selector(text.as_str()),
        None => read_selector("*"),
    }
}

/// The elements in and below `container` whose text the matcher accepts, in
/// document order: those that the selector of the options matches and the
/// selector of ignored elements does not.
pub fn _query_all_by_text(
    doc: &Document,
    config: &Config,
    container: NodeId,
    text: &Matcher,
    options: &SelectorMatcherOptions,
) -> (r: Result<Vec<NodeId>, QueryError>)
    requires
        doc.contains(container),
    ensures
        found_view(r) == text_found(
            doc.nodes(),
            config.default_ignore@,
            container,
            *text,
            *options,
        ),
        r matches Ok(found) ==> found_by_text(
            doc.nodes(),
            config.default_ignore@,
            container,
            *options,
            found@,
        ),
{
    let compare = TextMatch::new(
        text,
        options.exact,
        options.trim,
        options.collapse_whitespace,
        &options.normalizer,
    )?;
    let selector = wanted_selector(&options.selector)?;
    let ignore = match &options.ignore {
        Some(Ignore::False) => None,
        Some(Ignore::String(text)) => Selector::parse(text.as_str()),
        None => Selector::parse(config.default_ignore.as_str()),
    };
    let ghost ignore_view = ignored(options.ignore, config.default_ignore@);
    let ghost setup = comparison(
        *text,
        options.exact,
        options.trim,
        options.collapse_whitespace,
        options.normalizer,
    );
    let mut found: Vec<NodeId> = Vec::new();
    let count = doc.node_count();
    let mut d: usize = 0;
    while d < count
        invariant
            d <= count,
            count == doc.len(),
            doc.contains(container),
            ignore_view == crate::label_helpers::selector_view(ignore),
            match setup {
                Ok(wanted) => compare.stands_for(wanted) && found@ == select(
                    d as nat,
                    text_keep(doc.nodes(), container, selector@, ignore_view, wanted),
                ),
                Err(_) => false,
            },
            found_among(
                found@,
                d as nat,
                text_candidate(doc.nodes(), container, selector@, ignore_view),
            ),
        decreases count - d,
    {
        let node = doc.node(d);
        if doc.is_ancestor_or_self(container, d) && selector.matches(node) {
            let left_out = match &ignore {
                Some(ignore) => ignore.matches(node),
                None => false,
            };
            if !left_out && compare.test(Some(get_node_text(doc, d)), Some(d)) {
                found.push(d);
            }
        }
        d += 1;
    }
    Ok(found)
}

pub fn get_multiple_error(text: &Matcher) -> (r: String)
    ensures
        r@ == "Found multiple elements with the text: "@ + text.shown(),
{
    message_for("Found multiple elements with the text: ", text)
}

/// How the message for a missing text ends.
pub open spec fn missing_text_hint() -> Seq<char> {
    ". This could be because the text is broken up by multiple elements. In this case, you can provide a function for your text matcher to make your matcher more flexible."@
}

/// The message that names the text, with its normalized form where that is
/// another, and the selector where one is given.
pub open spec fn missing_text(text: Seq<char>, normalized: Seq<char>, selector: Seq<char>) -> Seq<
    char,
> {
    "Unable to find an element with the text: "@ + (if normalized != text {
        normalized + " (normalized from '"@ + text + "')"@
    } else {
        text
    }) + (if selector != "*"@ {
        ", which matches selector '"@ + selector + "'"@
    } else {
        Seq::<char>::empty()
    }) + missing_text_hint()
}

/// What `get_missing_error` says: the matcher as it is shown, and what the
/// normalizer of the options makes of that.
pub open spec fn missing_message(text: Matcher, options: SelectorMatcherOptions) -> Result<
    Seq<char>,
    QueryErrorView,
> {
    match comparison(
        text,
        options.exact,
        options.trim,
        options.collapse_whitespace,
        options.normalizer,
    ) {
        Err(error) => Err(error),
        Ok(wanted) => Ok(
            missing_text(
                text.shown(),
                wanted.prepared(text.shown()),
                selector_text(options.selector),
            ),
        ),
    }
}

pub fn get_missing_error(text: &Matcher, options: &SelectorMatcherOptions) -> (r: Result<
    String,
    QueryError,
>)
    ensures
        match r {
            Ok(said) => missing_message(*text, *options) == Ok::<Seq<char>, QueryErrorView>(said@),
            Err(error) => missing_message(*text, *options) == Err::<Seq<char>, QueryErrorView>(
                error@,
            ),
        },
{
    let made = crate::matches::make_normalizer(
        crate::types::matches::NormalizerOptions {
            trim: options.trim,
            collapse_whitespace: options.collapse_whitespace,
            normalizer: options.normalizer.as_ref(),
        },
    )?;
    let shown = text.to_string();
    let normalized = made.apply(shown.as_str());
    let mut out: Vec<char> = Vec::new();
    extend_str(&mut out, "Unable to find an element with the text: ");
    let ghost start = out@;
    if !str_eq(normalized.as_str(), shown.as_str()) {
        extend_str(&mut out, normalized.as_str());
        extend_str(&mut out, " (normalized from '");
        extend_str(&mut out, shown.as_str());
        extend_str(&mut out, "')");
        assert(out@ == start + (normalized@ + " (normalized from '"@ + shown@ + "')"@));
    } else {
        extend_str(&mut out, shown.as_str());
    }
    let ghost middle = out@;
    let is_custom = match &options.selector {
        Some(selector) => !str_eq(selector.as_str(), "*"),
        None => false,
    };
    match &options.selector {
        Some(selector) => {
            if is_custom {
                extend_str(&mut out, ", which matches selector '");
                extend_str(&mut out, selector.as_str());
                extend_str(&mut out, "'");
                assert(out@ == middle + (", which matches selector '"@ + selector@ + "'"@));
            }
        },
        None => {},
    }
    proof {
        if !is_custom {
            assert(out@ == middle + Seq::<char>::empty());
        }
    }
    extend_str(
        &mut out,
        ". This could be because the text is broken up by multiple elements. In this case, you can provide a function for your text matcher to make your matcher more flexible.",
    );
    Ok(string_of(&out))
}

/// All elements below `container` with a text that the matcher accepts; none is no error.
pub fn query_all_by_text(
    doc: &Document,
    config: &Config,
    container: NodeId,
    text: &Matcher,
    options: &SelectorMatcherOptions,
) -> (r: Result<Vec<NodeId>, QueryError>)
    requires
        doc.contains(container),
    ensures
        query_all_post(Query::Text(text, options), doc.nodes(), *config, container, r),
{
    query_all(doc, config, container, &Query::Text(text, options))
}

/// The element below `container` with a text that the matcher accepts, or `None`; several are an
/// error.
pub fn query_by_text(
    doc: &Document,
    config: &Config,
    container: NodeId,
    text: &Matcher,
    options: &SelectorMatcherOptions,
) -> (r: Result<Option<NodeId>, QueryError>)
    requires
        doc.contains(container),
    ensures
        query_post(Query::Text(text, options), doc.nodes(), *config, container, r),
{
    query(doc, config, container, &Query::Text(text, options))
}

/// All elements below `container` with a text that the matcher accepts; none is an error.
pub fn get_all_by_text(
    doc: &Document,
    config: &Config,
    container: NodeId,
    text: &Matcher,
    options: &SelectorMatcherOptions,
) -> (r: Result<Vec<NodeId>, QueryError>)
    requires
        doc.contains(container),
    ensures
        get_all_post(Query::Text(text, options), doc.nodes(), *config, container, r),
{
    get_all(doc, config, container, &Query::Text(text, options))
}

/// The one element below `container` with a text that the matcher accepts; none and several are
/// errors.
pub fn get_by_text(
    doc: &Document,
    config: &Config,
    container: NodeId,
    text: &Matcher,
    options: &SelectorMatcherOptions,
) -> (r: Result<NodeId, QueryError>)
    requires
        doc.contains(container),
    ensures
        get_post(Query::Text(text, options), doc.nodes(), *config, container, r),
{
    get(doc, config, container, &Query::Text(text, options))
}

/// Waits for elements below `container` with a text that the matcher accepts: retries
/// `get_all_by_text` on the document as it is at each poll.
pub fn find_all_by_text<S: Snapshots, C: Clock>(
    source: &S,
    clock: &C,
    config: &Config,
    container: NodeId,
    text: &Matcher,
    options: &SelectorMatcherOptions,
    wait_for_options: &WaitForOptions,
) -> (r: Result<(Document, Vec<NodeId>), WaitForError<QueryError>>)
    ensures
        find_all_post(source, clock, *wait_for_options, Query::Text(text, options), *config, container, r),
{
    find_all(source, clock, config, container, &Query::Text(text, options), wait_for_options)
}

/// Waits for the one element below `container` with a text that the matcher accepts: retries
/// `get_by_text` on the document as it is at each poll.
pub fn find_by_text<S: Snapshots, C: Clock>(
    source: &S,
    clock: &C,
    config: &Config,
    container: NodeId,
    text: &Matcher,
    options: &SelectorMatcherOptions,
    wait_for_options: &WaitForOptions,
) -> (r: Result<(Document, NodeId), WaitForError<QueryError>>)
    ensures
        find_post(source, clock, *wait_for_options, Query::Text(text, options), *config, container, r),
{
    find(source, clock, config, container, &Query::Text(text, options), wait_for_options)
}

} // verus!
