//! What all queries share: the errors that they report, the comparison of
//! texts that their options ask for, and the query by an attribute.
use vstd::prelude::*;
use crate::document::{
    ancestor_or_self, attribute_of, select, Document, Node, NodeId, NodeKind,
};
use crate::error::{found_view, one_view, QueryError, QueryErrorView};
use crate::matches::{
    fuzzy_matches, make_normalizer, normalized, normalizer_conflict, option_view, text_matches,
    Normalizer,
};
use crate::pretty_dom::{pretty_dom, pretty_dom_text};
use crate::selector::{parse_selector, selector_matches, Selector, SelectorView};
use crate::text::{chars_of, extend_str, string_of};
use crate::types::config::Config;
use crate::types::matches::{Matcher, MatcherOptions, NormalizerFn, NormalizerOptions};

verus! {

/// The text of the default element error: the message, an empty line, the
/// nodes that are not printed and the printed container.
pub open spec fn element_error_text(
    message: Option<Seq<char>>,
    ignore: Seq<char>,
    printed: Seq<char>,
) -> Seq<char> {
    let context = "Ignored nodes: comments, "@ + ignore + "\n"@ + printed;
    match message {
        Some(message) => message + "\n\n"@ + context,
        None => context,
    }
}

/// The element error for a container. The configuration's own function
/// builds it where there is one; else it is the default, which adds the
/// printed container to the message.
pub open spec fn element_error(
    nodes: Seq<Node>,
    config: Config,
    message: Option<Seq<char>>,
    container: NodeId,
) -> QueryErrorView {
    match config.get_element_error {
        Some(custom) => custom.built(message, nodes, container),
        None => QueryErrorView::Element(
            element_error_text(
                message,
                config.default_ignore@,
                pretty_dom_text(nodes, config.default_ignore@, Some(container), None),
            ),
        ),
    }
}

/// The error of a query that failed on `container`.
pub fn get_element_error(
    message: Option<String>,
    doc: &Document,
    config: &Config,
    container: NodeId,
) -> (error: QueryError)
    ensures
        error@ == element_error(doc.nodes(), *config, option_view(message), container),
{
    match &config.get_element_error {
        Some(custom) => custom.build(message, doc, container),
        None => {
            let printed = pretty_dom(doc, config, Some(container), None);
            let mut out: Vec<char> = Vec::new();
            match &message {
                Some(message) => {
                    extend_str(&mut out, message.as_str());
                    extend_str(&mut out, "\n\n");
                },
                None => {},
            }
            let ghost start = out@;
            extend_str(&mut out, "Ignored nodes: comments, ");
            extend_str(&mut out, config.default_ignore.as_str());
            extend_str(&mut out, "\n");
            extend_str(&mut out, printed.as_str());
            assert(out@ == start + ("Ignored nodes: comments, "@ + config.default_ignore@ + "\n"@
                + printed@));
            proof {
                if message is None {
                    assert(Seq::<char>::empty() + ("Ignored nodes: comments, "@
                        + config.default_ignore@ + "\n"@ + printed@) == "Ignored nodes: comments, "@
                        + config.default_ignore@ + "\n"@ + printed@);
                }
            }
            QueryError::Element(string_of(&out))
        },
    }
}

/// The advice that ends the message for several elements found.
pub open spec fn multiple_hint() -> Seq<char> {
    "\n\n(If this is intentional, then use the `*_all_by_*` variant of the query (like `query_all_by_text`, `get_all_by_text`, or `find_all_by_text`))."@
}

/// The error of a query for one element that found several.
pub fn get_multiple_elements_found_error(
    message: String,
    doc: &Document,
    config: &Config,
    container: NodeId,
) -> (error: QueryError)
    ensures
        error@ == element_error(doc.nodes(), *config, Some(message@ + multiple_hint()), container),
{
    let mut out: Vec<char> = Vec::new();
    extend_str(&mut out, message.as_str());
    extend_str(
        &mut out,
        "\n\n(If this is intentional, then use the `*_all_by_*` variant of the query (like `query_all_by_text`, `get_all_by_text`, or `find_all_by_text`)).",
    );
    get_element_error(Some(string_of(&out)), doc, config, container)
}

/// What the message of a suggestion starts with.
pub open spec fn suggestion_prefix() -> Seq<char> {
    "A better query is available, try this: "@
}

/// The error that proposes a better query.
pub fn get_suggestion_error(
    suggestion: String,
    doc: &Document,
    config: &Config,
    container: NodeId,
) -> (error: QueryError)
    ensures
        error@ == element_error(
            doc.nodes(),
            *config,
            Some(suggestion_prefix() + suggestion@),
            container,
        ),
{
    let mut out: Vec<char> = Vec::new();
    extend_str(&mut out, "A better query is available, try this: ");
    extend_str(&mut out, suggestion.as_str());
    get_element_error(Some(string_of(&out)), doc, config, container)
}

/// The error for a text that is no selector.
pub open spec fn invalid_selector(text: Seq<char>) -> QueryErrorView {
    QueryErrorView::JsError("'"@ + text + "' is not a valid selector"@)
}

/// The error for a text that is no selector.
pub fn selector_error(text: &str) -> (error: QueryError)
    ensures
        error@ == invalid_selector(text@),
{
    let mut out: Vec<char> = Vec::new();
    extend_str(&mut out, "'");
    extend_str(&mut out, text);
    extend_str(&mut out, "' is not a valid selector");
    QueryError::JsError(string_of(&out))
}

/// Reads a selector, or says that the text is none.
pub fn read_selector(text: &str) -> (r: Result<Selector, QueryError>)
    ensures
        match r {
            Ok(selector) => parse_selector(text@) == Some(selector@),
            Err(error) => parse_selector(text@) is None && error@ == invalid_selector(text@),
        },
{
    match Selector::parse(text) {
        Some(selector) => Ok(selector),
        None => Err(selector_error(text)),
    }
}

/// How texts are compared: what they are compared with, and how they are
/// prepared.
pub struct Comparison {
    pub matcher: Matcher,
    /// The caller's normalizer, which takes the place of trimming and
    /// collapsing.
    pub normalizer: Option<Box<dyn NormalizerFn>>,
    pub trim: bool,
    pub collapse: bool,
    pub exact: bool,
}

impl Comparison {
    /// The text as it is compared.
    pub open spec fn prepared(self, text: Seq<char>) -> Seq<char> {
        match self.normalizer {
            Some(custom) => custom.normalized(text),
            None => normalized(text, self.trim, self.collapse),
        }
    }

    /// Whether the comparison accepts the text of a node; no text is never
    /// accepted.
    pub open spec fn accepts(self, text: Option<Seq<char>>, node: Option<NodeId>) -> bool {
        match text {
            Some(text) => text_matches(self.prepared(text), node, self.matcher, self.exact),
            None => false,
        }
    }
}

/// What the options of a query make of a matcher: a normalizer of the
/// caller's cannot be combined with `trim` or `collapse_whitespace`.
pub open spec fn comparison(
    matcher: Matcher,
    exact: Option<bool>,
    trim: Option<bool>,
    collapse_whitespace: Option<bool>,
    normalizer: Option<Box<dyn NormalizerFn>>,
) -> Result<Comparison, QueryErrorView> {
    if normalizer is Some && (trim is Some || collapse_whitespace is Some) {
        Err(QueryErrorView::Configuration(normalizer_conflict()))
    } else {
        Ok(
            Comparison {
                matcher,
                normalizer,
                trim: trim.unwrap_or(true),
                collapse: collapse_whitespace.unwrap_or(true),
                exact: exact.unwrap_or(true),
            },
        )
    }
}

/// A matcher with the normalizer and the exactness that the options ask for.
pub struct TextMatch<'a> {
    pub matcher: &'a Matcher,
    pub normalizer: Normalizer<'a>,
    pub exact: bool,
}

impl<'a> TextMatch<'a> {
    /// Whether this is the comparison `wanted`, made ready for use.
    pub open spec fn stands_for(self, wanted: Comparison) -> bool {
        &&& *self.matcher == wanted.matcher
        &&& match wanted.normalizer {
            Some(custom) => self.normalizer matches Normalizer::Custom(held) && *held == custom,
            None => self.normalizer == (Normalizer::Default {
                trim: wanted.trim,
                collapse_whitespace: wanted.collapse,
            }),
        }
        &&& self.exact == wanted.exact
    }

    /// Prepares the comparison; the options may be in conflict.
    pub fn new(
        matcher: &'a Matcher,
        exact: Option<bool>,
        trim: Option<bool>,
        collapse_whitespace: Option<bool>,
        normalizer: &'a Option<Box<dyn NormalizerFn>>,
    ) -> (r: Result<TextMatch<'a>, QueryError>)
        ensures
            match r {
                Ok(made) => made.matcher == matcher && match comparison(
                    *matcher,
                    exact,
                    trim,
                    collapse_whitespace,
                    *normalizer,
                ) {
                    Ok(wanted) => made.stands_for(wanted),
                    Err(_) => false,
                },
                Err(error) => comparison(*matcher, exact, trim, collapse_whitespace, *normalizer)
                    == Err::<Comparison, QueryErrorView>(error@),
            },
    {
        let made = make_normalizer(
            NormalizerOptions { trim, collapse_whitespace, normalizer: normalizer.as_ref() },
        )?;
        Ok(TextMatch { matcher, normalizer: made, exact: exact.unwrap_or(true) })
    }

    /// Compares the text of a node. No text never matches.
    pub fn test(&self, text: Option<String>, node: Option<NodeId>) -> (r: bool)
        ensures
            forall|wanted: Comparison|
                self.stands_for(wanted) ==> r == wanted.accepts(option_view(text), node),
    {
        if self.exact {
            crate::matches::matches(text, node, self.matcher, &self.normalizer)
        } else {
            fuzzy_matches(text, node, self.matcher, &self.normalizer)
        }
    }
}

/// Every node of `found` stands below `limit` and is one that `candidate`
/// holds of, and the nodes stand in document order, none twice.
pub open spec fn found_among(
    found: Seq<NodeId>,
    limit: nat,
    candidate: spec_fn(NodeId) -> bool,
) -> bool {
    &&& forall|k: int| 0 <= k < found.len() ==> (#[trigger] found[k]) < limit && candidate(found[k])
    &&& forall|i: int, j: int| 0 <= i < j < found.len() ==> found[i] < found[j]
}

/// Whether the node at `d` is an element below `container` that the selector
/// matches.
pub open spec fn selected(nodes: Seq<Node>, container: NodeId, selector: SelectorView, d: NodeId) -> bool {
    d != container && ancestor_or_self(nodes, container as int, d as int) && selector_matches(
        nodes[d as int],
        selector,
    )
}

/// An element that can have an alternative text: an image, an input, an area
/// or a custom element, which has a `-` inside its name.
pub open spec fn takes_alt(node: Node) -> bool {
    node.named("img"@) || node.named("input"@) || node.named("area"@) || (node.kind
        == NodeKind::Element && exists|i: int|
        0 < i < node.name@.len() - 1 && #[trigger] node.name@[i] == '-')
}

/// Whether the element can have an alternative text.
pub fn can_take_alt(node: &Node) -> (r: bool)
    ensures
        r == takes_alt(*node),
{
    if node.is_named("img") || node.is_named("input") || node.is_named("area") {
        return true;
    }
    if node.kind != NodeKind::Element {
        return false;
    }
    let name = chars_of(node.name.as_str());
    if name.len() < 3 {
        return false;
    }
    let last = name.len() - 1;
    let mut i: usize = 1;
    while i < last
        invariant
            1 <= i <= last,
            last == name.len() - 1,
            name@ == node.name@,
            node.kind == NodeKind::Element,
            forall|k: int| 0 < k < i ==> name@[k] != '-',
        decreases last - i,
    {
        if name[i] == '-' {
            assert(node.name@[i as int] == '-');
            return true;
        }
        i += 1;
    }
    false
}

/// Whether the node at `d` is one that a query by attribute looks at: an
/// element below `container` that the selector matches; where `alt_only`,
/// only an element that can have an alternative text.
pub open spec fn attribute_candidate(
    nodes: Seq<Node>,
    container: NodeId,
    selector: SelectorView,
    alt_only: bool,
) -> spec_fn(NodeId) -> bool {
    |d: NodeId| selected(nodes, container, selector, d) && (alt_only ==> takes_alt(nodes[d as int]))
}

/// Whether the node at `d` is an element below `container` that the selector
/// matches and whose attribute the comparison accepts; where `alt_only`, only
/// an element that can have an alternative text.
pub open spec fn attribute_keep(
    nodes: Seq<Node>,
    container: NodeId,
    selector: SelectorView,
    attribute: Seq<char>,
    wanted: Comparison,
    alt_only: bool,
) -> spec_fn(NodeId) -> bool {
    |d: NodeId|
        selected(nodes, container, selector, d) && wanted.accepts(
            attribute_of(nodes[d as int].attributes@, attribute),
            Some(d),
        ) && (alt_only ==> takes_alt(nodes[d as int]))
}

/// The selector for the elements that have an attribute.
pub open spec fn attribute_selector_text(attribute: Seq<char>) -> Seq<char> {
    "["@ + attribute + "]"@
}

/// What a query by attribute finds: the elements below the container that
/// have the attribute with a value that the matcher accepts, in document
/// order. Options in conflict are a configuration error; an attribute name
/// that makes no selector is an error of the document.
pub open spec fn attribute_found(
    nodes: Seq<Node>,
    attribute: Seq<char>,
    container: NodeId,
    text: Matcher,
    options: MatcherOptions,
    alt_only: bool,
) -> Result<Seq<NodeId>, QueryErrorView> {
    match comparison(
        text,
        options.exact,
        options.trim,
        options.collapse_whitespace,
        options.normalizer,
    ) {
        Err(error) => Err(error),
        Ok(wanted) => match parse_selector(attribute_selector_text(attribute)) {
            None => Err(invalid_selector(attribute_selector_text(attribute))),
            Some(selector) => Ok(
                select(
                    nodes.len(),
                    attribute_keep(nodes, container, selector, attribute, wanted, alt_only),
                ),
            ),
        },
    }
}

/// What holds of the elements found by an attribute: each is an element
/// below the container that has the attribute, and they stand in document
/// order.
pub open spec fn found_by_attribute(
    nodes: Seq<Node>,
    attribute: Seq<char>,
    container: NodeId,
    alt_only: bool,
    found: Seq<NodeId>,
) -> bool {
    match parse_selector(attribute_selector_text(attribute)) {
        Some(selector) => found_among(
            found,
            nodes.len(),
            attribute_candidate(nodes, container, selector, alt_only),
        ),
        None => false,
    }
}

pub(crate) fn attribute_query(
    attribute: &str,
    doc: &Document,
    container: NodeId,
    text: &Matcher,
    options: &MatcherOptions,
    alt_only: bool,
) -> (r: Result<Vec<NodeId>, QueryError>)
    requires
        doc.contains(container),
    ensures
        found_view(r) == attribute_found(
            doc.nodes(),
            attribute@,
            container,
            *text,
            *options,
            alt_only,
        ),
        r matches Ok(found) ==> found_by_attribute(
            doc.nodes(),
            attribute@,
            container,
            alt_only,
            found@,
        ),
{
    let compare = TextMatch::new(
        text,
        options.exact,
        options.trim,
        options.collapse_whitespace,
        &options.normalizer,
    )?;
    let mut selector_text: Vec<char> = Vec::new();
    extend_str(&mut selector_text, "[");
    extend_str(&mut selector_text, attribute);
    extend_str(&mut selector_text, "]");
    let selector = read_selector(string_of(&selector_text).as_str())?;
    let ghost setup = comparison(
        *text,
        options.exact,
        options.trim,
        options.collapse_whitespace,
        options.normalizer,
    );
    let mut found: Vec<NodeId> = Vec::new();
    let count = doc.node_count();
    let mut d: usize = 0;
    while d < count
        invariant
            d <= count,
            count == doc.len(),
            doc.contains(container),
            match setup {
                Ok(wanted) => compare.stands_for(wanted) && found@ == select(
                    d as nat,
                    attribute_keep(doc.nodes(), container, selector@, attribute@, wanted, alt_only),
                ),
                Err(_) => false,
            },
            found_among(
                found@,
                d as nat,
                attribute_candidate(doc.nodes(), container, selector@, alt_only),
            ),
        decreases count - d,
    {
        let node = doc.node(d);
        if doc.is_below(d, container) && selector.matches(node) {
            let value = match node.get_attribute(attribute) {
                Some(value) => Some(value.clone()),
                None => None,
            };
            if compare.test(value, Some(d)) && (!alt_only || can_take_alt(node)) {
                found.push(d);
            }
        }
        d += 1;
    }
    Ok(found)
}

/// The elements below the container whose attribute the matcher accepts.
pub fn query_all_by_attribute(
    attribute: &str,
    doc: &Document,
    container: NodeId,
    text: &Matcher,
    options: &MatcherOptions,
) -> (r: Result<Vec<NodeId>, QueryError>)
    requires
        doc.contains(container),
    ensures
        found_view(r) == attribute_found(
            doc.nodes(),
            attribute@,
            container,
            *text,
            *options,
            false,
        ),
        r matches Ok(found) ==> found_by_attribute(
            doc.nodes(),
            attribute@,
            container,
            false,
            found@,
        ),
{
    attribute_query(attribute, doc, container, text, options, false)
}

/// A message that ends in the matcher.
pub fn message_for(prefix: &str, matcher: &Matcher) -> (r: String)
    ensures
        r@ == prefix@ + matcher.shown(),
{
    let mut out: Vec<char> = Vec::new();
    extend_str(&mut out, prefix);
    extend_str(&mut out, matcher.to_string().as_str());
    string_of(&out)
}

/// The message for several elements found by an attribute.
pub open spec fn multiple_by_attribute(attribute: Seq<char>, text: Matcher) -> Seq<char> {
    "Found multiple elements by ["@ + attribute + "="@ + text.shown() + "]"@
}

/// What `query_by_attribute` makes of the elements found.
pub open spec fn one_by_attribute(
    nodes: Seq<Node>,
    config: Config,
    attribute: Seq<char>,
    container: NodeId,
    text: Matcher,
    found: Seq<NodeId>,
) -> Result<Option<NodeId>, QueryErrorView> {
    if found.len() > 1 {
        Err(
            element_error(
                nodes,
                config,
                Some(multiple_by_attribute(attribute, text) + multiple_hint()),
                container,
            ),
        )
    } else if found.len() == 1 {
        Ok(Some(found[0]))
    } else {
        Ok(None)
    }
}

/// The element below the container whose attribute the matcher accepts, or
/// `None`; several are an error.
pub fn query_by_attribute(
    attribute: &str,
    doc: &Document,
    config: &Config,
    container: NodeId,
    text: &Matcher,
    options: &MatcherOptions,
) -> (r: Result<Option<NodeId>, QueryError>)
    requires
        doc.contains(container),
    ensures
        one_view(r) == match attribute_found(
            doc.nodes(),
            attribute@,
            container,
            *text,
            *options,
            false,
        ) {
            Ok(found) => one_by_attribute(doc.nodes(), *config, attribute@, container, *text, found),
            Err(error) => Err(error),
        },
{
    let found = query_all_by_attribute(attribute, doc, container, text, options)?;
    if found.len() > 1 {
        let mut message: Vec<char> = Vec::new();
        extend_str(&mut message, "Found multiple elements by [");
        extend_str(&mut message, attribute);
        extend_str(&mut message, "=");
        extend_str(&mut message, text.to_string().as_str());
        extend_str(&mut message, "]");
        Err(get_multiple_elements_found_error(string_of(&message), doc, config, container))
    } else if found.len() == 1 {
        Ok(Some(found[0]))
    } else {
        Ok(None)
    }
}

} // verus!
