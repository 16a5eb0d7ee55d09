//! Finding form controls, and whatever else is labelled, by the text of the
//! label.
use vstd::prelude::*;
use crate::types::config::Config;
use crate::error::WaitForError;
use crate::queries::{
    find, find_all, find_all_post, find_post, get, get_all, get_all_post, get_post, query,
    query_all, query_all_post, query_post, Query, Snapshots,
};
use crate::types::wait_for::WaitForOptions;
use crate::wait_for::Clock;
use crate::document::{
    ancestor_or_self, attribute_of, select, Document, Node, NodeId, NodeKind,
};
use crate::error::{found_view, QueryError, QueryErrorView};
use crate::label_helpers::{
    get_labels, get_real_labels, labels_of, labels_view, real_labels, Label, LabelView,
};
use crate::query_helpers::{comparison, message_for, Comparison, TextMatch};
use crate::queries::text::selector_text;
use crate::selector::{parse_selector, selector_matches, Selector, SelectorView};
use crate::text::{chars_of, join, join_chars, string_of, views};
use crate::types::matches::{Matcher, SelectorMatcherOptions};

verus! {

/// The form controls of the labels whose own text is accepted for the
/// control, in the labels' order; of the first `k` labels.
pub open spec fn matching_controls(labels: Seq<LabelView>, wanted: Comparison, k: int) -> Seq<
    NodeId,
>
    decreases k,
{
    if k <= 0 {
        Seq::empty()
    } else {
        let before = matching_controls(labels, wanted, k - 1);
        if labels[k - 1].form_control is Some && wanted.accepts(
            labels[k - 1].content,
            labels[k - 1].form_control,
        ) {
            before.push(labels[k - 1].form_control->0)
        } else {
            before
        }
    }
}

/// The texts of the first `k` labels, without the labels that have none.
pub open spec fn contents(labels: Seq<LabelView>, k: int) -> Seq<Seq<char>>
    decreases k,
{
    if k <= 0 {
        Seq::empty()
    } else {
        match labels[k - 1].content {
            Some(text) => contents(labels, k - 1).push(text),
            None => contents(labels, k - 1),
        }
    }
}

/// One space: what the texts of several labels are joined by.
pub open spec fn space() -> Seq<char> {
    seq![' ']
}

/// Whether the text at `i` is accepted alone, or the others are when joined,
/// where two or more others are left.
pub open spec fn one_or_others(
    texts: Seq<Seq<char>>,
    wanted: Comparison,
    node: Option<NodeId>,
    i: int,
) -> bool {
    wanted.accepts(Some(texts[i]), node) || (texts.len() - 1 > 1 && wanted.accepts(
        Some(join(texts.remove(i), space())),
        node,
    ))
}

/// `one_or_others` holds of one of the first `k` texts.
pub open spec fn some_one_or_others(
    texts: Seq<Seq<char>>,
    wanted: Comparison,
    node: Option<NodeId>,
    k: int,
) -> bool
    decreases k,
{
    k > 0 && (some_one_or_others(texts, wanted, node, k - 1) || one_or_others(
        texts,
        wanted,
        node,
        k - 1,
    ))
}

/// Whether the texts of an element's labels are accepted for the element: all
/// of them joined by spaces; or, where there are two or more, one of them
/// alone, or all but one joined by spaces where that leaves two or more.
pub open spec fn label_texts_match(
    texts: Seq<Seq<char>>,
    wanted: Comparison,
    node: Option<NodeId>,
) -> bool {
    wanted.accepts(Some(join(texts, space())), node) || (texts.len() > 1 && some_one_or_others(
        texts,
        wanted,
        node,
        texts.len() as int,
    ))
}

/// The element at `e` lies below `container` and has a label: a label element
/// points to it, or it has `aria-labelledby`.
pub open spec fn is_labelled(nodes: Seq<Node>, container: NodeId, e: NodeId) -> bool {
    nodes[e as int].kind == NodeKind::Element && e != container && ancestor_or_self(
        nodes,
        container as int,
        e as int,
    ) && (real_labels(nodes, e).len() > 0 || attribute_of(
        nodes[e as int].attributes@,
        "aria-labelledby"@,
    ) is Some)
}

/// What a labelled element adds to the elements found: the form controls of
/// its labels whose text is accepted, and then itself where the texts of its
/// labels are.
pub open spec fn found_by_labels(
    nodes: Seq<Node>,
    container: NodeId,
    e: NodeId,
    selector: Option<SelectorView>,
    wanted: Comparison,
) -> Seq<NodeId> {
    let labels = labels_of(nodes, container, e, selector);
    let controls = matching_controls(labels, wanted, labels.len() as int);
    if label_texts_match(contents(labels, labels.len() as int), wanted, Some(e)) {
        controls.push(e)
    } else {
        controls
    }
}

/// What the labelled elements among the first `k` nodes add, in document
/// order.
pub open spec fn found_labelled(
    nodes: Seq<Node>,
    container: NodeId,
    selector: Option<SelectorView>,
    wanted: Comparison,
    k: int,
) -> Seq<NodeId>
    decreases k,
{
    if k <= 0 {
        Seq::empty()
    } else if is_labelled(nodes, container, (k - 1) as NodeId) {
        found_labelled(nodes, container, selector, wanted, k - 1) + found_by_labels(
            nodes,
            container,
            (k - 1) as NodeId,
            selector,
            wanted,
        )
    } else {
        found_labelled(nodes, container, selector, wanted, k - 1)
    }
}

/// Whether the node at `d` is an element below `container` with an
/// `aria-label` that is accepted.
pub open spec fn aria_label_keep(nodes: Seq<Node>, container: NodeId, wanted: Comparison) -> spec_fn(
    NodeId,
) -> bool {
    |d: NodeId|
        nodes[d as int].kind == NodeKind::Element && d != container && ancestor_or_self(
            nodes,
            container as int,
            d as int,
        ) && wanted.accepts(attribute_of(nodes[d as int].attributes@, "aria-label"@), Some(d))
}

/// The elements of `raw` that the selector matches, each once, where it comes
/// first.
pub open spec fn kept(nodes: Seq<Node>, selector: Option<SelectorView>, raw: Seq<NodeId>) -> Seq<
    NodeId,
>
    decreases raw.len(),
{
    if raw.len() == 0 {
        Seq::empty()
    } else {
        let before = kept(nodes, selector, raw.drop_last());
        let x = raw.last();
        let matched = match selector {
            Some(selector) => selector_matches(nodes[x as int], selector),
            None => false,
        };
        if x < nodes.len() && matched && !before.contains(x) {
            before.push(x)
        } else {
            before
        }
    }
}

/// Every node of `found` is an element that the selector matches, and none
/// stands there twice.
pub open spec fn matched_once(nodes: Seq<Node>, selector: Option<SelectorView>, found: Seq<NodeId>) -> bool {
    &&& forall|k: int|
        0 <= k < found.len() ==> (#[trigger] found[k]) < nodes.len() && match selector {
            Some(selector) => selector_matches(nodes[found[k] as int], selector),
            None => false,
        }
    &&& forall|i: int, j: int| 0 <= i < j < found.len() ==> found[i] != found[j]
}

/// What is kept of any nodes are elements that the selector matches, each
/// once.
pub proof fn lemma_kept(nodes: Seq<Node>, selector: Option<SelectorView>, raw: Seq<NodeId>)
    ensures
        matched_once(nodes, selector, kept(nodes, selector, raw)),
        forall|x: NodeId| kept(nodes, selector, raw).contains(x) ==> raw.contains(x),
    decreases raw.len(),
{
    if raw.len() > 0 {
        lemma_kept(nodes, selector, raw.drop_last());
        let before = kept(nodes, selector, raw.drop_last());
        let after = kept(nodes, selector, raw);
        assert forall|x: NodeId| after.contains(x) implies raw.contains(x) by {
            let k = choose|k: int| 0 <= k < after.len() && after[k] == x;
            if k < before.len() {
                assert(before[k] == x);
                assert(before.contains(x));
                assert(raw.drop_last().contains(x));
                let i = choose|i: int| 0 <= i < raw.drop_last().len() && raw.drop_last()[i] == x;
                assert(raw[i] == x);
            } else {
                assert(raw[raw.len() - 1] == x);
            }
        }
        assert forall|i: int, j: int| 0 <= i < j < after.len() implies after[i] != after[j] by {
            if j == before.len() {
                assert(before[i] == after[i]);
                assert(before.contains(after[i]));
            }
        }
    }
}

/// What a query by label text finds: first what the labelled elements below
/// the container add, in document order, then the elements with an accepted
/// `aria-label`; of these, those that the selector matches, each once.
pub open spec fn label_text_found(
    nodes: Seq<Node>,
    container: NodeId,
    text: Matcher,
    options: SelectorMatcherOptions,
) -> Result<Seq<NodeId>, QueryErrorView> {
    let selector = parse_selector(selector_text(options.selector));
    match comparison(
        text,
        options.exact,
        options.trim,
        options.collapse_whitespace,
        options.normalizer,
    ) {
        Err(error) => Err(error),
        Ok(wanted) => Ok(
            kept(
                nodes,
                selector,
                found_labelled(nodes, container, selector, wanted, nodes.len() as int) + select(
                    nodes.len(),
                    aria_label_keep(nodes, container, wanted),
                ),
            ),
        ),
    }
}

/// Every node of `found` is an element of the document.
pub open spec fn all_elements(nodes: Seq<Node>, found: Seq<NodeId>) -> bool {
    forall|k: int|
        0 <= k < found.len() ==> (#[trigger] found[k]) < nodes.len() && nodes[found[k] as int].kind
            == NodeKind::Element
}

fn contains_node(found: &Vec<NodeId>, x: NodeId) -> (r: bool)
    ensures
        r == found@.contains(x),
{
    let mut i: usize = 0;
    while i < found.len()
        invariant
            i <= found.len(),
            forall|k: int| 0 <= k < i ==> found@[k] != x,
        decreases found.len() - i,
    {
        if found[i] == x {
            return true;
        }
        i += 1;
    }
    false
}

/// Adds `x` where the selector matches it and it is not there yet.
fn keep(doc: &Document, selector: &Option<Selector>, found: &mut Vec<NodeId>, x: NodeId, Ghost(raw): Ghost<
    Seq<NodeId>,
>)
    requires
        old(found)@ == kept(doc.nodes(), crate::label_helpers::selector_view(*selector), raw),
        all_elements(doc.nodes(), old(found)@),
    ensures
        final(found)@ == kept(
            doc.nodes(),
            crate::label_helpers::selector_view(*selector),
            raw.push(x),
        ),
        all_elements(doc.nodes(), final(found)@),
{
    assert(raw.push(x).drop_last() == raw);
    if x >= doc.node_count() {
        return ;
    }
    let matched = match selector {
        Some(selector) => selector.matches(doc.node(x)),
        None => false,
    };
    if matched && !contains_node(found, x) {
        found.push(x);
    }
}

fn label_contents(labels: &Vec<Label>) -> (texts: Vec<Vec<char>>)
    ensures
        views(texts@) == contents(labels_view(labels@), labels.len() as int),
{
    let mut texts: Vec<Vec<char>> = Vec::new();
    let mut k: usize = 0;
    while k < labels.len()
        invariant
            k <= labels.len(),
            views(texts@) == contents(labels_view(labels@), k as int),
        decreases labels.len() - k,
    {
        assert(labels_view(labels@)[k as int] == labels@[k as int]@);
        match &labels[k].content {
            Some(text) => {
                let ghost before = texts@;
                texts.push(chars_of(text.as_str()));
                assert(views(texts@) == views(before).push(text@));
            },
            None => {},
        }
        k += 1;
    }
    texts
}

proof fn lemma_found_later(
    texts: Seq<Seq<char>>,
    wanted: Comparison,
    node: Option<NodeId>,
    i: int,
    k: int,
)
    requires
        0 <= i < k,
        one_or_others(texts, wanted, node, i),
    ensures
        some_one_or_others(texts, wanted, node, k),
    decreases k,
{
    if i < k - 1 {
        lemma_found_later(texts, wanted, node, i, k - 1);
    }
}

fn texts_match(texts: &Vec<Vec<char>>, compare: &TextMatch, element: NodeId) -> (r: bool)
    ensures
        forall|wanted: Comparison|
            compare.stands_for(wanted) ==> r == label_texts_match(
                views(texts@),
                wanted,
                Some(element),
            ),
{
    let separator: Vec<char> = vec![' '];
    assert(separator@ == space());
    let all = string_of(&join_chars(texts, &separator));
    if compare.test(Some(all), Some(element)) {
        return true;
    }
    if texts.len() <= 1 {
        return false;
    }
    let mut i: usize = 0;
    while i < texts.len()
        invariant
            i <= texts.len(),
            texts.len() > 1,
            separator@ == space(),
            forall|wanted: Comparison|
                compare.stands_for(wanted) ==> !some_one_or_others(
                    views(texts@),
                    wanted,
                    Some(element),
                    i as int,
                ),
        decreases texts.len() - i,
    {
        let one = string_of(&texts[i]);
        assert(one@ == views(texts@)[i as int]);
        if compare.test(Some(one), Some(element)) {
            proof {
                assert forall|wanted: Comparison| compare.stands_for(wanted) implies label_texts_match(
                    views(texts@),
                    wanted,
                    Some(element),
                ) by {
                    lemma_found_later(
                        views(texts@),
                        wanted,
                        Some(element),
                        i as int,
                        texts.len() as int,
                    );
                }
            }
            return true;
        }
        if texts.len() - 1 > 1 {
            let mut others: Vec<Vec<char>> = Vec::new();
            let mut j: usize = 0;
            while j < texts.len()
                invariant
                    j <= texts.len(),
                    i < texts.len(),
                    views(others@) == if j <= i {
                        views(texts@).take(j as int)
                    } else {
                        views(texts@).take(j as int).remove(i as int)
                    },
                decreases texts.len() - j,
            {
                if j != i {
                    let ghost before = others@;
                    others.push(crate::text::clone_chars(&texts[j]));
                    assert(views(others@) == views(before).push(views(texts@)[j as int]));
                }
                j += 1;
            }
            assert(views(texts@).take(texts.len() as int) == views(texts@));
            let rest = string_of(&join_chars(&others, &separator));
            if compare.test(Some(rest), Some(element)) {
                proof {
                    assert forall|wanted: Comparison| compare.stands_for(wanted) implies label_texts_match(
                        views(texts@),
                        wanted,
                        Some(element),
                    ) by {
                        lemma_found_later(
                            views(texts@),
                            wanted,
                            Some(element),
                            i as int,
                            texts.len() as int,
                        );
                    }
                }
                return true;
            }
        }
        i += 1;
    }
    false
}

/// The elements whose label the matcher accepts: first what the labelled
/// elements below `container` add, in document order, then the elements with
/// an accepted `aria-label`; of these, those that the selector matches, each
/// once.
pub fn _query_all_by_label_text(
    doc: &Document,
    container: NodeId,
    text: &Matcher,
    options: &SelectorMatcherOptions,
) -> (r: Result<Vec<NodeId>, QueryError>)
    requires
        doc.contains(container),
    ensures
        found_view(r) == label_text_found(doc.nodes(), container, *text, *options),
        r matches Ok(found) ==> matched_once(
            doc.nodes(),
            parse_selector(selector_text(options.selector)),
            found@,
        ),
{
    let compare = TextMatch::new(
        text,
        options.exact,
        options.trim,
        options.collapse_whitespace,
        &options.normalizer,
    )?;
    let selector = match &options.selector {
        Some(text) => Selector::parse(text.as_str()),
        None => Selector::parse("*"),
    };
    let ghost selector_view = parse_selector(selector_text(options.selector));
    let ghost setup = comparison(
        *text,
        options.exact,
        options.trim,
        options.collapse_whitespace,
        options.normalizer,
    );
    let ghost wanted = match setup {
        Ok(wanted) => wanted,
        Err(_) => arbitrary(),
    };
    let mut found: Vec<NodeId> = Vec::new();
    let ghost mut raw: Seq<NodeId> = Seq::empty();
    let count = doc.node_count();
    let mut e: usize = 0;
    while e < count
        invariant
            e <= count,
            count == doc.len(),
            doc.contains(container),
            selector_view == crate::label_helpers::selector_view(selector),
            selector_view == parse_selector(selector_text(options.selector)),
            compare.stands_for(wanted),
            raw == found_labelled(
                doc.nodes(),
                container,
                selector_view,
                wanted,
                e as int,
            ),
            found@ == kept(doc.nodes(), selector_view, raw),
            all_elements(doc.nodes(), found@),
        decreases count - e,
    {
        let node = doc.node(e);
        if node.kind == NodeKind::Element && doc.is_below(e, container) {
            let labelled = get_real_labels(doc, e).len() > 0 || node.has_attribute(
                "aria-labelledby",
            );
            if labelled {
                let labels = match &options.selector {
                    Some(text) => get_labels(doc, container, e, Some(text.as_str())),
                    None => get_labels(doc, container, e, None),
                };
                let ghost label_views = labels_view(labels@);
                let ghost start = raw;
                let mut k: usize = 0;
                while k < labels.len()
                    invariant
                        k <= labels.len(),
                        label_views == labels_view(labels@),
                        selector_view == crate::label_helpers::selector_view(selector),
                        compare.stands_for(wanted),
                        raw == start + matching_controls(label_views, wanted, k as int),
                        found@ == kept(doc.nodes(), selector_view, raw),
                        all_elements(doc.nodes(), found@),
                    decreases labels.len() - k,
                {
                    assert(label_views[k as int] == labels@[k as int]@);
                    match labels[k].form_control {
                        Some(control) => {
                            let content = match &labels[k].content {
                                Some(text) => Some(text.clone()),
                                None => None,
                            };
                            if compare.test(content, Some(control)) {
                                keep(doc, &selector, &mut found, control, Ghost(raw));
                                proof {
                                    raw = raw.push(control);
                                    assert(raw == start + matching_controls(
                                        label_views,
                                        wanted,
                                        k + 1,
                                    ));
                                }
                            }
                        },
                        None => {},
                    }
                    k += 1;
                }
                let texts = label_contents(&labels);
                if texts_match(&texts, &compare, e) {
                    keep(doc, &selector, &mut found, e, Ghost(raw));
                    proof {
                        raw = raw.push(e);
                    }
                }
                assert(raw == start + found_by_labels(
                    doc.nodes(),
                    container,
                    e,
                    selector_view,
                    wanted,
                ));
            }
        }
        e += 1;
    }
    let ghost labelled_part = raw;
    let mut d: usize = 0;
    assert(raw == labelled_part + Seq::<NodeId>::empty());
    while d < count
        invariant
            d <= count,
            count == doc.len(),
            doc.contains(container),
            selector_view == crate::label_helpers::selector_view(selector),
            compare.stands_for(wanted),
            raw == labelled_part + select(
                d as nat,
                aria_label_keep(doc.nodes(), container, wanted),
            ),
            found@ == kept(doc.nodes(), selector_view, raw),
            all_elements(doc.nodes(), found@),
        decreases count - d,
    {
        let node = doc.node(d);
        if node.kind == NodeKind::Element && doc.is_below(d, container) {
            let label = match node.get_attribute("aria-label") {
                Some(value) => Some(value.clone()),
                None => None,
            };
            if compare.test(label, Some(d)) {
                keep(doc, &selector, &mut found, d, Ghost(raw));
                proof {
                    raw = raw.push(d);
                    assert(raw == labelled_part + select(
                        d as nat,
                        aria_label_keep(doc.nodes(), container, wanted),
                    ).push(d));
                }
            }
        }
        d += 1;
    }
    proof {
        lemma_kept(doc.nodes(), selector_view, raw);
    }
    Ok(found)
}

pub fn get_multiple_error(text: &Matcher) -> (r: String)
    ensures
        r@ == "Found multiple elements with the label text: "@ + text.shown(),
{
    message_for("Found multiple elements with the label text: ", text)
}

pub fn get_missing_error(text: &Matcher) -> (r: String)
    ensures
        r@ == "Unable to find a label with the text of: "@ + text.shown(),
{
    message_for("Unable to find a label with the text of: ", text)
}

/// All elements below `container` with a label that the matcher accepts; none is no error.
pub fn query_all_by_label_text(
    doc: &Document,
    config: &Config,
    container: NodeId,
    text: &Matcher,
    options: &SelectorMatcherOptions,
) -> (r: Result<Vec<NodeId>, QueryError>)
    requires
        doc.contains(container),
    ensures
        query_all_post(Query::LabelText(text, options), doc.nodes(), *config, container, r),
{
    query_all(doc, config, container, &Query::LabelText(text, options))
}

/// The element below `container` with a label that the matcher accepts, or `None`; several are an
/// error.
pub fn query_by_label_text(
    doc: &Document,
    config: &Config,
    container: NodeId,
    text: &Matcher,
    options: &SelectorMatcherOptions,
) -> (r: Result<Option<NodeId>, QueryError>)
    requires
        doc.contains(container),
    ensures
        query_post(Query::LabelText(text, options), doc.nodes(), *config, container, r),
{
    query(doc, config, container, &Query::LabelText(text, options))
}

/// All elements below `container` with a label that the matcher accepts; none is an error.
pub fn get_all_by_label_text(
    doc: &Document,
    config: &Config,
    container: NodeId,
    text: &Matcher,
    options: &SelectorMatcherOptions,
) -> (r: Result<Vec<NodeId>, QueryError>)
    requires
        doc.contains(container),
    ensures
        get_all_post(Query::LabelText(text, options), doc.nodes(), *config, container, r),
{
    get_all(doc, config, container, &Query::LabelText(text, options))
}

/// The one element below `container` with a label that the matcher accepts; none and several are
/// errors.
pub fn get_by_label_text(
    doc: &Document,
    config: &Config,
    container: NodeId,
    text: &Matcher,
    options: &SelectorMatcherOptions,
) -> (r: Result<NodeId, QueryError>)
    requires
        doc.contains(container),
    ensures
        get_post(Query::LabelText(text, options), doc.nodes(), *config, container, r),
{
    get(doc, config, container, &Query::LabelText(text, options))
}

/// Waits for elements below `container` with a label that the matcher accepts: retries
/// `get_all_by_label_text` on the document as it is at each poll.
pub fn find_all_by_label_text<S: Snapshots, C: Clock>(
    source: &S,
    clock: &C,
    config: &Config,
    container: NodeId,
    text: &Matcher,
    options: &SelectorMatcherOptions,
    wait_for_options: &WaitForOptions,
) -> (r: Result<(Document, Vec<NodeId>), WaitForError<QueryError>>)
    ensures
        find_all_post(source, clock, *wait_for_options, Query::LabelText(text, options), *config, container, r),
{
    find_all(source, clock, config, container, &Query::LabelText(text, options), wait_for_options)
}

/// Waits for the one element below `container` with a label that the matcher accepts: retries
/// `get_by_label_text` on the document as it is at each poll.
pub fn find_by_label_text<S: Snapshots, C: Clock>(
    source: &S,
    clock: &C,
    config: &Config,
    container: NodeId,
    text: &Matcher,
    options: &SelectorMatcherOptions,
    wait_for_options: &WaitForOptions,
) -> (r: Result<(Document, NodeId), WaitForError<QueryError>>)
    ensures
        find_post(source, clock, *wait_for_options, Query::LabelText(text, options), *config, container, r),
{
    find(source, clock, config, container, &Query::LabelText(text, options), wait_for_options)
}

} // verus!
