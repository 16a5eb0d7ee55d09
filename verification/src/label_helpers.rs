//! The labels of a form control: the label elements that point to it, or the
//! elements that `aria-labelledby` names.
use vstd::prelude::*;
use crate::document::{
    ancestor_or_self, attribute_of, first, placed, select, Document, Node, NodeId, NodeKind,
};
use crate::get_node_text::value_of;
use crate::selector::{parse_selector, selector_matches, Selector, SelectorView};
use crate::text::{chars_of, extend_str, split, split_chars, str_eq, string_of, views};

verus! {

/// The element is a form control by its tag: the text inside it is its own and
/// no part of a label round it.
pub open spec fn is_control(node: Node) -> bool {
    node.named("button"@) || node.named("meter"@) || node.named("output"@) || node.named(
        "progress"@,
    ) || node.named("select"@) || node.named("textarea"@) || node.named("input"@)
}

/// A label can point to the element: a form control, but no hidden input.
pub open spec fn labelable(node: Node) -> bool {
    is_control(node) && !(node.named("input"@) && attribute_of(node.attributes@, "type"@) == Some(
        "hidden"@,
    ))
}

/// On the way from `d` up to `top`, both included, stands a form control.
pub open spec fn inside_control(nodes: Seq<Node>, d: int, top: int) -> bool
    decreases d,
{
    0 <= d < nodes.len() && (is_control(nodes[d]) || (d != top && match nodes[d].parent {
        Some(p) => p < d && inside_control(nodes, p as int, top),
        None => false,
    }))
}

/// Whether the text node at `i` belongs to the text gathered below `top`.
pub open spec fn gathers(nodes: Seq<Node>, top: NodeId, i: int, skip_controls: bool) -> bool {
    nodes[i].kind == NodeKind::Text && ancestor_or_self(nodes, top as int, i) && !(skip_controls
        && inside_control(nodes, i, top as int))
}

/// The data of the text nodes among the first `k` nodes that lie below `top`,
/// in document order; without those inside a form control where
/// `skip_controls`.
pub open spec fn gathered_text(nodes: Seq<Node>, top: NodeId, k: int, skip_controls: bool) -> Seq<
    char,
>
    decreases k,
{
    if k <= 0 {
        Seq::empty()
    } else if gathers(nodes, top, k - 1, skip_controls) {
        gathered_text(nodes, top, k - 1, skip_controls) + nodes[k - 1].data@
    } else {
        gathered_text(nodes, top, k - 1, skip_controls)
    }
}

/// The text of a label: for a label element the text below it outside form
/// controls, for an input its value, for any other element all text below it.
pub open spec fn label_content(nodes: Seq<Node>, n: NodeId) -> Seq<char> {
    if nodes[n as int].named("label"@) {
        gathered_text(nodes, n, nodes.len() as int, true)
    } else if nodes[n as int].named("input"@) {
        value_of(nodes[n as int])
    } else {
        gathered_text(nodes, n, nodes.len() as int, false)
    }
}

fn control_name(node: &Node) -> (r: bool)
    ensures
        r == is_control(*node),
{
    node.is_named("button") || node.is_named("meter") || node.is_named("output") || node.is_named(
        "progress",
    ) || node.is_named("select") || node.is_named("textarea") || node.is_named("input")
}

/// Whether a label can point to the element.
pub fn is_labelable(doc: &Document, element: NodeId) -> (r: bool)
    requires
        doc.contains(element),
    ensures
        r == labelable(doc.nodes()[element as int]),
{
    let node = doc.node(element);
    if !control_name(node) {
        return false;
    }
    if node.is_named("input") {
        match node.get_attribute("type") {
            Some(kind) => !str_eq(kind.as_str(), "hidden"),
            None => true,
        }
    } else {
        true
    }
}

fn within_control(doc: &Document, d: NodeId, top: NodeId) -> (r: bool)
    requires
        doc.contains(d),
    ensures
        r == inside_control(doc.nodes(), d as int, top as int),
{
    proof {
        use_type_invariant(doc);
    }
    let mut current: usize = d;
    loop
        invariant
            doc.wf(),
            doc.contains(current),
            inside_control(doc.nodes(), d as int, top as int) == inside_control(
                doc.nodes(),
                current as int,
                top as int,
            ),
        decreases current,
    {
        if control_name(doc.node(current)) {
            return true;
        }
        if current == top {
            return false;
        }
        assert(placed(doc.nodes(), current as int));
        match doc.node(current).parent {
            Some(parent) => {
                current = parent;
            },
            None => {
                return false;
            },
        }
    }
}

fn gather_text(doc: &Document, top: NodeId, skip_controls: bool) -> (text: String)
    requires
        doc.contains(top),
    ensures
        text@ == gathered_text(doc.nodes(), top, doc.len() as int, skip_controls),
{
    let mut out: Vec<char> = Vec::new();
    let count = doc.node_count();
    let mut k: usize = 0;
    while k < count
        invariant
            k <= count,
            count == doc.len(),
            out@ == gathered_text(doc.nodes(), top, k as int, skip_controls),
        decreases count - k,
    {
        let node = doc.node(k);
        if node.kind == NodeKind::Text && doc.is_ancestor_or_self(top, k) && !(skip_controls
            && within_control(doc, k, top)) {
            extend_str(&mut out, node.data.as_str());
        }
        k += 1;
    }
    string_of(&out)
}

/// The text of a label. It is always there.
pub fn get_label_content(doc: &Document, element: NodeId) -> (content: Option<String>)
    requires
        doc.contains(element),
    ensures
        content matches Some(text) && text@ == label_content(doc.nodes(), element),
{
    let node = doc.node(element);
    if node.is_named("label") {
        Some(gather_text(doc, element, true))
    } else if node.is_named("input") {
        match &node.value {
            Some(value) => Some(value.clone()),
            None => Some(String::new()),
        }
    } else {
        Some(gather_text(doc, element, false))
    }
}

/// Whether the node at `l` is a label element that points to `element`.
pub open spec fn labels_element(nodes: Seq<Node>, element: NodeId) -> spec_fn(NodeId) -> bool {
    |l: NodeId| nodes[l as int].named("label"@) && nodes[l as int].control == Some(element)
}

/// The label elements of the document that point to `element`, in document
/// order; none where no label can point to it.
pub open spec fn real_labels(nodes: Seq<Node>, element: NodeId) -> Seq<NodeId> {
    if labelable(nodes[element as int]) {
        select(nodes.len(), labels_element(nodes, element))
    } else {
        Seq::empty()
    }
}

/// The label elements of the document that point to `element`.
pub fn get_real_labels(doc: &Document, element: NodeId) -> (labels: Vec<NodeId>)
    requires
        doc.contains(element),
    ensures
        labels@ == real_labels(doc.nodes(), element),
{
    let mut labels: Vec<NodeId> = Vec::new();
    if !is_labelable(doc, element) {
        return labels;
    }
    let count = doc.node_count();
    let mut l: usize = 0;
    while l < count
        invariant
            l <= count,
            count == doc.len(),
            labels@ == select(l as nat, labels_element(doc.nodes(), element)),
        decreases count - l,
    {
        let node = doc.node(l);
        let points = match node.control {
            Some(control) => control == element,
            None => false,
        };
        if node.is_named("label") && points {
            labels.push(l);
        }
        l += 1;
    }
    labels
}

/// A label's text, and the form control found inside the label.
#[derive(Debug)]
pub struct Label {
    pub content: Option<String>,
    pub form_control: Option<NodeId>,
}

/// A label, as its text.
pub struct LabelView {
    pub content: Option<Seq<char>>,
    pub form_control: Option<NodeId>,
}

impl View for Label {
    type V = LabelView;

    open spec fn view(&self) -> LabelView {
        LabelView {
            content: match self.content {
                Some(text) => Some(text@),
                None => None,
            },
            form_control: self.form_control,
        }
    }
}

/// The labels, as their texts.
pub open spec fn labels_view(labels: Seq<Label>) -> Seq<LabelView> {
    labels.map_values(|label: Label| label@)
}

/// Whether the node at `d` is an element below `container` whose `id` is `id`.
pub open spec fn has_id_below(nodes: Seq<Node>, container: NodeId, id: Seq<char>) -> spec_fn(
    NodeId,
) -> bool {
    |d: NodeId|
        nodes[d as int].kind == NodeKind::Element && d != container && ancestor_or_self(
            nodes,
            container as int,
            d as int,
        ) && attribute_of(nodes[d as int].attributes@, "id"@) == Some(id)
}

/// The label that an id of `aria-labelledby` stands for: the text of the
/// first element below `container` with that id, empty where there is none.
pub open spec fn labelling(nodes: Seq<Node>, container: NodeId, id: Seq<char>) -> LabelView {
    match first(0, nodes.len(), has_id_below(nodes, container, id)) {
        Some(found) => LabelView {
            content: Some(label_content(nodes, found)),
            form_control: None,
        },
        None => LabelView { content: Some(Seq::empty()), form_control: None },
    }
}

/// Whether the node at `d` is a form control below `label` that the selector
/// matches.
pub open spec fn is_control_below(
    nodes: Seq<Node>,
    label: NodeId,
    selector: Option<SelectorView>,
) -> spec_fn(NodeId) -> bool {
    |d: NodeId|
        d != label && ancestor_or_self(nodes, label as int, d as int) && is_control(
            nodes[d as int],
        ) && match selector {
            Some(selector) => selector_matches(nodes[d as int], selector),
            None => false,
        }
}

/// A label element's text, and the first form control below it that the
/// selector matches.
pub open spec fn labelled_by(nodes: Seq<Node>, label: NodeId, selector: Option<SelectorView>) -> LabelView {
    LabelView {
        content: Some(label_content(nodes, label)),
        form_control: first(0, nodes.len(), is_control_below(nodes, label, selector)),
    }
}

/// The labels of an element. Where it has `aria-labelledby`, one for each id
/// between the white space of that attribute, in their order; else one for
/// each label element that points to it.
pub open spec fn labels_of(
    nodes: Seq<Node>,
    container: NodeId,
    element: NodeId,
    selector: Option<SelectorView>,
) -> Seq<LabelView> {
    match attribute_of(nodes[element as int].attributes@, "aria-labelledby"@) {
        Some(ids) => split(ids, true).map_values(|id: Seq<char>| labelling(nodes, container, id)),
        None => real_labels(nodes, element).map_values(
            |label: NodeId| labelled_by(nodes, label, selector),
        ),
    }
}

fn find_by_id(doc: &Document, container: NodeId, id: &str) -> (found: Option<NodeId>)
    requires
        doc.contains(container),
    ensures
        found == first(0, doc.len(), has_id_below(doc.nodes(), container, id@)),
        found matches Some(n) ==> doc.contains(n),
{
    let count = doc.node_count();
    let mut d: usize = 0;
    while d < count
        invariant
            d <= count,
            count == doc.len(),
            first(0, doc.len(), has_id_below(doc.nodes(), container, id@)) == first(
                d as nat,
                doc.len(),
                has_id_below(doc.nodes(), container, id@),
            ),
        decreases count - d,
    {
        let node = doc.node(d);
        let same = match node.get_attribute("id") {
            Some(value) => str_eq(value.as_str(), id),
            None => false,
        };
        if node.kind == NodeKind::Element && d != container && same && doc.is_ancestor_or_self(
            container,
            d,
        ) {
            return Some(d);
        }
        d += 1;
    }
    None
}

/// A selector that may not have been read, as its view.
pub open spec fn selector_view(selector: Option<Selector>) -> Option<SelectorView> {
    match selector {
        Some(selector) => Some(selector@),
        None => None,
    }
}

fn find_control(doc: &Document, label: NodeId, selector: &Option<Selector>) -> (found: Option<
    NodeId,
>)
    requires
        doc.contains(label),
    ensures
        found == first(
            0,
            doc.len(),
            is_control_below(doc.nodes(), label, selector_view(*selector)),
        ),
        found matches Some(n) ==> doc.contains(n),
{
    let count = doc.node_count();
    let mut d: usize = 0;
    while d < count
        invariant
            d <= count,
            count == doc.len(),
            first(0, doc.len(), is_control_below(doc.nodes(), label, selector_view(*selector)))
                == first(
                d as nat,
                doc.len(),
                is_control_below(doc.nodes(), label, selector_view(*selector)),
            ),
        decreases count - d,
    {
        let node = doc.node(d);
        let matched = match selector {
            Some(selector) => selector.matches(node),
            None => false,
        };
        if d != label && matched && control_name(node) && doc.is_ancestor_or_self(label, d) {
            return Some(d);
        }
        d += 1;
    }
    None
}

/// The labels of `element`. `selector` chooses among the form controls inside
/// a label; without one, any is taken.
pub fn get_labels(
    doc: &Document,
    container: NodeId,
    element: NodeId,
    selector: Option<&str>,
) -> (labels: Vec<Label>)
    requires
        doc.contains(container),
        doc.contains(element),
    ensures
        labels_view(labels@) == labels_of(
            doc.nodes(),
            container,
            element,
            parse_selector(
                match selector {
                    Some(text) => text@,
                    None => "*"@,
                },
            ),
        ),
{
    let parsed = match selector {
        Some(text) => Selector::parse(text),
        None => Selector::parse("*"),
    };
    let mut labels: Vec<Label> = Vec::new();
    let ghost wanted = labels_of(doc.nodes(), container, element, selector_view(parsed));
    match doc.node(element).get_attribute("aria-labelledby") {
        Some(attribute) => {
            let chars = chars_of(attribute.as_str());
            let ids = split_chars(&chars, true);
            let mut i: usize = 0;
            while i < ids.len()
                invariant
                    i <= ids.len(),
                    doc.contains(container),
                    views(ids@) == split(attribute@, true),
                    wanted == split(attribute@, true).map_values(
                        |id: Seq<char>| labelling(doc.nodes(), container, id),
                    ),
                    labels_view(labels@) == wanted.take(i as int),
                decreases ids.len() - i,
            {
                let id = string_of(&ids[i]);
                assert(id@ == views(ids@)[i as int]);
                let label = match find_by_id(doc, container, id.as_str()) {
                    Some(found) => Label { content: get_label_content(doc, found), form_control: None },
                    None => Label { content: Some(String::new()), form_control: None },
                };
                let ghost before = labels@;
                labels.push(label);
                assert(labels_view(labels@) == labels_view(before).push(label@));
                assert(wanted.take(i + 1) == wanted.take(i as int).push(wanted[i as int]));
                i += 1;
            }
            assert(wanted.take(ids.len() as int) == wanted);
        },
        None => {
            let found_labels = get_real_labels(doc, element);
            proof {
                doc.lemma_countable();
                crate::document::lemma_select(doc.len(), labels_element(doc.nodes(), element));
                assert forall|k: int| 0 <= k < found_labels.len() implies doc.contains(
                    #[trigger] found_labels@[k],
                ) by {
                    assert(found_labels@.contains(found_labels@[k]));
                }
            }
            let mut i: usize = 0;
            while i < found_labels.len()
                invariant
                    i <= found_labels.len(),
                    found_labels@ == real_labels(doc.nodes(), element),
                    forall|k: int| 0 <= k < found_labels.len() ==> doc.contains(#[trigger] found_labels@[k]),
                    wanted == found_labels@.map_values(
                        |label: NodeId| labelled_by(doc.nodes(), label, selector_view(parsed)),
                    ),
                    labels_view(labels@) == wanted.take(i as int),
                decreases found_labels.len() - i,
            {
                let id = found_labels[i];
                let label = Label {
                    content: get_label_content(doc, id),
                    form_control: find_control(doc, id, &parsed),
                };
                let ghost before = labels@;
                labels.push(label);
                assert(labels_view(labels@) == labels_view(before).push(label@));
                assert(wanted.take(i + 1) == wanted.take(i as int).push(wanted[i as int]));
                i += 1;
            }
            assert(wanted.take(found_labels.len() as int) == wanted);
        },
    }
    labels
}

} // verus!
