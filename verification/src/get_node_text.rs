//! The text that an element shows as its own.
use vstd::prelude::*;
use crate::document::{attribute_of, Document, Node, NodeId, NodeKind};
use crate::text::{extend_str, str_eq, string_of};

verus! {

/// An input that is a button: of type submit, button or reset.
pub open spec fn is_button_input(node: Node) -> bool {
    node.named("input"@) && {
        let kind = attribute_of(node.attributes@, "type"@);
        kind == Some("submit"@) || kind == Some("button"@) || kind == Some("reset"@)
    }
}

/// The value of a form control, empty where it has none.
pub open spec fn value_of(node: Node) -> Seq<char> {
    match node.value {
        Some(value) => value@,
        None => Seq::empty(),
    }
}

/// The data of the text nodes among the first `k` nodes that are children of
/// `n`, in document order.
pub open spec fn own_text(nodes: Seq<Node>, n: NodeId, k: int) -> Seq<char>
    decreases k,
{
    if k <= 0 {
        Seq::empty()
    } else if nodes[k - 1].kind == NodeKind::Text && nodes[k - 1].parent == Some(n) {
        own_text(nodes, n, k - 1) + nodes[k - 1].data@
    } else {
        own_text(nodes, n, k - 1)
    }
}

/// The text of a node: the value of an input that is a button, else the text
/// nodes that are its children, joined.
pub open spec fn node_text(nodes: Seq<Node>, n: NodeId) -> Seq<char> {
    if is_button_input(nodes[n as int]) {
        value_of(nodes[n as int])
    } else {
        own_text(nodes, n, nodes.len() as int)
    }
}

fn button_input(node: &Node) -> (r: bool)
    ensures
        r == is_button_input(*node),
{
    if !node.is_named("input") {
        return false;
    }
    match node.get_attribute("type") {
        Some(kind) => str_eq(kind.as_str(), "submit") || str_eq(kind.as_str(), "button")
            || str_eq(kind.as_str(), "reset"),
        None => false,
    }
}

/// The text of a node: the value of an input that is a button, else the text
/// nodes that are its children, joined.
pub fn get_node_text(doc: &Document, node: NodeId) -> (text: String)
    requires
        doc.contains(node),
    ensures
        text@ == node_text(doc.nodes(), node),
{
    let this = doc.node(node);
    if button_input(this) {
        return match &this.value {
            Some(value) => value.clone(),
            None => String::new(),
        };
    }
    let mut out: Vec<char> = Vec::new();
    let count = doc.node_count();
    let mut k: usize = 0;
    while k < count
        invariant
            k <= count,
            count == doc.len(),
            out@ == own_text(doc.nodes(), node, k as int),
        decreases count - k,
    {
        let child = doc.node(k);
        let is_child = match child.parent {
            Some(parent) => parent == node,
            None => false,
        };
        if child.kind == NodeKind::Text && is_child {
            extend_str(&mut out, child.data.as_str());
        }
        k += 1;
    }
    string_of(&out)
}

} // verus!
