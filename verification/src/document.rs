//! The document tree that the queries read: a snapshot of the host's nodes,
//! kept in document order.
use vstd::prelude::*;
use vstd::string::StringExecFns;
use crate::text::{ascii_lower, chars_eq, chars_of, str_eq, to_ascii_lower};

verus! {

/// What a node is.
#[derive(Clone, Copy, Debug, PartialEq, Eq, Structural)]
pub enum NodeKind {
    Element,
    Text,
    Comment,
}

/// An attribute of an element.
#[derive(Clone, Debug, PartialEq, Eq)]
pub struct Attribute {
    pub name: String,
    pub value: String,
}

/// One node of the tree. For an element, `name` is its tag name and the fields
/// after `attributes` hold what the host reports of it; for a text or comment
/// node, `data` is its character data.
#[derive(Clone, Debug, PartialEq, Eq)]
pub struct Node {
    pub kind: NodeKind,
    pub parent: Option<usize>,
    pub name: String,
    pub data: String,
    pub attributes: Vec<Attribute>,
    /// The `hidden` property.
    pub hidden: bool,
    /// The computed style's `display`.
    pub display: String,
    /// The computed style's `visibility`.
    pub visibility: String,
    /// The current value of a form control.
    pub value: Option<String>,
    pub checked: bool,
    pub indeterminate: bool,
    pub selected: bool,
    /// For a label: the form control that it labels.
    pub control: Option<usize>,
    pub accessible_name: String,
    pub accessible_description: String,
}

/// Index of a node in its document. Document order is index order.
pub type NodeId = usize;

/// The nodes of a tree, or of several trees one after another, in document
/// order. A node is added at the end, as a root or as the last child of the
/// last node or of one of its ancestors.
#[derive(Debug)]
pub struct Document {
    nodes: Vec<Node>,
}

/// `a` is `n` or lies on the chain of parents above `n`.
pub open spec fn ancestor_or_self(nodes: Seq<Node>, a: int, n: int) -> bool
    decreases n,
{
    a == n || (0 <= n < nodes.len() && match nodes[n].parent {
        Some(p) => p < n && ancestor_or_self(nodes, a, p as int),
        None => false,
    })
}

/// The parent of node `i`, where it has one, is an element that stands before
/// `i`: the node just before `i` or one of that node's ancestors.
pub open spec fn placed(nodes: Seq<Node>, i: int) -> bool {
    match nodes[i].parent {
        Some(p) => p < i && nodes[p as int].kind == NodeKind::Element && ancestor_or_self(
            nodes,
            p as int,
            i - 1,
        ),
        None => true,
    }
}

/// Every node is placed after its parent and in document order, so that index
/// order is document order.
pub open spec fn well_formed(nodes: Seq<Node>) -> bool {
    forall|i: int| 0 <= i < nodes.len() ==> #[trigger] placed(nodes, i)
}

/// The positions below `n` that `keep` holds of, in ascending order.
pub open spec fn select(n: nat, keep: spec_fn(NodeId) -> bool) -> Seq<NodeId>
    decreases n,
{
    if n == 0 {
        Seq::empty()
    } else if keep((n - 1) as NodeId) {
        select((n - 1) as nat, keep).push((n - 1) as NodeId)
    } else {
        select((n - 1) as nat, keep)
    }
}

/// `select` holds exactly the positions below `n` that `keep` holds of, each
/// once and in ascending order.
pub proof fn lemma_select(n: nat, keep: spec_fn(NodeId) -> bool)
    requires
        n <= usize::MAX,
    ensures
        forall|i: NodeId| select(n, keep).contains(i) <==> i < n && keep(i),
        forall|a: int, b: int|
            0 <= a < b < select(n, keep).len() ==> select(n, keep)[a] < select(n, keep)[b],
        select(n, keep).len() <= n,
    decreases n,
{
    if n > 0 {
        let before = select((n - 1) as nat, keep);
        lemma_select((n - 1) as nat, keep);
        let last = (n - 1) as NodeId;
        if keep(last) {
            let all = before.push(last);
            assert forall|i: NodeId| all.contains(i) <==> i < n && keep(i) by {
                if all.contains(i) {
                    let k = choose|k: int| 0 <= k < all.len() && all[k] == i;
                    if k < before.len() {
                        assert(before.contains(i));
                    }
                }
                if i < n && keep(i) {
                    if i == last {
                        assert(all[before.len() as int] == i);
                    } else {
                        assert(before.contains(i));
                        let k = choose|k: int| 0 <= k < before.len() && before[k] == i;
                        assert(all[k] == i);
                    }
                }
            }
            assert forall|a: int, b: int| 0 <= a < b < all.len() implies all[a] < all[b] by {
                assert(before.contains(all[a]));
            }
        }
    }
}

/// The first position from `from` on, and below `n`, that `keep` holds of.
pub open spec fn first(from: nat, n: nat, keep: spec_fn(NodeId) -> bool) -> Option<NodeId>
    decreases n - from,
{
    if from >= n {
        None
    } else if keep(from as NodeId) {
        Some(from as NodeId)
    } else {
        first(from + 1, n, keep)
    }
}

/// The value of the first attribute called `name`.
pub open spec fn attribute_of(attributes: Seq<Attribute>, name: Seq<char>) -> Option<Seq<char>>
    decreases attributes.len(),
{
    if attributes.len() == 0 {
        None
    } else if attributes[0].name@ == name {
        Some(attributes[0].value@)
    } else {
        attribute_of(attributes.drop_first(), name)
    }
}

/// Adding nodes at the end changes nothing in who is an ancestor of a node
/// that was there before.
proof fn lemma_ancestor_prefix(nodes: Seq<Node>, longer: Seq<Node>, a: int, n: int)
    requires
        nodes.len() <= longer.len(),
        forall|i: int| 0 <= i < nodes.len() ==> nodes[i] == longer[i],
        n < nodes.len(),
    ensures
        ancestor_or_self(nodes, a, n) == ancestor_or_self(longer, a, n),
    decreases n,
{
    if a != n && 0 <= n {
        match nodes[n].parent {
            Some(p) => {
                if p < n {
                    lemma_ancestor_prefix(nodes, longer, a, p as int);
                }
            },
            None => {},
        }
    }
}

/// An ancestor stands at or before its descendant.
pub proof fn lemma_ancestor_at_most(nodes: Seq<Node>, a: int, n: int)
    requires
        ancestor_or_self(nodes, a, n),
    ensures
        a <= n,
    decreases n,
{
    if a != n {
        lemma_ancestor_at_most(nodes, a, nodes[n].parent->0 as int);
    }
}

/// The types that an input can have.
pub open spec fn is_input_type(name: Seq<char>) -> bool {
    ||| name == "hidden"@
    ||| name == "text"@
    ||| name == "search"@
    ||| name == "tel"@
    ||| name == "url"@
    ||| name == "email"@
    ||| name == "password"@
    ||| name == "date"@
    ||| name == "month"@
    ||| name == "week"@
    ||| name == "time"@
    ||| name == "datetime-local"@
    ||| name == "number"@
    ||| name == "range"@
    ||| name == "color"@
    ||| name == "checkbox"@
    ||| name == "radio"@
    ||| name == "file"@
    ||| name == "submit"@
    ||| name == "image"@
    ||| name == "reset"@
    ||| name == "button"@
}

fn input_type_exists(name: &Vec<char>) -> (r: bool)
    ensures
        r == is_input_type(name@),
{
    let s = crate::text::string_of(name);
    let t = s.as_str();
    str_eq(t, "hidden") || str_eq(t, "text") || str_eq(t, "search") || str_eq(t, "tel") || str_eq(
        t,
        "url",
    ) || str_eq(t, "email") || str_eq(t, "password") || str_eq(t, "date") || str_eq(t, "month")
        || str_eq(t, "week") || str_eq(t, "time") || str_eq(t, "datetime-local") || str_eq(
        t,
        "number",
    ) || str_eq(t, "range") || str_eq(t, "color") || str_eq(t, "checkbox") || str_eq(t, "radio")
        || str_eq(t, "file") || str_eq(t, "submit") || str_eq(t, "image") || str_eq(t, "reset")
        || str_eq(t, "button")
}

impl Node {
    /// The type of an input: the one that its `type` attribute names, in small
    /// letters, and `text` where it names none that exists.
    pub open spec fn input_type(self) -> Seq<char> {
        match attribute_of(self.attributes@, "type"@) {
            Some(value) => if is_input_type(ascii_lower(value)) {
                ascii_lower(value)
            } else {
                "text"@
            },
            None => "text"@,
        }
    }

    /// The type of an input.
    pub fn get_input_type(&self) -> (r: String)
        ensures
            r@ == self.input_type(),
    {
        match self.get_attribute("type") {
            Some(value) => {
                let lowered = to_ascii_lower(&chars_of(value.as_str()));
                if input_type_exists(&lowered) {
                    crate::text::string_of(&lowered)
                } else {
                    String::from_str("text")
                }
            },
            None => String::from_str("text"),
        }
    }

    /// An element is named `lowered` when that is its tag name in small letters.
    pub open spec fn named(self, lowered: Seq<char>) -> bool {
        self.kind == NodeKind::Element && ascii_lower(self.name@) == lowered
    }

    /// Whether the node is an element named `lowered`.
    pub fn is_named(&self, lowered: &str) -> (r: bool)
        ensures
            r == self.named(lowered@),
    {
        if self.kind != NodeKind::Element {
            return false;
        }
        let given = chars_of(self.name.as_str());
        let small = to_ascii_lower(&given);
        let wanted = chars_of(lowered);
        chars_eq(&small, &wanted)
    }

    /// A node of the given kind with nothing set: no attributes, not hidden,
    /// displayed as a block and visible.
    pub fn new(kind: NodeKind, name: &str, data: &str) -> (node: Node)
        ensures
            node.kind == kind,
            node.parent is None,
            node.name@ == name@,
            node.data@ == data@,
            node.attributes@.len() == 0,
            !node.hidden,
            node.display@ == "block"@,
            node.visibility@ == "visible"@,
            node.value is None,
            !node.checked,
            !node.indeterminate,
            !node.selected,
            node.control is None,
            node.accessible_name@.len() == 0,
            node.accessible_description@.len() == 0,
    {
        Node {
            kind,
            parent: None,
            name: String::from_str(name),
            data: String::from_str(data),
            attributes: Vec::new(),
            hidden: false,
            display: String::from_str("block"),
            visibility: String::from_str("visible"),
            value: None,
            checked: false,
            indeterminate: false,
            selected: false,
            control: None,
            accessible_name: String::new(),
            accessible_description: String::new(),
        }
    }

    /// An element with the tag name `name`.
    pub fn element(name: &str) -> (node: Node)
        ensures
            node.kind == NodeKind::Element,
            node.name@ == name@,
            node.attributes@.len() == 0,
            !node.hidden,
            node.display@ == "block"@,
            node.visibility@ == "visible"@,
            node.value is None,
            !node.checked,
            !node.indeterminate,
            !node.selected,
            node.control is None,
            node.accessible_name@.len() == 0,
            node.accessible_description@.len() == 0,
    {
        Node::new(NodeKind::Element, name, "")
    }

    /// A text node.
    pub fn text(data: &str) -> (node: Node)
        ensures
            node.kind == NodeKind::Text,
            node.data@ == data@,
            node.attributes@.len() == 0,
    {
        Node::new(NodeKind::Text, "#text", data)
    }

    /// A comment.
    pub fn comment(data: &str) -> (node: Node)
        ensures
            node.kind == NodeKind::Comment,
            node.data@ == data@,
            node.attributes@.len() == 0,
    {
        Node::new(NodeKind::Comment, "#comment", data)
    }

    /// The node with one more attribute, after those it has.
    pub fn attribute(self, name: &str, value: &str) -> (node: Node)
        ensures
            node.attributes@.len() == self.attributes@.len() + 1,
            node.attributes@.drop_last() == self.attributes@,
            node.attributes@.last().name@ == name@,
            node.attributes@.last().value@ == value@,
            node == (Node { attributes: node.attributes, ..self }),
    {
        let mut node = self;
        node.attributes.push(
            Attribute { name: String::from_str(name), value: String::from_str(value) },
        );
        node
    }

    /// Sets the `hidden` property.
    pub fn hidden(self, value: bool) -> (node: Node)
        ensures
            node == (Node { hidden: value, ..self }),
    {
        let mut node = self;
        node.hidden = value;
        node
    }

    /// Sets the computed `display`.
    pub fn display(self, value: &str) -> (node: Node)
        ensures
            node.display@ == value@,
            node == (Node { display: node.display, ..self }),
    {
        let mut node = self;
        node.display = String::from_str(value);
        node
    }

    /// Sets the computed `visibility`.
    pub fn visibility(self, value: &str) -> (node: Node)
        ensures
            node.visibility@ == value@,
            node == (Node { visibility: node.visibility, ..self }),
    {
        let mut node = self;
        node.visibility = String::from_str(value);
        node
    }

    /// Sets the value that a form control shows.
    pub fn value(self, value: &str) -> (node: Node)
        ensures
            node.value matches Some(text) && text@ == value@,
            node == (Node { value: node.value, ..self }),
    {
        let mut node = self;
        node.value = Some(String::from_str(value));
        node
    }

    /// Sets whether an input is checked.
    pub fn checked(self, value: bool) -> (node: Node)
        ensures
            node == (Node { checked: value, ..self }),
    {
        let mut node = self;
        node.checked = value;
        node
    }

    /// Sets whether an input is neither checked nor unchecked.
    pub fn indeterminate(self, value: bool) -> (node: Node)
        ensures
            node == (Node { indeterminate: value, ..self }),
    {
        let mut node = self;
        node.indeterminate = value;
        node
    }

    /// Sets whether an option is selected.
    pub fn selected(self, value: bool) -> (node: Node)
        ensures
            node == (Node { selected: value, ..self }),
    {
        let mut node = self;
        node.selected = value;
        node
    }

    /// Sets the form control that a label points to.
    pub fn control(self, value: NodeId) -> (node: Node)
        ensures
            node == (Node { control: Some(value), ..self }),
    {
        let mut node = self;
        node.control = Some(value);
        node
    }

    /// Sets the accessible name.
    pub fn accessible_name(self, value: &str) -> (node: Node)
        ensures
            node.accessible_name@ == value@,
            node == (Node { accessible_name: node.accessible_name, ..self }),
    {
        let mut node = self;
        node.accessible_name = String::from_str(value);
        node
    }

    /// Sets the accessible description.
    pub fn accessible_description(self, value: &str) -> (node: Node)
        ensures
            node.accessible_description@ == value@,
            node == (Node { accessible_description: node.accessible_description, ..self }),
    {
        let mut node = self;
        node.accessible_description = String::from_str(value);
        node
    }

    /// The value of the first attribute called `name`, if there is one.
    pub fn get_attribute(&self, name: &str) -> (value: Option<&String>)
        ensures
            match value {
                Some(v) => attribute_of(self.attributes@, name@) == Some(v@),
                None => attribute_of(self.attributes@, name@) is None,
            },
    {
        let mut i: usize = 0;
        assert(self.attributes@.skip(0) == self.attributes@);
        while i < self.attributes.len()
            invariant
                i <= self.attributes.len(),
                attribute_of(self.attributes@, name@) == attribute_of(
                    self.attributes@.skip(i as int),
                    name@,
                ),
            decreases self.attributes.len() - i,
        {
            if str_eq(self.attributes[i].name.as_str(), name) {
                return Some(&self.attributes[i].value);
            }
            assert(self.attributes@.skip(i as int).drop_first() == self.attributes@.skip(i + 1));
            i += 1;
        }
        None
    }

    /// Whether the node has an attribute called `name`.
    pub fn has_attribute(&self, name: &str) -> (r: bool)
        ensures
            r == attribute_of(self.attributes@, name@) is Some,
    {
        self.get_attribute(name).is_some()
    }
}

impl Document {
    /// The nodes, in document order.
    pub closed spec fn nodes(&self) -> Seq<Node> {
        self.nodes@
    }

    /// The invariant of every document.
    #[verifier::type_invariant]
    pub open spec fn wf(&self) -> bool {
        well_formed(self.nodes())
    }

    /// How many nodes the document holds.
    pub open spec fn len(&self) -> nat {
        self.nodes().len()
    }

    /// Whether `id` is a node of the document.
    pub open spec fn contains(&self, id: NodeId) -> bool {
        id < self.nodes().len()
    }

    /// Whether `id` is an element of the document.
    pub open spec fn is_element(&self, id: NodeId) -> bool {
        id < self.nodes().len() && self.nodes()[id as int].kind == NodeKind::Element
    }

    /// `n` lies strictly below `a`.
    pub open spec fn is_descendant(&self, n: NodeId, a: NodeId) -> bool {
        n != a && ancestor_or_self(self.nodes(), a as int, n as int)
    }

    pub open spec fn attribute(&self, id: NodeId, name: Seq<char>) -> Option<Seq<char>> {
        attribute_of(self.nodes()[id as int].attributes@, name)
    }

    /// A document holds no more nodes than can be counted.
    pub proof fn lemma_countable(self)
        ensures
            self.len() <= usize::MAX,
    {
        assert(self.nodes.len() == self.nodes@.len());
    }

    /// A document without nodes.
    pub fn new() -> (doc: Document)
        ensures
            doc.len() == 0,
            doc.wf(),
    {
        Document { nodes: Vec::new() }
    }

    /// A document that holds one `div` element.
    pub fn new_with_root() -> (doc: Document)
        ensures
            doc.len() == 1,
            doc.is_element(0),
            doc.nodes()[0].parent is None,
            doc.nodes()[0].name@ == "div"@,
            doc.nodes()[0].attributes@.len() == 0,
    {
        let mut doc = Document::new();
        doc.push_root(Node::element("div"));
        doc
    }

    /// How many nodes the document holds.
    pub fn node_count(&self) -> (n: usize)
        ensures
            n == self.len(),
    {
        self.nodes.len()
    }

    /// The node `id`.
    pub fn node(&self, id: NodeId) -> (node: &Node)
        requires
            self.contains(id),
        ensures
            *node == self.nodes()[id as int],
    {
        &self.nodes[id]
    }

    /// Whether `a` is `n` or one of its ancestors.
    pub fn is_ancestor_or_self(&self, a: NodeId, n: NodeId) -> (r: bool)
        requires
            self.contains(n),
        ensures
            r == ancestor_or_self(self.nodes(), a as int, n as int),
    {
        proof {
            use_type_invariant(self);
        }
        let mut cur: usize = n;
        loop
            invariant
                self.wf(),
                cur < self.nodes@.len(),
                ancestor_or_self(self.nodes(), a as int, n as int) == ancestor_or_self(
                    self.nodes(),
                    a as int,
                    cur as int,
                ),
            decreases cur,
        {
            if cur == a {
                return true;
            }
            assert(placed(self.nodes(), cur as int));
            match self.nodes[cur].parent {
                Some(p) => {
                    cur = p;
                },
                None => {
                    return false;
                },
            }
        }
    }

    /// Whether `n` lies strictly below `a`.
    pub fn is_below(&self, n: NodeId, a: NodeId) -> (r: bool)
        requires
            self.contains(n),
        ensures
            r == self.is_descendant(n, a),
    {
        n != a && self.is_ancestor_or_self(a, n)
    }

    /// Adds `node` as a root, after all nodes present.
    pub fn push_root(&mut self, node: Node) -> (id: NodeId)
        ensures
            id == old(self).len(),
            final(self).nodes() == old(self).nodes().push(
                Node { parent: None, ..node },
            ),
    {
        proof {
            use_type_invariant(&*self);
        }
        let ghost before = self.nodes@;
        let id = self.nodes.len();
        let mut node = node;
        node.parent = None;
        let mut nodes: Vec<Node> = Vec::new();
        core::mem::swap(&mut self.nodes, &mut nodes);
        nodes.push(node);
        proof {
            let after = nodes@;
            assert forall|i: int| 0 <= i < after.len() implies #[trigger] placed(after, i) by {
                if i < before.len() {
                    assert(after[i] == before[i]);
                    assert(placed(before, i));
                    if let Some(p) = before[i].parent {
                        lemma_ancestor_prefix(before, after, p as int, i - 1);
                    }
                }
            }
        }
        core::mem::swap(&mut self.nodes, &mut nodes);
        id
    }

    /// Adds `node` as the last child of `parent`. Document order allows this
    /// only where `parent` is an element and is the last node or one of its
    /// ancestors; otherwise nothing is added.
    pub fn append_child(&mut self, parent: NodeId, node: Node) -> (id: Option<NodeId>)
        ensures
            old(self).can_append(parent) ==> id == Some(old(self).len() as usize)
                && final(self).nodes() == old(self).nodes().push(
                Node { parent: Some(parent), ..node },
            ),
            !old(self).can_append(parent) ==> id is None && final(self).nodes() == old(
                self,
            ).nodes(),
    {
        proof {
            use_type_invariant(&*self);
        }
        let n = self.nodes.len();
        if parent >= n {
            return None;
        }
        if self.nodes[parent].kind != NodeKind::Element {
            return None;
        }
        if !self.is_ancestor_or_self(parent, n - 1) {
            return None;
        }
        let ghost before = self.nodes@;
        let mut node = node;
        node.parent = Some(parent);
        let mut nodes: Vec<Node> = Vec::new();
        core::mem::swap(&mut self.nodes, &mut nodes);
        nodes.push(node);
        proof {
            let after = nodes@;
            assert forall|i: int| 0 <= i < after.len() implies #[trigger] placed(after, i) by {
                if i < before.len() {
                    assert(after[i] == before[i]);
                    assert(placed(before, i));
                    if let Some(p) = before[i].parent {
                        lemma_ancestor_prefix(before, after, p as int, i - 1);
                    }
                } else {
                    lemma_ancestor_prefix(before, after, parent as int, n - 1);
                }
            }
        }
        core::mem::swap(&mut self.nodes, &mut nodes);
        Some(n)
    }

    /// `parent` is an element, and the last node or one of its ancestors.
    pub open spec fn can_append(&self, parent: NodeId) -> bool {
        self.is_element(parent) && ancestor_or_self(
            self.nodes(),
            parent as int,
            self.len() - 1,
        )
    }
}

} // verus!
