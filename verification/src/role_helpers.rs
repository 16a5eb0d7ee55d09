//! What an element is to assistive technology: whether it is accessible at
//! all, and the ARIA states that it reports.
use vstd::prelude::*;
use crate::document::{
    ancestor_or_self, attribute_of, lemma_ancestor_at_most, placed, Document, Node, NodeId,
    NodeKind,
};
use crate::number::{i64_of, parse_i64, parse_usize, usize_of};
use aria_query::AriaRoleDefinitionKey;
use crate::aria::{
    aria_element_role, aria_key_name, aria_key_named, element_role, key_name, key_named, texts, ConceptAttribute, ConceptAttributeView, RoleConcept,
    RoleConceptView,
};
use crate::selector::{parse_selector, selector_matches, Selector, SelectorView};
use crate::text::{extend_str, split, str_eq, string_of};
use crate::types::queries::ByRoleOptionsCurrent;

verus! {

/// The element hides itself and all below it: by the `hidden` property, by
/// `aria-hidden="true"`, or by not being displayed.
pub open spec fn subtree_inaccessible(node: Node) -> bool {
    node.hidden || attribute_of(node.attributes@, "aria-hidden"@) == Some("true"@)
        || node.display@ == "none"@
}

/// `n` or one of its ancestors hides its subtree.
pub open spec fn hidden_from(nodes: Seq<Node>, n: int) -> bool
    decreases n,
{
    0 <= n < nodes.len() && (subtree_inaccessible(nodes[n]) || match nodes[n].parent {
        Some(p) => p < n && hidden_from(nodes, p as int),
        None => false,
    })
}

/// The element is not visible, or it or an ancestor hides its subtree.
pub open spec fn inaccessible(nodes: Seq<Node>, n: int) -> bool {
    nodes[n].visibility@ == "hidden"@ || hidden_from(nodes, n)
}

/// An element is inaccessible wherever it or one of its ancestors hides its
/// subtree, whatever the element's own attributes and style are.
pub proof fn lemma_hidden_below(nodes: Seq<Node>, a: int, n: int)
    requires
        0 <= a,
        n < nodes.len(),
        ancestor_or_self(nodes, a, n),
        subtree_inaccessible(nodes[a]),
    ensures
        hidden_from(nodes, n),
        inaccessible(nodes, n),
    decreases n,
{
    lemma_ancestor_at_most(nodes, a, n);
    if a != n {
        lemma_hidden_below(nodes, a, nodes[n].parent->0 as int);
    }
}

/// An element that is hidden from the accessibility tree is not visible, or
/// has an ancestor or is itself an element that hides its subtree.
pub proof fn lemma_hidden_has_cause(nodes: Seq<Node>, n: int)
    requires
        0 <= n < nodes.len(),
        hidden_from(nodes, n),
    ensures
        exists|a: int| 0 <= a <= n && ancestor_or_self(nodes, a, n) && subtree_inaccessible(nodes[a]),
    decreases n,
{
    if subtree_inaccessible(nodes[n]) {
        assert(ancestor_or_self(nodes, n, n));
    } else {
        let p = nodes[n].parent->0 as int;
        lemma_hidden_has_cause(nodes, p);
        let a = choose|a: int|
            0 <= a <= p && ancestor_or_self(nodes, a, p) && subtree_inaccessible(nodes[a]);
        assert(ancestor_or_self(nodes, a, n));
    }
}

/// Whether the element hides itself and all below it.
pub fn is_subtree_inaccessible(doc: &Document, element: NodeId) -> (r: bool)
    requires
        doc.contains(element),
    ensures
        r == subtree_inaccessible(doc.nodes()[element as int]),
{
    let node = doc.node(element);
    if node.hidden {
        return true;
    }
    let aria_hidden = match node.get_attribute("aria-hidden") {
        Some(value) => str_eq(value.as_str(), "true"),
        None => false,
    };
    if aria_hidden {
        return true;
    }
    str_eq(node.display.as_str(), "none")
}

/// Whether the element is left out of the accessibility tree. This looks at
/// visibility, display, `hidden` and `aria-hidden` only.
pub fn is_inaccessible(doc: &Document, element: NodeId) -> (r: bool)
    requires
        doc.contains(element),
    ensures
        r == inaccessible(doc.nodes(), element as int),
{
    proof {
        use_type_invariant(doc);
    }
    if str_eq(doc.node(element).visibility.as_str(), "hidden") {
        return true;
    }
    let mut current: usize = element;
    loop
        invariant
            doc.wf(),
            doc.contains(current),
            doc.contains(element),
            doc.nodes()[element as int].visibility@ != "hidden"@,
            hidden_from(doc.nodes(), element as int) == hidden_from(doc.nodes(), current as int),
        decreases current,
    {
        if is_subtree_inaccessible(doc, current) {
            return true;
        }
        assert(placed(doc.nodes(), current as int));
        match doc.node(current).parent {
            Some(parent) => {
                current = parent;
            },
            None => {
                return false;
            },
        }
    }
}

/// What an attribute that is true, false or neither says.
pub open spec fn tri_state(value: Option<Seq<char>>) -> Option<bool> {
    if value == Some("true"@) {
        Some(true)
    } else if value == Some("false"@) {
        Some(false)
    } else {
        None
    }
}

fn check_boolean_attribute(node: &Node, attribute: &str) -> (r: Option<bool>)
    ensures
        r == tri_state(attribute_of(node.attributes@, attribute@)),
{
    match node.get_attribute(attribute) {
        Some(value) => {
            if str_eq(value.as_str(), "true") {
                Some(true)
            } else if str_eq(value.as_str(), "false") {
                Some(false)
            } else {
                None
            }
        },
        None => None,
    }
}

/// What `aria-selected` says where the element has it; without the attribute
/// an option element reports whether it is selected.
pub open spec fn aria_selected(node: Node) -> Option<bool> {
    match attribute_of(node.attributes@, "aria-selected"@) {
        Some(value) => tri_state(Some(value)),
        None => if node.named("option"@) {
            Some(node.selected)
        } else {
            None
        },
    }
}

/// Whether the element is selected, where it says so.
pub fn compute_aria_selected(doc: &Document, element: NodeId) -> (r: Option<bool>)
    requires
        doc.contains(element),
    ensures
        r == aria_selected(doc.nodes()[element as int]),
{
    let node = doc.node(element);
    if node.has_attribute("aria-selected") {
        check_boolean_attribute(node, "aria-selected")
    } else if node.is_named("option") {
        Some(node.selected)
    } else {
        None
    }
}

/// An element is busy where `aria-busy` is true.
pub open spec fn aria_busy(node: Node) -> bool {
    attribute_of(node.attributes@, "aria-busy"@) == Some("true"@)
}

/// Whether the element is busy.
pub fn compute_aria_busy(doc: &Document, element: NodeId) -> (r: bool)
    requires
        doc.contains(element),
    ensures
        r == aria_busy(doc.nodes()[element as int]),
{
    match doc.node(element).get_attribute("aria-busy") {
        Some(value) => str_eq(value.as_str(), "true"),
        None => false,
    }
}

/// What `aria-checked` says where the element has it; without the attribute
/// an input reports whether it is checked, and nothing where that is
/// indeterminate.
pub open spec fn aria_checked(node: Node) -> Option<bool> {
    match attribute_of(node.attributes@, "aria-checked"@) {
        Some(value) => tri_state(Some(value)),
        None => if node.named("input"@) && !node.indeterminate {
            Some(node.checked)
        } else {
            None
        },
    }
}

/// Whether the element is checked, where it says so.
pub fn compute_aria_checked(doc: &Document, element: NodeId) -> (r: Option<bool>)
    requires
        doc.contains(element),
    ensures
        r == aria_checked(doc.nodes()[element as int]),
{
    let node = doc.node(element);
    if node.has_attribute("aria-checked") {
        check_boolean_attribute(node, "aria-checked")
    } else if node.is_named("input") && !node.indeterminate {
        Some(node.checked)
    } else {
        None
    }
}

/// What `aria-pressed` says.
pub open spec fn aria_pressed(node: Node) -> Option<bool> {
    tri_state(attribute_of(node.attributes@, "aria-pressed"@))
}

/// Whether the element is pressed, where it says so.
pub fn compute_aria_pressed(doc: &Document, element: NodeId) -> (r: Option<bool>)
    requires
        doc.contains(element),
    ensures
        r == aria_pressed(doc.nodes()[element as int]),
{
    check_boolean_attribute(doc.node(element), "aria-pressed")
}

/// True or false where `aria-current` says so, else its text where it is
/// there, else false.
pub open spec fn aria_current(node: Node, current: ByRoleOptionsCurrent) -> bool {
    let value = attribute_of(node.attributes@, "aria-current"@);
    match tri_state(value) {
        Some(b) => current == ByRoleOptionsCurrent::Bool(b),
        None => match value {
            Some(text) => current matches ByRoleOptionsCurrent::String(s) && s@ == text,
            None => current == ByRoleOptionsCurrent::Bool(false),
        },
    }
}

/// What the element says of being the current one.
pub fn compute_aria_current(doc: &Document, element: NodeId) -> (r: ByRoleOptionsCurrent)
    requires
        doc.contains(element),
    ensures
        aria_current(doc.nodes()[element as int], r),
{
    let node = doc.node(element);
    match check_boolean_attribute(node, "aria-current") {
        Some(b) => ByRoleOptionsCurrent::Bool(b),
        None => match node.get_attribute("aria-current") {
            Some(text) => ByRoleOptionsCurrent::String(text.clone()),
            None => ByRoleOptionsCurrent::Bool(false),
        },
    }
}

/// What `aria-expanded` says.
pub open spec fn aria_expanded(node: Node) -> Option<bool> {
    tri_state(attribute_of(node.attributes@, "aria-expanded"@))
}

/// Whether the element is expanded, where it says so.
pub fn compute_aria_expanded(doc: &Document, element: NodeId) -> (r: Option<bool>)
    requires
        doc.contains(element),
    ensures
        r == aria_expanded(doc.nodes()[element as int]),
{
    check_boolean_attribute(doc.node(element), "aria-expanded")
}

/// The level that `h1` to `h6` imply.
pub open spec fn implied_level(node: Node) -> Option<usize> {
    if node.named("h1"@) {
        Some(1usize)
    } else if node.named("h2"@) {
        Some(2usize)
    } else if node.named("h3"@) {
        Some(3usize)
    } else if node.named("h4"@) {
        Some(4usize)
    } else if node.named("h5"@) {
        Some(5usize)
    } else if node.named("h6"@) {
        Some(6usize)
    } else {
        None
    }
}

/// `aria-level` where it holds a number, else the level that the tag implies.
pub open spec fn heading_level(node: Node) -> Option<usize> {
    match attribute_of(node.attributes@, "aria-level"@) {
        Some(text) => match usize_of(text) {
            Some(level) => Some(level),
            None => implied_level(node),
        },
        None => implied_level(node),
    }
}

/// The level of a heading.
pub fn compute_heading_level(doc: &Document, element: NodeId) -> (r: Option<usize>)
    requires
        doc.contains(element),
    ensures
        r == heading_level(doc.nodes()[element as int]),
{
    let node = doc.node(element);
    let explicit = match node.get_attribute("aria-level") {
        Some(text) => parse_usize(text.as_str()),
        None => None,
    };
    if explicit.is_some() {
        return explicit;
    }
    if node.is_named("h1") {
        Some(1)
    } else if node.is_named("h2") {
        Some(2)
    } else if node.is_named("h3") {
        Some(3)
    } else if node.is_named("h4") {
        Some(4)
    } else if node.is_named("h5") {
        Some(5)
    } else if node.is_named("h6") {
        Some(6)
    } else {
        None
    }
}

/// The whole number that an attribute holds.
pub open spec fn number_attribute(node: Node, name: Seq<char>) -> Option<i64> {
    match attribute_of(node.attributes@, name) {
        Some(text) => i64_of(text),
        None => None,
    }
}

fn read_number(node: &Node, name: &str) -> (r: Option<i64>)
    ensures
        r == number_attribute(*node, name@),
{
    match node.get_attribute(name) {
        Some(text) => parse_i64(text.as_str()),
        None => None,
    }
}

/// The whole number in `aria-valuenow`.
pub fn compute_aria_value_now(doc: &Document, element: NodeId) -> (r: Option<i64>)
    requires
        doc.contains(element),
    ensures
        r == number_attribute(doc.nodes()[element as int], "aria-valuenow"@),
{
    read_number(doc.node(element), "aria-valuenow")
}

/// The whole number in `aria-valuemax`.
pub fn compute_aria_value_max(doc: &Document, element: NodeId) -> (r: Option<i64>)
    requires
        doc.contains(element),
    ensures
        r == number_attribute(doc.nodes()[element as int], "aria-valuemax"@),
{
    read_number(doc.node(element), "aria-valuemax")
}

/// The whole number in `aria-valuemin`.
pub fn compute_aria_value_min(doc: &Document, element: NodeId) -> (r: Option<i64>)
    requires
        doc.contains(element),
    ensures
        r == number_attribute(doc.nodes()[element as int], "aria-valuemin"@),
{
    read_number(doc.node(element), "aria-valuemin")
}

/// The text in `aria-valuetext`.
pub fn compute_aria_value_text(doc: &Document, element: NodeId) -> (r: Option<String>)
    requires
        doc.contains(element),
    ensures
        crate::matches::option_view(r) == attribute_of(
            doc.nodes()[element as int].attributes@,
            "aria-valuetext"@,
        ),
{
    match doc.node(element).get_attribute("aria-valuetext") {
        Some(text) => Some(text.clone()),
        None => None,
    }
}

// ---------------------------------------------------------------------------
// Implicit roles
// ---------------------------------------------------------------------------
/// The selector for one attribute of a concept: `[name="value"]` where a value
/// is given, else `:not([name])` where the attribute must be absent, else
/// `[name]:not([name=""])` where it must not be empty, else `[name]`.
pub open spec fn attribute_selector(attribute: ConceptAttributeView) -> Seq<char> {
    match attribute.value {
        Some(value) => "["@ + attribute.name + "=\""@ + value + "\"]"@,
        None => if attribute.constraints.contains("undefined"@) {
            ":not(["@ + attribute.name + "])"@
        } else if attribute.constraints.contains("set"@) {
            "["@ + attribute.name + "]:not(["@ + attribute.name + "=\"\"])"@
        } else {
            "["@ + attribute.name + "]"@
        },
    }
}

/// The selectors of the attributes, one after another.
pub open spec fn attribute_selectors(attributes: Seq<ConceptAttributeView>) -> Seq<char>
    decreases attributes.len(),
{
    if attributes.len() == 0 {
        Seq::empty()
    } else {
        attribute_selectors(attributes.drop_last()) + attribute_selector(attributes.last())
    }
}

/// The selector for the elements of a concept: the tag name, then the selector
/// of each attribute.
pub open spec fn element_selector(concept: RoleConceptView) -> Seq<char> {
    concept.name + attribute_selectors(concept.attributes)
}

fn contains_text(list: &Vec<String>, wanted: &str) -> (r: bool)
    ensures
        r == texts(list@).contains(wanted@),
{
    let mut i: usize = 0;
    while i < list.len()
        invariant
            i <= list.len(),
            forall|k: int| 0 <= k < i ==> texts(list@)[k] != wanted@,
        decreases list.len() - i,
    {
        if str_eq(list[i].as_str(), wanted) {
            assert(texts(list@)[i as int] == wanted@);
            return true;
        }
        i += 1;
    }
    false
}

fn push_attribute_selector(out: &mut Vec<char>, attribute: &ConceptAttribute)
    ensures
        final(out)@ == old(out)@ + attribute_selector(attribute@),
{
    match &attribute.value {
        Some(value) => {
            extend_str(out, "[");
            extend_str(out, attribute.name.as_str());
            extend_str(out, "=\"");
            extend_str(out, value.as_str());
            extend_str(out, "\"]");
            assert(out@ == old(out)@ + ("["@ + attribute.name@ + "=\""@ + value@ + "\"]"@));
        },
        None => {
            if contains_text(&attribute.constraints, "undefined") {
                extend_str(out, ":not([");
                extend_str(out, attribute.name.as_str());
                extend_str(out, "])");
                assert(out@ == old(out)@ + (":not(["@ + attribute.name@ + "])"@));
            } else if contains_text(&attribute.constraints, "set") {
                extend_str(out, "[");
                extend_str(out, attribute.name.as_str());
                extend_str(out, "]:not([");
                extend_str(out, attribute.name.as_str());
                extend_str(out, "=\"\"])");
                assert(out@ == old(out)@ + ("["@ + attribute.name@ + "]:not(["@ + attribute.name@
                    + "=\"\"])"@));
            } else {
                extend_str(out, "[");
                extend_str(out, attribute.name.as_str());
                extend_str(out, "]");
                assert(out@ == old(out)@ + ("["@ + attribute.name@ + "]"@));
            }
        },
    }
}

/// Writes the selector for the elements of a concept.
pub fn make_element_selector(element: &RoleConcept) -> (selector: String)
    ensures
        selector@ == element_selector(element@),
{
    let mut out: Vec<char> = Vec::new();
    extend_str(&mut out, element.name.as_str());
    let mut i: usize = 0;
    assert(element@.attributes.take(0) == Seq::<ConceptAttributeView>::empty());
    while i < element.attributes.len()
        invariant
            i <= element.attributes.len(),
            out@ == element.name@ + attribute_selectors(element@.attributes.take(i as int)),
        decreases element.attributes.len() - i,
    {
        proof {
            let next = element@.attributes.take(i + 1);
            assert(next.drop_last() == element@.attributes.take(i as int));
            assert(next.last() == element.attributes@[i as int]@);
        }
        push_attribute_selector(&mut out, &element.attributes[i]);
        i += 1;
    }
    assert(element@.attributes.take(element.attributes.len() as int) == element@.attributes);
    string_of(&out)
}

/// How many attributes a concept constrains.
pub fn get_selector_specificity(element: &RoleConcept) -> (specificity: usize)
    ensures
        specificity == element@.attributes.len(),
{
    element.attributes.len()
}

/// One row of the table from elements to the roles that they imply.
pub struct ElementRole {
    /// The selector of the row's elements; `None` where it cannot be read, and
    /// the row then matches nothing.
    pub selector: Option<Selector>,
    /// The row is for text inputs: an input of another type does not match.
    pub text_input: bool,
    pub roles: Vec<AriaRoleDefinitionKey>,
    /// How many attributes the row's concept constrains.
    pub specificity: usize,
}

/// A row of the role table, as its view.
pub struct ElementRoleView {
    pub selector: Option<SelectorView>,
    pub text_input: bool,
    pub roles: Seq<AriaRoleDefinitionKey>,
    pub specificity: nat,
}

impl View for ElementRole {
    type V = ElementRoleView;

    open spec fn view(&self) -> ElementRoleView {
        ElementRoleView {
            selector: match self.selector {
                Some(selector) => Some(selector@),
                None => None,
            },
            text_input: self.text_input,
            roles: self.roles@,
            specificity: self.specificity as nat,
        }
    }
}

/// The rows, as their views.
pub open spec fn rows_view(rows: Seq<ElementRole>) -> Seq<ElementRoleView> {
    rows.map_values(|row: ElementRole| row@)
}

/// The attribute asks for `type="text"`.
pub open spec fn is_type_text(attribute: ConceptAttributeView) -> bool {
    attribute.name == "type"@ && attribute.value == Some("text"@)
}

/// The position of the first attribute at or after `from` that asks for
/// `type="text"`.
pub open spec fn first_type_text(attributes: Seq<ConceptAttributeView>, from: int) -> Option<int>
    decreases attributes.len() - from,
{
    if from < 0 || from >= attributes.len() {
        None
    } else if is_type_text(attributes[from]) {
        Some(from)
    } else {
        first_type_text(attributes, from + 1)
    }
}

/// The row for an entry of the table. A selector cannot say that an input has
/// the type text, which is also the type of an input that names none: so a
/// constraint `type="text"` is left out of the selector and tested apart.
pub open spec fn element_role_of(concept: RoleConceptView, roles: Seq<AriaRoleDefinitionKey>) -> ElementRoleView {
    let found = first_type_text(concept.attributes, 0);
    let attributes = match found {
        Some(i) => concept.attributes.remove(i),
        None => concept.attributes,
    };
    ElementRoleView {
        selector: parse_selector(element_selector(RoleConceptView { name: concept.name, attributes })),
        text_input: found is Some,
        roles,
        specificity: concept.attributes.len(),
    }
}

/// The rows from position `from` of the table on.
pub open spec fn role_rows(from: nat) -> Seq<ElementRoleView>
    decreases usize::MAX - from,
{
    if from >= usize::MAX {
        Seq::empty()
    } else {
        match aria_element_role(from) {
            Some((concept, roles)) => seq![element_role_of(concept, roles)] + role_rows(from + 1),
            None => Seq::empty(),
        }
    }
}

/// The table from elements to roles, in the order in which it was written.
pub open spec fn role_table() -> Seq<ElementRoleView> {
    role_rows(0)
}

fn find_type_text(attributes: &Vec<ConceptAttribute>) -> (r: Option<usize>)
    ensures
        match r {
            Some(i) => first_type_text(attributes@.map_values(|a: ConceptAttribute| a@), 0) == Some(
                i as int,
            ) && i < attributes.len(),
            None => first_type_text(attributes@.map_values(|a: ConceptAttribute| a@), 0) is None,
        },
{
    let ghost views = attributes@.map_values(|a: ConceptAttribute| a@);
    let mut i: usize = 0;
    while i < attributes.len()
        invariant
            i <= attributes.len(),
            views == attributes@.map_values(|a: ConceptAttribute| a@),
            first_type_text(views, 0) == first_type_text(views, i as int),
        decreases attributes.len() - i,
    {
        let is_text = match &attributes[i].value {
            Some(value) => str_eq(attributes[i].name.as_str(), "type") && str_eq(
                value.as_str(),
                "text",
            ),
            None => false,
        };
        assert(is_text == is_type_text(views[i as int]));
        if is_text {
            return Some(i);
        }
        i += 1;
    }
    None
}

fn make_element_role(concept: RoleConcept, roles: Vec<AriaRoleDefinitionKey>) -> (row: ElementRole)
    ensures
        row@ == element_role_of(concept@, roles@),
{
    let specificity = get_selector_specificity(&concept);
    let found = find_type_text(&concept.attributes);
    let mut stripped = concept;
    let ghost before = stripped@.attributes;
    match found {
        Some(i) => {
            stripped.attributes.remove(i);
            assert(stripped@.attributes == before.remove(i as int));
        },
        None => {},
    }
    let text = make_element_selector(&stripped);
    ElementRole {
        selector: Selector::parse(text.as_str()),
        text_input: found.is_some(),
        roles,
        specificity,
    }
}

/// Builds the table from elements to roles.
pub fn element_role_list() -> (table: Vec<ElementRole>)
    ensures
        rows_view(table@) == role_table(),
{
    let mut table: Vec<ElementRole> = Vec::new();
    let mut index: usize = 0;
    while index < usize::MAX
        invariant
            role_table() == rows_view(table@) + role_rows(index as nat),
        decreases usize::MAX - index,
    {
        match element_role(index) {
            Some((concept, roles)) => {
                let row = make_element_role(concept, roles);
                let ghost before = table@;
                table.push(row);
                assert(rows_view(table@) == rows_view(before) + seq![row@]);
                assert(rows_view(before) + (seq![row@] + role_rows((index + 1) as nat))
                    == rows_view(table@) + role_rows((index + 1) as nat));
                index += 1;
            },
            None => {
                assert(rows_view(table@) + Seq::<ElementRoleView>::empty() == rows_view(table@));
                return table;
            },
        }
    }
    assert(rows_view(table@) + Seq::<ElementRoleView>::empty() == rows_view(table@));
    table
}

/// Whether an element is one of a row's.
pub open spec fn role_matches(row: ElementRoleView, node: Node) -> bool {
    !(row.text_input && node.named("input"@) && node.input_type() != "text"@) && match row.selector {
        Some(selector) => selector_matches(node, selector),
        None => false,
    }
}

/// Among the first `k` rows, the position of the one that decides for an
/// element: of the rows that match it, the one with the most attributes
/// constrained, and the earliest of those.
pub open spec fn best_row(rows: Seq<ElementRoleView>, node: Node, k: int) -> Option<int>
    decreases k,
{
    if k <= 0 {
        None
    } else {
        let before = best_row(rows, node, k - 1);
        if role_matches(rows[k - 1], node) && (before is None || rows[before->0].specificity
            < rows[k - 1].specificity) {
            Some(k - 1)
        } else {
            before
        }
    }
}

/// The roles that an element implies by the rows given.
pub open spec fn implicit_roles_in(rows: Seq<ElementRoleView>, node: Node) -> Seq<
    AriaRoleDefinitionKey,
> {
    match best_row(rows, node, rows.len() as int) {
        Some(b) => rows[b].roles,
        None => Seq::empty(),
    }
}

/// The row that decides is a row that matches; no matching row constrains more
/// attributes, and none that constrains as many stands before it. And where no
/// row decides, no row matches.
pub proof fn lemma_best_row(rows: Seq<ElementRoleView>, node: Node, k: int)
    requires
        0 <= k <= rows.len(),
    ensures
        match best_row(rows, node, k) {
            Some(b) => 0 <= b < k && role_matches(rows[b], node) && forall|j: int|
                0 <= j < k && role_matches(#[trigger] rows[j], node) ==> rows[j].specificity
                    < rows[b].specificity || (rows[j].specificity == rows[b].specificity && b
                    <= j),
            None => forall|j: int| 0 <= j < k ==> !role_matches(#[trigger] rows[j], node),
        },
    decreases k,
{
    if k > 0 {
        lemma_best_row(rows, node, k - 1);
    }
}

fn row_matches(row: &ElementRole, node: &Node) -> (r: bool)
    ensures
        r == role_matches(row@, *node),
{
    if row.text_input && node.is_named("input") && !str_eq(node.get_input_type().as_str(), "text") {
        return false;
    }
    match &row.selector {
        Some(selector) => selector.matches(node),
        None => false,
    }
}

/// The roles that an element implies by the rows given.
pub fn implicit_roles_by(table: &Vec<ElementRole>, node: &Node) -> (roles: Vec<AriaRoleDefinitionKey>)
    ensures
        roles@ == implicit_roles_in(rows_view(table@), *node),
{
    let mut best: Option<usize> = None;
    let mut k: usize = 0;
    while k < table.len()
        invariant
            k <= table.len(),
            match best {
                Some(b) => best_row(rows_view(table@), *node, k as int) == Some(b as int) && b < k,
                None => best_row(rows_view(table@), *node, k as int) is None,
            },
        decreases table.len() - k,
    {
        assert(rows_view(table@)[k as int] == table@[k as int]@);
        if row_matches(&table[k], node) {
            let better = match best {
                Some(b) => {
                    assert(rows_view(table@)[b as int] == table@[b as int]@);
                    table[b].specificity < table[k].specificity
                },
                None => true,
            };
            if better {
                best = Some(k);
            }
        }
        k += 1;
    }
    let mut roles: Vec<AriaRoleDefinitionKey> = Vec::new();
    match best {
        Some(b) => {
            assert(rows_view(table@)[b as int] == table@[b as int]@);
            let mut i: usize = 0;
            while i < table[b as usize].roles.len()
                invariant
                    b < table.len(),
                    i <= table[b as int].roles.len(),
                    roles@ == table[b as int].roles@.take(i as int),
                decreases table[b as int].roles.len() - i,
            {
                roles.push(table[b].roles[i]);
                i += 1;
            }
            assert(table[b as int].roles@.take(table[b as int].roles.len() as int)
                == table[b as int].roles@);
        },
        None => {},
    }
    roles
}

/// The roles that an element has where it names none: those of the row of the
/// role table that decides for it, none where no row matches.
pub fn get_implicit_aria_roles(doc: &Document, element: NodeId) -> (roles: Vec<AriaRoleDefinitionKey>)
    requires
        doc.contains(element),
    ensures
        roles@ == implicit_roles_in(role_table(), doc.nodes()[element as int]),
{
    let table = element_role_list();
    implicit_roles_by(&table, doc.node(element))
}

// ---------------------------------------------------------------------------
// The roles of a subtree
// ---------------------------------------------------------------------------
/// The options of `get_roles`.
pub struct GetRolesOptions {
    /// Whether elements outside the accessibility tree are listed too.
    pub hidden: Option<bool>,
}

impl Default for GetRolesOptions {
    /// Nothing set: only accessible elements are listed.
    fn default() -> (r: Self)
        ensures
            r == (GetRolesOptions { hidden: None }),
    {
        GetRolesOptions { hidden: None }
    }
}

/// The options of `pretty_roles`.
pub struct PrettyRolesOptions {
    /// Whether elements outside the accessibility tree are listed too.
    pub hidden: Option<bool>,
    /// Whether the accessible description is printed beside the name.
    pub include_description: Option<bool>,
}

impl Default for PrettyRolesOptions {
    /// Nothing set: only accessible elements are listed, without their
    /// descriptions.
    fn default() -> (r: Self)
        ensures
            r == (PrettyRolesOptions { hidden: None, include_description: None }),
    {
        PrettyRolesOptions { hidden: None, include_description: None }
    }
}

/// A role and the elements that have it, in document order.
pub struct RoleElements {
    pub role: AriaRoleDefinitionKey,
    pub elements: Vec<NodeId>,
}

/// A role and its elements, as a view.
pub struct RoleElementsView {
    pub role: AriaRoleDefinitionKey,
    pub elements: Seq<NodeId>,
}

impl View for RoleElements {
    type V = RoleElementsView;

    open spec fn view(&self) -> RoleElementsView {
        RoleElementsView { role: self.role, elements: self.elements@ }
    }
}

/// The groups, as their views.
pub open spec fn groups_view(groups: Seq<RoleElements>) -> Seq<RoleElementsView> {
    groups.map_values(|group: RoleElements| group@)
}

/// The first of the pieces from `from` on that is the name of a role.
pub open spec fn first_role_named(pieces: Seq<Seq<char>>, from: int) -> Option<
    AriaRoleDefinitionKey,
>
    decreases pieces.len() - from,
{
    if from < 0 || from >= pieces.len() {
        None
    } else {
        match aria_key_named(pieces[from]) {
            Some(key) => Some(key),
            None => first_role_named(pieces, from + 1),
        }
    }
}

/// The roles that an element is listed under: the first role that its `role`
/// attribute names between its spaces, where it has that attribute, else the
/// roles that it implies.
pub open spec fn listed_roles(rows: Seq<ElementRoleView>, node: Node) -> Seq<AriaRoleDefinitionKey> {
    match attribute_of(node.attributes@, "role"@) {
        Some(value) => match first_role_named(split(value, false), 0) {
            Some(key) => seq![key],
            None => Seq::empty(),
        },
        None => implicit_roles_in(rows, node),
    }
}

/// The position of the group for the role of that name among the first `k`.
pub open spec fn group_of(groups: Seq<RoleElementsView>, name: Seq<char>, k: int) -> Option<int>
    decreases k,
{
    if k <= 0 {
        None
    } else {
        match group_of(groups, name, k - 1) {
            Some(found) => Some(found),
            None => if aria_key_name(groups[k - 1].role) == name {
                Some(k - 1)
            } else {
                None
            },
        }
    }
}

/// The groups with `element` added under `role`: to the first group of a role
/// of that name, or to a new group at the end.
pub open spec fn with_element(
    groups: Seq<RoleElementsView>,
    role: AriaRoleDefinitionKey,
    element: NodeId,
) -> Seq<RoleElementsView> {
    match group_of(groups, aria_key_name(role), groups.len() as int) {
        Some(i) => groups.update(
            i,
            RoleElementsView { role: groups[i].role, elements: groups[i].elements.push(element) },
        ),
        None => groups.push(RoleElementsView { role, elements: seq![element] }),
    }
}

/// The groups with `element` added under the first `k` of `roles`.
pub open spec fn with_roles(
    groups: Seq<RoleElementsView>,
    roles: Seq<AriaRoleDefinitionKey>,
    element: NodeId,
    k: int,
) -> Seq<RoleElementsView>
    decreases k,
{
    if k <= 0 {
        groups
    } else {
        with_element(with_roles(groups, roles, element, k - 1), roles[k - 1], element)
    }
}

/// Whether the node at `e` is listed: an element, `container` or below it, and
/// accessible unless hidden ones are asked for.
pub open spec fn is_listed(nodes: Seq<Node>, container: NodeId, hidden: bool, e: int) -> bool {
    nodes[e].kind == NodeKind::Element && ancestor_or_self(nodes, container as int, e) && (hidden
        || !inaccessible(nodes, e))
}

/// The roles of the first `k` nodes, each with the elements listed under it.
pub open spec fn roles_in(
    nodes: Seq<Node>,
    rows: Seq<ElementRoleView>,
    container: NodeId,
    hidden: bool,
    k: int,
) -> Seq<RoleElementsView>
    decreases k,
{
    if k <= 0 {
        Seq::empty()
    } else {
        let before = roles_in(nodes, rows, container, hidden, k - 1);
        if is_listed(nodes, container, hidden, k - 1) {
            let roles = listed_roles(rows, nodes[k - 1]);
            with_roles(before, roles, (k - 1) as NodeId, roles.len() as int)
        } else {
            before
        }
    }
}

fn find_group(groups: &Vec<RoleElements>, name: &str) -> (r: Option<usize>)
    ensures
        match r {
            Some(i) => group_of(groups_view(groups@), name@, groups.len() as int) == Some(
                i as int,
            ) && i < groups.len(),
            None => group_of(groups_view(groups@), name@, groups.len() as int) is None,
        },
{
    let mut k: usize = 0;
    while k < groups.len()
        invariant
            k <= groups.len(),
            group_of(groups_view(groups@), name@, k as int) is None,
        decreases groups.len() - k,
    {
        assert(groups_view(groups@)[k as int] == groups@[k as int]@);
        if str_eq(key_name(groups[k].role).as_str(), name) {
            proof {
                lemma_group_found(groups_view(groups@), name@, k as int, groups.len() as int);
            }
            return Some(k);
        }
        k += 1;
    }
    None
}

proof fn lemma_group_found(groups: Seq<RoleElementsView>, name: Seq<char>, i: int, k: int)
    requires
        0 <= i < k,
        group_of(groups, name, i) is None,
        aria_key_name(groups[i].role) == name,
    ensures
        group_of(groups, name, k) == Some(i),
    decreases k,
{
    if i < k - 1 {
        lemma_group_found(groups, name, i, k - 1);
    }
}

fn add_element(groups: &mut Vec<RoleElements>, role: AriaRoleDefinitionKey, element: NodeId)
    ensures
        groups_view(final(groups)@) == with_element(groups_view(old(groups)@), role, element),
{
    let name = key_name(role);
    match find_group(groups, name.as_str()) {
        Some(i) => {
            let ghost before = groups@;
            let mut group = groups.remove(i);
            group.elements.push(element);
            groups.insert(i, group);
            assert(groups_view(groups@) =~= with_element(groups_view(before), role, element));
        },
        None => {
            let ghost before = groups@;
            let mut elements: Vec<NodeId> = Vec::new();
            elements.push(element);
            groups.push(RoleElements { role, elements });
            assert(groups_view(groups@) =~= with_element(groups_view(before), role, element));
        },
    }
}

fn listed_roles_of(table: &Vec<ElementRole>, node: &Node) -> (roles: Vec<AriaRoleDefinitionKey>)
    ensures
        roles@ == listed_roles(rows_view(table@), *node),
{
    match node.get_attribute("role") {
        Some(value) => {
            let chars = crate::text::chars_of(value.as_str());
            let pieces = crate::text::split_chars(&chars, false);
            let mut roles: Vec<AriaRoleDefinitionKey> = Vec::new();
            let mut k: usize = 0;
            while k < pieces.len()
                invariant
                    k <= pieces.len(),
                    roles@.len() == 0,
                    attribute_of(node.attributes@, "role"@) == Some(value@),
                    crate::text::views(pieces@) == split(value@, false),
                    first_role_named(split(value@, false), 0) == first_role_named(
                        split(value@, false),
                        k as int,
                    ),
                decreases pieces.len() - k,
            {
                assert(crate::text::views(pieces@)[k as int] == pieces@[k as int]@);
                match key_named(string_of(&pieces[k]).as_str()) {
                    Some(key) => {
                        roles.push(key);
                        assert(roles@ == seq![key]);
                        return roles;
                    },
                    None => {},
                }
                k += 1;
            }
            roles
        },
        None => implicit_roles_by(table, node),
    }
}

/// The roles of the elements in and below `container`, each with the elements
/// that have it. The roles stand in the order in which they are first met in
/// the document, the elements of a role in document order.
pub fn get_roles(doc: &Document, container: NodeId, options: GetRolesOptions) -> (groups: Vec<
    RoleElements,
>)
    requires
        doc.contains(container),
    ensures
        groups_view(groups@) == roles_in(
            doc.nodes(),
            role_table(),
            container,
            options.hidden.unwrap_or(false),
            doc.len() as int,
        ),
{
    let hidden = match options.hidden {
        Some(hidden) => hidden,
        None => false,
    };
    let table = element_role_list();
    let mut groups: Vec<RoleElements> = Vec::new();
    let count = doc.node_count();
    let mut e: usize = 0;
    assert(groups_view(groups@) == Seq::<RoleElementsView>::empty());
    while e < count
        invariant
            e <= count,
            count == doc.len(),
            doc.contains(container),
            rows_view(table@) == role_table(),
            groups_view(groups@) == roles_in(doc.nodes(), role_table(), container, hidden, e as int),
        decreases count - e,
    {
        let node = doc.node(e);
        if node.kind == NodeKind::Element && doc.is_ancestor_or_self(container, e) && (hidden
            || !is_inaccessible(doc, e)) {
            let roles = listed_roles_of(&table, node);
            let ghost start = groups_view(groups@);
            let mut k: usize = 0;
            while k < roles.len()
                invariant
                    k <= roles.len(),
                    groups_view(groups@) == with_roles(start, roles@, e, k as int),
                decreases roles.len() - k,
            {
                add_element(&mut groups, roles[k], e);
                k += 1;
            }
        }
        e += 1;
    }
    groups
}

/// One element of a role: its accessible name, its description where that is
/// asked for, and the element itself without what is below it.
pub open spec fn pretty_element(node: Node, include_description: bool) -> Seq<char> {
    "Name \""@ + node.accessible_name@ + "\":\n"@ + (if include_description {
        "Description \""@ + node.accessible_description@ + "\":"@
    } else {
        Seq::<char>::empty()
    }) + crate::pretty_dom::shallow_text(node)
}

/// The first `k` elements of a role, each as `pretty_element` shows it.
pub open spec fn pretty_elements(
    nodes: Seq<Node>,
    elements: Seq<NodeId>,
    include_description: bool,
    k: int,
) -> Seq<Seq<char>>
    decreases k,
{
    if k <= 0 {
        Seq::empty()
    } else {
        pretty_elements(nodes, elements, include_description, k - 1).push(
            pretty_element(nodes[elements[k - 1] as int], include_description),
        )
    }
}

/// A bar of 50 dashes.
pub open spec fn delimiter_bar() -> Seq<char> {
    Seq::new(50, |i: int| '-')
}

/// One role: its name, its elements with an empty line between each two, and
/// a bar of 50 dashes.
pub open spec fn pretty_group(nodes: Seq<Node>, group: RoleElementsView, include_description: bool) -> Seq<
    char,
> {
    aria_key_name(group.role) + ":\n\n"@ + crate::text::join(
        pretty_elements(nodes, group.elements, include_description, group.elements.len() as int),
        "\n\n"@,
    ) + "\n\n"@ + delimiter_bar()
}

/// The first `k` roles other than generic, each as `pretty_group` shows it.
pub open spec fn pretty_groups(
    nodes: Seq<Node>,
    groups: Seq<RoleElementsView>,
    include_description: bool,
    k: int,
) -> Seq<Seq<char>>
    decreases k,
{
    if k <= 0 {
        Seq::empty()
    } else if aria_key_name(groups[k - 1].role) == "generic"@ {
        pretty_groups(nodes, groups, include_description, k - 1)
    } else {
        pretty_groups(nodes, groups, include_description, k - 1).push(
            pretty_group(nodes, groups[k - 1], include_description),
        )
    }
}

/// Every element of every group is an element of the document.
pub open spec fn groups_in(nodes: Seq<Node>, groups: Seq<RoleElementsView>) -> bool {
    forall|g: int, i: int|
        0 <= g < groups.len() && 0 <= i < groups[g].elements.len() ==> (
        #[trigger] groups[g].elements[i]) < nodes.len() && nodes[groups[g].elements[i] as int].kind
            == NodeKind::Element
}

fn pretty_one(doc: &Document, element: NodeId, include_description: bool) -> (r: Vec<char>)
    requires
        doc.is_element(element),
    ensures
        r@ == pretty_element(doc.nodes()[element as int], include_description),
{
    let node = doc.node(element);
    let mut out: Vec<char> = Vec::new();
    extend_str(&mut out, "Name \"");
    extend_str(&mut out, node.accessible_name.as_str());
    extend_str(&mut out, "\":\n");
    let ghost start = out@;
    if include_description {
        extend_str(&mut out, "Description \"");
        extend_str(&mut out, node.accessible_description.as_str());
        extend_str(&mut out, "\":");
        assert(out@ == start + ("Description \""@ + node.accessible_description@ + "\":"@));
    } else {
        assert(out@ == start + Seq::<char>::empty());
    }
    extend_str(&mut out, crate::pretty_dom::pretty_shallow(doc, element).as_str());
    out
}

/// Prints the roles that `get_roles` lists, without the role generic: for
/// each role its name and its elements.
pub fn pretty_roles_of(doc: &Document, groups: &Vec<RoleElements>, options: &PrettyRolesOptions) -> (r:
    String)
    requires
        groups_in(doc.nodes(), groups_view(groups@)),
    ensures
        r@ == crate::text::join(
            pretty_groups(
                doc.nodes(),
                groups_view(groups@),
                options.include_description.unwrap_or(false),
                groups.len() as int,
            ),
            "\n"@,
        ),
{
    let include_description = match options.include_description {
        Some(wanted) => wanted,
        None => false,
    };
    let blank = crate::text::chars_of("\n\n");
    let mut printed: Vec<Vec<char>> = Vec::new();
    let mut g: usize = 0;
    assert(crate::text::views(printed@) == Seq::<Seq<char>>::empty());
    while g < groups.len()
        invariant
            g <= groups.len(),
            blank@ == "\n\n"@,
            groups_in(doc.nodes(), groups_view(groups@)),
            include_description == options.include_description.unwrap_or(false),
            crate::text::views(printed@) == pretty_groups(
                doc.nodes(),
                groups_view(groups@),
                include_description,
                g as int,
            ),
        decreases groups.len() - g,
    {
        let group = &groups[g];
        assert(groups_view(groups@)[g as int] == group@);
        let name = key_name(group.role);
        if !str_eq(name.as_str(), "generic") {
            let mut elements: Vec<Vec<char>> = Vec::new();
            let mut i: usize = 0;
            assert(crate::text::views(elements@) == Seq::<Seq<char>>::empty());
            while i < group.elements.len()
                invariant
                    i <= group.elements.len(),
                    g < groups.len(),
                    group@ == groups_view(groups@)[g as int],
                    groups_in(doc.nodes(), groups_view(groups@)),
                    crate::text::views(elements@) == pretty_elements(
                        doc.nodes(),
                        group.elements@,
                        include_description,
                        i as int,
                    ),
                decreases group.elements.len() - i,
            {
                assert(groups_view(groups@)[g as int].elements[i as int] == group.elements@[i as int]);
                let one = pretty_one(doc, group.elements[i], include_description);
                let ghost before = elements@;
                elements.push(one);
                assert(crate::text::views(elements@) == crate::text::views(before).push(one@));
                i += 1;
            }
            let mut out: Vec<char> = Vec::new();
            extend_str(&mut out, name.as_str());
            extend_str(&mut out, ":\n\n");
            crate::text::extend_chars(&mut out, &crate::text::join_chars(&elements, &blank));
            extend_str(&mut out, "\n\n");
            let ghost start = out@;
            let mut d: usize = 0;
            while d < 50
                invariant
                    d <= 50,
                    out@ == start + Seq::new(d as nat, |i: int| '-'),
                decreases 50 - d,
            {
                out.push('-');
                d += 1;
            }
            let ghost before = printed@;
            printed.push(out);
            assert(crate::text::views(printed@) == crate::text::views(before).push(out@));
        }
        g += 1;
    }
    let line = crate::text::chars_of("\n");
    string_of(&crate::text::join_chars(&printed, &line))
}

proof fn lemma_group_position(groups: Seq<RoleElementsView>, name: Seq<char>, k: int)
    requires
        0 <= k <= groups.len(),
    ensures
        group_of(groups, name, k) matches Some(i) ==> 0 <= i < k,
    decreases k,
{
    if k > 0 {
        lemma_group_position(groups, name, k - 1);
    }
}

proof fn lemma_with_roles_in(
    nodes: Seq<Node>,
    groups: Seq<RoleElementsView>,
    roles: Seq<AriaRoleDefinitionKey>,
    element: NodeId,
    k: int,
)
    requires
        groups_in(nodes, groups),
        element < nodes.len(),
        nodes[element as int].kind == NodeKind::Element,
        0 <= k <= roles.len(),
    ensures
        groups_in(nodes, with_roles(groups, roles, element, k)),
    decreases k,
{
    if k > 0 {
        lemma_with_roles_in(nodes, groups, roles, element, k - 1);
        let before = with_roles(groups, roles, element, k - 1);
        let after = with_element(before, roles[k - 1], element);
        lemma_group_position(before, aria_key_name(roles[k - 1]), before.len() as int);
        assert forall|g: int, i: int|
            0 <= g < after.len() && 0 <= i < after[g].elements.len() implies (
        #[trigger] after[g].elements[i]) < nodes.len() && nodes[after[g].elements[i] as int].kind
            == NodeKind::Element by {
            match group_of(before, aria_key_name(roles[k - 1]), before.len() as int) {
                Some(at) => {
                    if g == at {
                        if i < before[g].elements.len() {
                            assert(after[g].elements[i] == before[g].elements[i]);
                        }
                    } else {
                        assert(after[g].elements[i] == before[g].elements[i]);
                    }
                },
                None => {
                    if g < before.len() {
                        assert(after[g].elements[i] == before[g].elements[i]);
                    }
                },
            }
        }
    }
}

/// Every element that `roles_in` lists is an element of the document.
pub proof fn lemma_roles_in_document(
    nodes: Seq<Node>,
    rows: Seq<ElementRoleView>,
    container: NodeId,
    hidden: bool,
    k: int,
)
    requires
        0 <= k <= nodes.len(),
        nodes.len() <= usize::MAX,
    ensures
        groups_in(nodes, roles_in(nodes, rows, container, hidden, k)),
    decreases k,
{
    if k > 0 {
        lemma_roles_in_document(nodes, rows, container, hidden, k - 1);
        if is_listed(nodes, container, hidden, k - 1) {
            let roles = listed_roles(rows, nodes[k - 1]);
            lemma_with_roles_in(
                nodes,
                roles_in(nodes, rows, container, hidden, k - 1),
                roles,
                (k - 1) as NodeId,
                roles.len() as int,
            );
        }
    }
}

/// The roles of the elements in and below `dom`, printed.
pub fn pretty_roles(doc: &Document, dom: NodeId, options: PrettyRolesOptions) -> (r: String)
    requires
        doc.contains(dom),
    ensures
        r@ == crate::text::join(
            pretty_groups(
                doc.nodes(),
                roles_in(
                    doc.nodes(),
                    role_table(),
                    dom,
                    options.hidden.unwrap_or(false),
                    doc.len() as int,
                ),
                options.include_description.unwrap_or(false),
                roles_in(
                    doc.nodes(),
                    role_table(),
                    dom,
                    options.hidden.unwrap_or(false),
                    doc.len() as int,
                ).len() as int,
            ),
            "\n"@,
        ),
{
    let groups = get_roles(doc, dom, GetRolesOptions { hidden: options.hidden });
    proof {
        doc.lemma_countable();
        lemma_roles_in_document(
            doc.nodes(),
            role_table(),
            dom,
            options.hidden.unwrap_or(false),
            doc.len() as int,
        );
    }
    pretty_roles_of(doc, &groups, &options)
}

} // verus!
