//! Finding elements by their ARIA role, and by the states that the role has.
use vstd::prelude::*;
use crate::error::WaitForError;
use crate::queries::{
    find, find_all, find_all_post, find_post, get, get_all, get_all_post, get_post, query,
    query_all, query_all_post, query_post, Query, Snapshots,
};
use crate::types::wait_for::WaitForOptions;
use crate::wait_for::Clock;
use aria_query::{AriaRole, AriaRoleDefinitionKey};
use crate::aria::{
    aria_key_name, aria_property_named, aria_role_elements, aria_role_key, aria_role_name,
    aria_role_property, key_name, property_named, role_elements, role_key, role_name,
    role_property, texts,
};
use crate::document::{attribute_of, select, Document, Node, NodeId};
use crate::error::{found_view, QueryError, QueryErrorView};
use crate::matches::{matches_text, option_view, Normalizer};
use crate::query_helpers::{found_among, invalid_selector, read_selector, selected};
use crate::role_helpers::{
    aria_busy, aria_checked, aria_current, aria_expanded, aria_pressed, aria_selected,
    compute_aria_busy, compute_aria_checked, compute_aria_current, compute_aria_expanded,
    compute_aria_pressed, compute_aria_selected, compute_aria_value_max, compute_aria_value_min,
    compute_aria_value_now, compute_aria_value_text, compute_heading_level, element_role_list,
    heading_level, implicit_roles_by, implicit_roles_in, inaccessible, is_inaccessible,
    number_attribute, role_table, rows_view, ElementRole, ElementRoleView,
};
use crate::selector::{parse_selector, SelectorView};
use crate::text::{chars_eq, chars_of, extend_str, split, split_chars, str_eq, string_of, views};
use crate::types::config::Config;
use crate::types::matches::Matcher;
use crate::types::queries::{ByRoleOptions, ByRoleOptionsValue};

verus! {

// ---------------------------------------------------------------------------
// What a role supports
// ---------------------------------------------------------------------------
/// Whether the definition of the role lists the property of that name.
pub open spec fn supports(role: AriaRole, property: Seq<char>) -> bool {
    match aria_property_named(property) {
        Some(property) => aria_role_property(role, property) == Some(true),
        None => false,
    }
}

fn role_supports(role: AriaRole, property: &str) -> (r: bool)
    ensures
        r == supports(role, property@),
{
    match property_named(property) {
        Some(property) => match role_property(role, property) {
            Some(listed) => listed,
            None => false,
        },
        None => false,
    }
}

/// The message for an option that the role does not support.
pub open spec fn unsupported(property: Seq<char>, role: AriaRole) -> Seq<char> {
    "`"@ + property + "` is not supported on role \""@ + aria_role_name(role) + "\"."@
}

/// The message for the option `level` on a role that is not heading.
pub open spec fn level_unsupported(role: AriaRole) -> Seq<char> {
    "Role \""@ + aria_role_name(role) + "\" cannot have \"level\" property."@
}

/// The value asked for; nothing of it is set where the options name none.
pub open spec fn value_of_options(options: ByRoleOptions) -> ByRoleOptionsValue {
    match options.value {
        Some(value) => value,
        None => ByRoleOptionsValue { now: None, min: None, max: None, text: None },
    }
}

/// The first option that is set though the role does not support it, as the
/// message that says so: the options are looked at in the order selected,
/// busy, checked, pressed, current, level, value now, value max, value min,
/// value text, expanded.
pub open spec fn first_unsupported(role: AriaRole, options: ByRoleOptions) -> Option<Seq<char>> {
    let value = value_of_options(options);
    if options.selected is Some && !supports(role, "aria-selected"@) {
        Some(unsupported("aria-selected"@, role))
    } else if options.busy is Some && !supports(role, "aria-busy"@) {
        Some(unsupported("aria-busy"@, role))
    } else if options.checked is Some && !supports(role, "aria-checked"@) {
        Some(unsupported("aria-checked"@, role))
    } else if options.pressed is Some && !supports(role, "aria-pressed"@) {
        Some(unsupported("aria-pressed"@, role))
    } else if options.current is Some && !supports(role, "aria-current"@) {
        Some(unsupported("aria-current"@, role))
    } else if options.level is Some && aria_role_name(role) != "heading"@ {
        Some(level_unsupported(role))
    } else if value.now is Some && !supports(role, "aria-valuenow"@) {
        Some(unsupported("aria-valuenow"@, role))
    } else if value.max is Some && !supports(role, "aria-valuemax"@) {
        Some(unsupported("aria-valuemax"@, role))
    } else if value.min is Some && !supports(role, "aria-valuemin"@) {
        Some(unsupported("aria-valuemin"@, role))
    } else if value.text is Some && !supports(role, "aria-valuetext"@) {
        Some(unsupported("aria-valuetext"@, role))
    } else if options.expanded is Some && !supports(role, "aria-expanded"@) {
        Some(unsupported("aria-expanded"@, role))
    } else {
        None
    }
}

fn unsupported_error(property: &str, role: AriaRole) -> (error: QueryError)
    ensures
        error@ == QueryErrorView::Unsupported(unsupported(property@, role)),
{
    let mut out: Vec<char> = Vec::new();
    extend_str(&mut out, "`");
    extend_str(&mut out, property);
    extend_str(&mut out, "` is not supported on role \"");
    extend_str(&mut out, role_name(role).as_str());
    extend_str(&mut out, "\".");
    QueryError::Unsupported(string_of(&out))
}

/// Checks one option: an error where it is set and the role does not support
/// the property.
fn check_supported(set: bool, property: &str, role: AriaRole) -> (r: Result<(), QueryError>)
    ensures
        match r {
            Ok(_) => !(set && !supports(role, property@)),
            Err(error) => set && !supports(role, property@) && error@
                == QueryErrorView::Unsupported(unsupported(property@, role)),
        },
{
    if set && !role_supports(role, property) {
        Err(unsupported_error(property, role))
    } else {
        Ok(())
    }
}

/// Fails where an option is set that the role does not support. The document
/// plays no part in this.
pub fn check_options(role: AriaRole, options: &ByRoleOptions) -> (r: Result<(), QueryError>)
    ensures
        match r {
            Ok(_) => first_unsupported(role, *options) is None,
            Err(error) => first_unsupported(role, *options) matches Some(message) && error@
                == QueryErrorView::Unsupported(message),
        },
{
    check_supported(options.selected.is_some(), "aria-selected", role)?;
    check_supported(options.busy.is_some(), "aria-busy", role)?;
    check_supported(options.checked.is_some(), "aria-checked", role)?;
    check_supported(options.pressed.is_some(), "aria-pressed", role)?;
    check_supported(options.current.is_some(), "aria-current", role)?;
    if options.level.is_some() && !str_eq(role_name(role).as_str(), "heading") {
        let mut out: Vec<char> = Vec::new();
        extend_str(&mut out, "Role \"");
        extend_str(&mut out, role_name(role).as_str());
        extend_str(&mut out, "\" cannot have \"level\" property.");
        return Err(QueryError::Unsupported(string_of(&out)));
    }
    let (now, max, min, text) = match &options.value {
        Some(value) => (
            value.now.is_some(),
            value.max.is_some(),
            value.min.is_some(),
            value.text.is_some(),
        ),
        None => (false, false, false, false),
    };
    check_supported(now, "aria-valuenow", role)?;
    check_supported(max, "aria-valuemax", role)?;
    check_supported(min, "aria-valuemin", role)?;
    check_supported(text, "aria-valuetext", role)?;
    check_supported(options.expanded.is_some(), "aria-expanded", role)?;
    Ok(())
}

// ---------------------------------------------------------------------------
// The selector of a role
// ---------------------------------------------------------------------------
/// The texts of `names`, each once, where it comes first; of the first `k`.
pub open spec fn unique_names(names: Seq<Seq<char>>, k: int) -> Seq<Seq<char>>
    decreases k,
{
    if k <= 0 {
        Seq::empty()
    } else {
        let before = unique_names(names, k - 1);
        if before.contains(names[k - 1]) {
            before
        } else {
            before.push(names[k - 1])
        }
    }
}

/// The names, each after a comma.
pub open spec fn listed(names: Seq<Seq<char>>) -> Seq<char>
    decreases names.len(),
{
    if names.len() == 0 {
        Seq::empty()
    } else {
        listed(names.drop_last()) + ","@ + names.last()
    }
}

/// The selector of the elements that may have a role: those that name it in
/// their `role` attribute, and those whose tag implies it.
pub open spec fn role_selector(role: AriaRole) -> Seq<char> {
    "*[role~=\""@ + aria_role_name(role) + "\"]"@ + listed(
        unique_names(aria_role_elements(role), aria_role_elements(role).len() as int),
    )
}

fn contains_name(names: &Vec<Vec<char>>, wanted: &Vec<char>) -> (r: bool)
    ensures
        r == views(names@).contains(wanted@),
{
    let mut i: usize = 0;
    while i < names.len()
        invariant
            i <= names.len(),
            forall|k: int| 0 <= k < i ==> views(names@)[k] != wanted@,
        decreases names.len() - i,
    {
        if chars_eq(&names[i], wanted) {
            assert(views(names@)[i as int] == wanted@);
            return true;
        }
        i += 1;
    }
    false
}

/// Writes the selector of the elements that may have a role.
pub fn make_role_selector(role: AriaRole) -> (selector: String)
    ensures
        selector@ == role_selector(role),
{
    let names = role_elements(role);
    let mut unique: Vec<Vec<char>> = Vec::new();
    let mut k: usize = 0;
    while k < names.len()
        invariant
            k <= names.len(),
            texts(names@) == aria_role_elements(role),
            views(unique@) == unique_names(aria_role_elements(role), k as int),
        decreases names.len() - k,
    {
        let name = chars_of(names[k].as_str());
        assert(name@ == texts(names@)[k as int]);
        if !contains_name(&unique, &name) {
            let ghost before = unique@;
            unique.push(name);
            assert(views(unique@) == views(before).push(name@));
        }
        k += 1;
    }
    let mut out: Vec<char> = Vec::new();
    extend_str(&mut out, "*[role~=\"");
    extend_str(&mut out, role_name(role).as_str());
    extend_str(&mut out, "\"]");
    let ghost start = out@;
    let mut i: usize = 0;
    assert(views(unique@).take(0) == Seq::<Seq<char>>::empty());
    assert(out@ == start + Seq::<char>::empty());
    while i < unique.len()
        invariant
            i <= unique.len(),
            out@ == start + listed(views(unique@).take(i as int)),
        decreases unique.len() - i,
    {
        proof {
            let next = views(unique@).take(i + 1);
            assert(next.drop_last() == views(unique@).take(i as int));
            assert(next.last() == unique@[i as int]@);
        }
        let ghost before = out@;
        extend_str(&mut out, ",");
        crate::text::extend_chars(&mut out, &unique[i]);
        assert(out@ == before + (","@ + unique@[i as int]@));
        assert(out@ == start + (listed(views(unique@).take(i as int)) + ","@ + unique@[i as int]@));
        i += 1;
    }
    assert(views(unique@).take(unique.len() as int) == views(unique@));
    string_of(&out)
}

// ---------------------------------------------------------------------------
// Which elements have the role
// ---------------------------------------------------------------------------
/// One of the first `k` pieces is `name` and is not empty.
pub open spec fn names_role(pieces: Seq<Seq<char>>, name: Seq<char>, k: int) -> bool
    decreases k,
{
    k > 0 && (names_role(pieces, name, k - 1) || (pieces[k - 1].len() > 0 && pieces[k - 1]
        == name))
}

/// Whether a `role` attribute names the role: by the first of the pieces
/// between its spaces, or, where fallbacks are asked for, by any piece that is
/// not empty.
pub open spec fn attribute_names_role(value: Seq<char>, name: Seq<char>, fallbacks: bool) -> bool {
    let pieces = split(value, false);
    if fallbacks {
        names_role(pieces, name, pieces.len() as int)
    } else {
        pieces[0] == name
    }
}

/// One of the first `k` keys has the name `name`.
pub open spec fn has_key_named(keys: Seq<AriaRoleDefinitionKey>, name: Seq<char>, k: int) -> bool
    decreases k,
{
    k > 0 && (has_key_named(keys, name, k - 1) || aria_key_name(keys[k - 1]) == name)
}

/// Whether an element has the role: by its `role` attribute where it has one,
/// else by the roles that it implies.
pub open spec fn has_role(
    node: Node,
    rows: Seq<ElementRoleView>,
    role: AriaRole,
    fallbacks: bool,
) -> bool {
    match attribute_of(node.attributes@, "role"@) {
        Some(value) => attribute_names_role(value, aria_role_name(role), fallbacks),
        None => {
            let implied = implicit_roles_in(rows, node);
            has_key_named(implied, aria_key_name(aria_role_key(role)), implied.len() as int)
        },
    }
}

fn role_attribute_matches(value: &str, name: &str, fallbacks: bool) -> (r: bool)
    ensures
        r == attribute_names_role(value@, name@, fallbacks),
{
    let chars = chars_of(value);
    let pieces = split_chars(&chars, false);
    let wanted = chars_of(name);
    if !fallbacks {
        assert(views(pieces@)[0] == pieces@[0]@);
        return chars_eq(&pieces[0], &wanted);
    }
    let mut k: usize = 0;
    while k < pieces.len()
        invariant
            k <= pieces.len(),
            fallbacks,
            wanted@ == name@,
            views(pieces@) == split(value@, false),
            !names_role(views(pieces@), name@, k as int),
        decreases pieces.len() - k,
    {
        assert(views(pieces@)[k as int] == pieces@[k as int]@);
        if pieces[k].len() > 0 && chars_eq(&pieces[k], &wanted) {
            proof {
                lemma_names_later(views(pieces@), name@, k as int, pieces.len() as int);
            }
            return true;
        }
        k += 1;
    }
    false
}

proof fn lemma_names_later(pieces: Seq<Seq<char>>, name: Seq<char>, i: int, k: int)
    requires
        0 <= i < k,
        pieces[i].len() > 0 && pieces[i] == name,
    ensures
        names_role(pieces, name, k),
    decreases k,
{
    if i < k - 1 {
        lemma_names_later(pieces, name, i, k - 1);
    }
}

proof fn lemma_key_later(keys: Seq<AriaRoleDefinitionKey>, name: Seq<char>, i: int, k: int)
    requires
        0 <= i < k,
        aria_key_name(keys[i]) == name,
    ensures
        has_key_named(keys, name, k),
    decreases k,
{
    if i < k - 1 {
        lemma_key_later(keys, name, i, k - 1);
    }
}

fn element_has_role(
    node: &Node,
    table: &Vec<ElementRole>,
    role: AriaRole,
    role_text: &str,
    fallbacks: bool,
) -> (r: bool)
    requires
        role_text@ == aria_role_name(role),
    ensures
        r == has_role(*node, rows_view(table@), role, fallbacks),
{
    match node.get_attribute("role") {
        Some(value) => role_attribute_matches(value.as_str(), role_text, fallbacks),
        None => {
            let implied = implicit_roles_by(table, node);
            let wanted = key_name(role_key(role));
            let mut k: usize = 0;
            while k < implied.len()
                invariant
                    k <= implied.len(),
                    attribute_of(node.attributes@, "role"@) is None,
                    implied@ == implicit_roles_in(rows_view(table@), *node),
                    wanted@ == aria_key_name(aria_role_key(role)),
                    !has_key_named(implied@, wanted@, k as int),
                decreases implied.len() - k,
            {
                let name = key_name(implied[k]);
                if str_eq(name.as_str(), wanted.as_str()) {
                    proof {
                        lemma_key_later(implied@, wanted@, k as int, implied.len() as int);
                    }
                    return true;
                }
                k += 1;
            }
            false
        },
    }
}

// ---------------------------------------------------------------------------
// Which elements are in the state asked for
// ---------------------------------------------------------------------------
/// How the texts of a query by role are compared: exactly and as they are.
/// `element` is the element that the text was taken from.
pub open spec fn accepts_as_is(
    text: Option<Seq<char>>,
    element: NodeId,
    matcher: Option<Matcher>,
) -> bool {
    match matcher {
        Some(matcher) => matches_text(
            text,
            Some(element),
            matcher,
            Normalizer::Default { trim: false, collapse_whitespace: false },
            true,
        ),
        None => true,
    }
}

/// Whether the value that an element reports agrees with every field that is
/// set.
pub open spec fn value_agrees(node: Node, element: NodeId, value: ByRoleOptionsValue) -> bool {
    &&& value.now is Some ==> value.now == number_attribute(node, "aria-valuenow"@)
    &&& value.max is Some ==> value.max == number_attribute(node, "aria-valuemax"@)
    &&& value.min is Some ==> value.min == number_attribute(node, "aria-valuemin"@)
    &&& accepts_as_is(attribute_of(node.attributes@, "aria-valuetext"@), element, value.text)
}

/// Whether an element is in the state asked for. Of the options selected,
/// busy, checked, pressed, current, expanded, level and value, only the first
/// that is set is looked at.
pub open spec fn state_agrees(node: Node, element: NodeId, options: ByRoleOptions) -> bool {
    let value = value_of_options(options);
    if options.selected is Some {
        options.selected == aria_selected(node)
    } else if options.busy is Some {
        options.busy == Some(aria_busy(node))
    } else if options.checked is Some {
        options.checked == aria_checked(node)
    } else if options.pressed is Some {
        options.pressed == aria_pressed(node)
    } else if options.current is Some {
        aria_current(node, options.current->0)
    } else if options.expanded is Some {
        options.expanded == aria_expanded(node)
    } else if options.level is Some {
        options.level == heading_level(node)
    } else if value.now is Some || value.max is Some || value.min is Some || value.text is Some {
        value_agrees(node, element, value)
    } else {
        true
    }
}

fn matches_as_is(text: Option<String>, node: NodeId, matcher: &Option<Matcher>) -> (r: bool)
    ensures
        r == accepts_as_is(option_view(text), node, *matcher),
{
    match matcher {
        Some(matcher) => {
            let identity = Normalizer::Default { trim: false, collapse_whitespace: false };
            crate::matches::matches(text, Some(node), matcher, &identity)
        },
        None => true,
    }
}

fn same_bool(wanted: Option<bool>, found: Option<bool>) -> (r: bool)
    ensures
        r == (wanted == found),
{
    match (wanted, found) {
        (Some(a), Some(b)) => a == b,
        (None, None) => true,
        _ => false,
    }
}

fn same_number(wanted: Option<i64>, found: Option<i64>) -> (r: bool)
    ensures
        r == (wanted == found),
{
    match (wanted, found) {
        (Some(a), Some(b)) => a == b,
        (None, None) => true,
        _ => false,
    }
}

fn same_level(wanted: Option<usize>, found: Option<usize>) -> (r: bool)
    ensures
        r == (wanted == found),
{
    match (wanted, found) {
        (Some(a), Some(b)) => a == b,
        (None, None) => true,
        _ => false,
    }
}

fn in_state(doc: &Document, element: NodeId, options: &ByRoleOptions) -> (r: bool)
    requires
        doc.contains(element),
    ensures
        r == state_agrees(doc.nodes()[element as int], element, *options),
{
    if options.selected.is_some() {
        return same_bool(options.selected, compute_aria_selected(doc, element));
    }
    if let Some(busy) = options.busy {
        return busy == compute_aria_busy(doc, element);
    }
    if options.checked.is_some() {
        return same_bool(options.checked, compute_aria_checked(doc, element));
    }
    if options.pressed.is_some() {
        return same_bool(options.pressed, compute_aria_pressed(doc, element));
    }
    if let Some(current) = &options.current {
        let found = compute_aria_current(doc, element);
        return current.equals(&found);
    }
    if options.expanded.is_some() {
        return same_bool(options.expanded, compute_aria_expanded(doc, element));
    }
    if options.level.is_some() {
        return same_level(options.level, compute_heading_level(doc, element));
    }
    match &options.value {
        Some(value) => {
            if value.now.is_some() || value.max.is_some() || value.min.is_some()
                || value.text.is_some() {
                let mut agrees = true;
                if value.now.is_some() {
                    agrees = agrees && same_number(value.now, compute_aria_value_now(doc, element));
                }
                if value.max.is_some() {
                    agrees = agrees && same_number(value.max, compute_aria_value_max(doc, element));
                }
                if value.min.is_some() {
                    agrees = agrees && same_number(value.min, compute_aria_value_min(doc, element));
                }
                if value.text.is_some() {
                    agrees = agrees && matches_as_is(
                        compute_aria_value_text(doc, element),
                        element,
                        &value.text,
                    );
                }
                agrees
            } else {
                true
            }
        },
        None => true,
    }
}

/// Whether the node at `d` is one that a query by role looks at: an element
/// below `container` that the role's selector matches and that has the role,
/// and that is accessible unless hidden elements are asked for too.
pub open spec fn role_candidate(
    nodes: Seq<Node>,
    container: NodeId,
    selector: SelectorView,
    role: AriaRole,
    fallbacks: bool,
    hidden: bool,
) -> spec_fn(NodeId) -> bool {
    |d: NodeId|
        selected(nodes, container, selector, d) && has_role(
            nodes[d as int],
            role_table(),
            role,
            fallbacks,
        ) && (hidden || !inaccessible(nodes, d as int))
}

/// What holds of the elements found by their role: each is one that the
/// query looks at, and they stand in document order.
pub open spec fn found_by_role(
    nodes: Seq<Node>,
    default_hidden: bool,
    container: NodeId,
    role: AriaRole,
    options: ByRoleOptions,
    found: Seq<NodeId>,
) -> bool {
    match parse_selector(role_selector(role)) {
        Some(selector) => first_unsupported(role, options) is None && found_among(
            found,
            nodes.len(),
            role_candidate(
                nodes,
                container,
                selector,
                role,
                options.query_fallbacks.unwrap_or(false),
                options.hidden.unwrap_or(default_hidden),
            ),
        ),
        None => false,
    }
}

/// Whether the node at `d` is an element below `container` that the role's
/// selector matches, that has the role, is in the state asked for, has the
/// name and the description asked for, and is accessible unless hidden
/// elements are asked for too.
pub open spec fn role_keep(
    nodes: Seq<Node>,
    container: NodeId,
    selector: SelectorView,
    role: AriaRole,
    options: ByRoleOptions,
    hidden: bool,
) -> spec_fn(NodeId) -> bool {
    |d: NodeId|
        selected(nodes, container, selector, d) && has_role(
            nodes[d as int],
            role_table(),
            role,
            options.query_fallbacks.unwrap_or(false),
        ) && state_agrees(nodes[d as int], d, options) && accepts_as_is(
            Some(nodes[d as int].accessible_name@),
            d,
            options.name,
        ) && accepts_as_is(Some(nodes[d as int].accessible_description@), d, options.description)
            && (hidden || !inaccessible(nodes, d as int))
}

/// What a query by role finds, in document order. An option that the role
/// does not support is an error whatever the document holds.
pub open spec fn role_found(
    nodes: Seq<Node>,
    default_hidden: bool,
    container: NodeId,
    role: AriaRole,
    options: ByRoleOptions,
) -> Result<Seq<NodeId>, QueryErrorView> {
    match first_unsupported(role, options) {
        Some(message) => Err(QueryErrorView::Unsupported(message)),
        None => match parse_selector(role_selector(role)) {
            None => Err(invalid_selector(role_selector(role))),
            Some(selector) => Ok(
                select(
                    nodes.len(),
                    role_keep(
                        nodes,
                        container,
                        selector,
                        role,
                        options,
                        options.hidden.unwrap_or(default_hidden),
                    ),
                ),
            ),
        },
    }
}

/// The elements below `container` that have the role and are as the options
/// ask, in document order. The options are checked against the role before
/// the document is looked at.
pub fn _query_all_by_role(
    doc: &Document,
    config: &Config,
    container: NodeId,
    role: AriaRole,
    options: &ByRoleOptions,
) -> (r: Result<Vec<NodeId>, QueryError>)
    requires
        doc.contains(container),
    ensures
        found_view(r) == role_found(
            doc.nodes(),
            config.default_hidden,
            container,
            role,
            *options,
        ),
        r matches Ok(found) ==> found_by_role(
            doc.nodes(),
            config.default_hidden,
            container,
            role,
            *options,
            found@,
        ),
{
    check_options(role, options)?;
    let role_text = role_name(role);
    let hidden = match options.hidden {
        Some(hidden) => hidden,
        None => config.default_hidden,
    };
    let fallbacks = match options.query_fallbacks {
        Some(fallbacks) => fallbacks,
        None => false,
    };
    let selector = read_selector(make_role_selector(role).as_str())?;
    let table = element_role_list();
    let mut found: Vec<NodeId> = Vec::new();
    let count = doc.node_count();
    let mut d: usize = 0;
    while d < count
        invariant
            d <= count,
            count == doc.len(),
            doc.contains(container),
            role_text@ == aria_role_name(role),
            rows_view(table@) == role_table(),
            hidden == options.hidden.unwrap_or(config.default_hidden),
            fallbacks == options.query_fallbacks.unwrap_or(false),
            found@ == select(
                d as nat,
                role_keep(doc.nodes(), container, selector@, role, *options, hidden),
            ),
            first_unsupported(role, *options) is None,
            found_among(
                found@,
                d as nat,
                role_candidate(doc.nodes(), container, selector@, role, fallbacks, hidden),
            ),
        decreases count - d,
    {
        let node = doc.node(d);
        if doc.is_below(d, container) && selector.matches(node) && element_has_role(
            node,
            &table,
            role,
            role_text.as_str(),
            fallbacks,
        ) && in_state(doc, d, options) && matches_as_is(
            Some(node.accessible_name.clone()),
            d,
            &options.name,
        ) && matches_as_is(Some(node.accessible_description.clone()), d, &options.description)
            && (hidden || !is_inaccessible(doc, d)) {
            found.push(d);
        }
        d += 1;
    }
    Ok(found)
}

// ---------------------------------------------------------------------------
// Messages
// ---------------------------------------------------------------------------
/// The part of a message that names the accessible name asked for.
pub open spec fn name_hint(name: Option<Matcher>) -> Seq<char> {
    match name {
        Some(Matcher::String(name)) => " and name \""@ + name@ + "\""@,
        Some(Matcher::Regex(re)) => " and name `"@ + crate::pattern::regex_source(re) + "`"@,
        Some(Matcher::Number(number)) => " and name `"@ + number@ + "`"@,
        Some(Matcher::Function(_)) => " and name `Fn`"@,
        None => Seq::empty(),
    }
}

fn get_name_hint(name: &Option<Matcher>) -> (r: String)
    ensures
        r@ == name_hint(*name),
{
    let mut out: Vec<char> = Vec::new();
    match name {
        Some(Matcher::String(name)) => {
            extend_str(&mut out, " and name \"");
            extend_str(&mut out, name.as_str());
            extend_str(&mut out, "\"");
        },
        Some(Matcher::Regex(re)) => {
            extend_str(&mut out, " and name `");
            extend_str(&mut out, crate::pattern::source(re).as_str());
            extend_str(&mut out, "`");
        },
        Some(Matcher::Number(number)) => {
            extend_str(&mut out, " and name `");
            extend_str(&mut out, number.as_str());
            extend_str(&mut out, "`");
        },
        Some(Matcher::Function(_)) => {
            extend_str(&mut out, " and name `Fn`");
        },
        None => {},
    }
    string_of(&out)
}

/// The message for more than one element found with a role.
pub open spec fn multiple_roles(role: AriaRole, options: ByRoleOptions) -> Seq<char> {
    "Found multiple elements with the role \""@ + aria_role_name(role) + "\""@ + name_hint(
        options.name,
    )
}

pub fn get_multiple_error(role: AriaRole, options: &ByRoleOptions) -> (r: String)
    ensures
        r@ == multiple_roles(role, *options),
{
    let mut out: Vec<char> = Vec::new();
    extend_str(&mut out, "Found multiple elements with the role \"");
    extend_str(&mut out, role_name(role).as_str());
    extend_str(&mut out, "\"");
    extend_str(&mut out, get_name_hint(&options.name).as_str());
    string_of(&out)
}

/// The message for a role that no element has; it says accessible unless
/// hidden elements were asked for too.
pub open spec fn missing_role(role: AriaRole, hidden: bool) -> Seq<char> {
    "Unable to find an "@ + (if hidden {
        Seq::<char>::empty()
    } else {
        "accessible "@
    }) + "element with the role \""@ + aria_role_name(role) + "\"\n\n"@
}

pub fn get_missing_error(config: &Config, role: AriaRole, options: &ByRoleOptions) -> (r: String)
    ensures
        r@ == missing_role(role, options.hidden.unwrap_or(config.default_hidden)),
{
    let hidden = match options.hidden {
        Some(hidden) => hidden,
        None => config.default_hidden,
    };
    let mut out: Vec<char> = Vec::new();
    extend_str(&mut out, "Unable to find an ");
    let ghost start = out@;
    if !hidden {
        extend_str(&mut out, "accessible ");
    }
    proof {
        if hidden {
            assert(out@ == start + Seq::<char>::empty());
        }
    }
    extend_str(&mut out, "element with the role \"");
    extend_str(&mut out, role_name(role).as_str());
    extend_str(&mut out, "\"\n\n");
    string_of(&out)
}

/// All elements below `container` with the role; none is no error.
pub fn query_all_by_role(
    doc: &Document,
    config: &Config,
    container: NodeId,
    role: AriaRole,
    options: &ByRoleOptions,
) -> (r: Result<Vec<NodeId>, QueryError>)
    requires
        doc.contains(container),
    ensures
        query_all_post(Query::Role(role, options), doc.nodes(), *config, container, r),
{
    query_all(doc, config, container, &Query::Role(role, options))
}

/// The element below `container` with the role, or `None`; several are an
/// error.
pub fn query_by_role(
    doc: &Document,
    config: &Config,
    container: NodeId,
    role: AriaRole,
    options: &ByRoleOptions,
) -> (r: Result<Option<NodeId>, QueryError>)
    requires
        doc.contains(container),
    ensures
        query_post(Query::Role(role, options), doc.nodes(), *config, container, r),
{
    query(doc, config, container, &Query::Role(role, options))
}

/// All elements below `container` with the role; none is an error.
pub fn get_all_by_role(
    doc: &Document,
    config: &Config,
    container: NodeId,
    role: AriaRole,
    options: &ByRoleOptions,
) -> (r: Result<Vec<NodeId>, QueryError>)
    requires
        doc.contains(container),
    ensures
        get_all_post(Query::Role(role, options), doc.nodes(), *config, container, r),
{
    get_all(doc, config, container, &Query::Role(role, options))
}

/// The one element below `container` with the role; none and several are
/// errors.
pub fn get_by_role(
    doc: &Document,
    config: &Config,
    container: NodeId,
    role: AriaRole,
    options: &ByRoleOptions,
) -> (r: Result<NodeId, QueryError>)
    requires
        doc.contains(container),
    ensures
        get_post(Query::Role(role, options), doc.nodes(), *config, container, r),
{
    get(doc, config, container, &Query::Role(role, options))
}

/// Waits for elements below `container` with the role: retries
/// `get_all_by_role` on the document as it is at each poll.
pub fn find_all_by_role<S: Snapshots, C: Clock>(
    source: &S,
    clock: &C,
    config: &Config,
    container: NodeId,
    role: AriaRole,
    options: &ByRoleOptions,
    wait_for_options: &WaitForOptions,
) -> (r: Result<(Document, Vec<NodeId>), WaitForError<QueryError>>)
    ensures
        find_all_post(source, clock, *wait_for_options, Query::Role(role, options), *config, container, r),
{
    find_all(source, clock, config, container, &Query::Role(role, options), wait_for_options)
}

/// Waits for the one element below `container` with the role: retries
/// `get_by_role` on the document as it is at each poll.
pub fn find_by_role<S: Snapshots, C: Clock>(
    source: &S,
    clock: &C,
    config: &Config,
    container: NodeId,
    role: AriaRole,
    options: &ByRoleOptions,
    wait_for_options: &WaitForOptions,
) -> (r: Result<(Document, NodeId), WaitForError<QueryError>>)
    ensures
        find_post(source, clock, *wait_for_options, Query::Role(role, options), *config, container, r),
{
    find(source, clock, config, container, &Query::Role(role, options), wait_for_options)
}

/// An option that the role does not support makes the query fail as
/// unsupported, with the same message whatever the document and the container
/// are.
pub proof fn lemma_unsupported_whatever_document(
    nodes: Seq<Node>,
    others: Seq<Node>,
    default_hidden: bool,
    container: NodeId,
    other_container: NodeId,
    role: AriaRole,
    options: ByRoleOptions,
)
    requires
        first_unsupported(role, options) is Some,
    ensures
        role_found(nodes, default_hidden, container, role, options) == Err::<
            Seq<NodeId>,
            QueryErrorView,
        >(QueryErrorView::Unsupported(first_unsupported(role, options)->0)),
        role_found(others, default_hidden, other_container, role, options) == role_found(
            nodes,
            default_hidden,
            container,
            role,
            options,
        ),
{
}

/// The option `selected` on a role that does not support `aria-selected` is
/// reported with a message that names both.
pub proof fn lemma_selected_unsupported(role: AriaRole, options: ByRoleOptions)
    requires
        options.selected is Some,
        !supports(role, "aria-selected"@),
    ensures
        first_unsupported(role, options) == Some(
            "`"@ + "aria-selected"@ + "` is not supported on role \""@ + aria_role_name(role)
                + "\"."@,
        ),
{
}

} // verus!
