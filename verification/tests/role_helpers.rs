use aria_query::{AriaRole, AriaRoleDefinitionKey};
use testing_library_dom::document::{Document, Node};
use testing_library_dom::queries::role::{check_options, make_role_selector};
use testing_library_dom::role_helpers::{
    compute_aria_busy, compute_aria_checked, compute_aria_current, compute_aria_expanded,
    compute_aria_pressed, compute_aria_selected, compute_aria_value_max, compute_aria_value_min,
    compute_aria_value_now, compute_aria_value_text, compute_heading_level, element_role_list,
    get_implicit_aria_roles, get_roles, get_selector_specificity, is_inaccessible,
    is_subtree_inaccessible, make_element_selector, pretty_roles, GetRolesOptions,
    PrettyRolesOptions,
};
use testing_library_dom::aria::{ConceptAttribute, RoleConcept};
use testing_library_dom::selector::Selector;
use testing_library_dom::types::queries::{ByRoleOptions, ByRoleOptionsCurrent, ByRoleOptionsValue};
use testing_library_dom::types::matches::Matcher;
use testing_library_dom::error::QueryError;

fn one(node: Node) -> Document {
    let mut doc = Document::new();
    doc.push_root(node);
    doc
}

#[test]
fn an_element_that_is_not_displayed_hides_what_is_below_it() {
    let mut doc = Document::new();
    let root = doc.push_root(Node::element("div"));
    let hidden = doc
        .append_child(
            root,
            Node::element("div")
                .attribute("style", "display:none")
                .display("none"),
        )
        .unwrap();
    let child = doc.append_child(hidden, Node::element("span")).unwrap();
    let deep = doc.append_child(child, Node::element("b")).unwrap();
    let sibling = doc.append_child(root, Node::element("span")).unwrap();

    assert!(is_subtree_inaccessible(&doc, hidden));
    assert!(!is_subtree_inaccessible(&doc, child));
    assert!(is_inaccessible(&doc, hidden));
    assert!(is_inaccessible(&doc, child));
    assert!(is_inaccessible(&doc, deep));
    assert!(!is_inaccessible(&doc, sibling));
    assert!(!is_inaccessible(&doc, root));
}

#[test]
fn hidden_and_aria_hidden_hide_a_subtree_and_visibility_an_element() {
    assert!(is_subtree_inaccessible(&one(Node::element("div").hidden(true)), 0));
    assert!(is_subtree_inaccessible(
        &one(Node::element("div").attribute("aria-hidden", "true")),
        0
    ));
    assert!(!is_subtree_inaccessible(
        &one(Node::element("div").attribute("aria-hidden", "false")),
        0
    ));
    assert!(!is_subtree_inaccessible(
        &one(Node::element("div").attribute("aria-hidden", "TRUE")),
        0
    ));
    assert!(!is_subtree_inaccessible(
        &one(Node::element("div").visibility("hidden")),
        0
    ));
    assert!(is_inaccessible(&one(Node::element("div").visibility("hidden")), 0));
    assert!(!is_inaccessible(&one(Node::element("div").visibility("collapse")), 0));

    let mut doc = Document::new();
    let root = doc.push_root(Node::element("div").visibility("hidden"));
    let child = doc.append_child(root, Node::element("p")).unwrap();
    // Visibility is inherited: the host reports it of every element by itself.
    assert!(is_inaccessible(&doc, root));
    assert!(!is_inaccessible(&doc, child));
}

#[test]
fn states_are_read_from_attributes_and_properties() {
    // The attribute is read first; the option's own state only without it.
    let option = one(Node::element("option").selected(true).attribute("aria-selected", "false"));
    assert_eq!(Some(false), compute_aria_selected(&option, 0));
    let marked = one(Node::element("option").attribute("aria-selected", "true"));
    assert_eq!(Some(true), compute_aria_selected(&marked, 0));
    let unclear = one(Node::element("option").selected(true).attribute("aria-selected", "yes"));
    assert_eq!(None, compute_aria_selected(&unclear, 0));
    assert_eq!(
        Some(true),
        compute_aria_selected(&one(Node::element("option").selected(true)), 0)
    );
    assert_eq!(Some(false), compute_aria_selected(&one(Node::element("option")), 0));
    let tab = one(Node::element("div").attribute("aria-selected", "false"));
    assert_eq!(Some(false), compute_aria_selected(&tab, 0));
    assert_eq!(None, compute_aria_selected(&one(Node::element("div")), 0));
    assert_eq!(
        None,
        compute_aria_selected(&one(Node::element("div").attribute("aria-selected", "yes")), 0)
    );

    assert!(compute_aria_busy(&one(Node::element("div").attribute("aria-busy", "true")), 0));
    assert!(!compute_aria_busy(&one(Node::element("div").attribute("aria-busy", "false")), 0));
    assert!(!compute_aria_busy(&one(Node::element("div")), 0));

    assert_eq!(
        Some(true),
        compute_aria_checked(&one(Node::element("input").checked(true)), 0)
    );
    assert_eq!(Some(false), compute_aria_checked(&one(Node::element("input")), 0));
    assert_eq!(
        Some(false),
        compute_aria_checked(
            &one(Node::element("input").checked(true).attribute("aria-checked", "false")),
            0
        )
    );
    assert_eq!(
        Some(true),
        compute_aria_checked(
            &one(Node::element("input").indeterminate(true).attribute("aria-checked", "true")),
            0
        )
    );
    assert_eq!(
        None,
        compute_aria_checked(
            &one(Node::element("input").checked(true).attribute("aria-checked", "mixed")),
            0
        )
    );
    assert_eq!(
        None,
        compute_aria_checked(&one(Node::element("input").checked(true).indeterminate(true)), 0)
    );
    assert_eq!(
        Some(true),
        compute_aria_checked(&one(Node::element("div").attribute("aria-checked", "true")), 0)
    );
    assert_eq!(
        None,
        compute_aria_checked(&one(Node::element("div").attribute("aria-checked", "mixed")), 0)
    );

    assert_eq!(
        Some(true),
        compute_aria_pressed(&one(Node::element("button").attribute("aria-pressed", "true")), 0)
    );
    assert_eq!(None, compute_aria_pressed(&one(Node::element("button")), 0));
    assert_eq!(
        Some(false),
        compute_aria_expanded(&one(Node::element("button").attribute("aria-expanded", "false")), 0)
    );

    assert_eq!(
        ByRoleOptionsCurrent::Bool(false),
        compute_aria_current(&one(Node::element("a")), 0)
    );
    assert_eq!(
        ByRoleOptionsCurrent::Bool(true),
        compute_aria_current(&one(Node::element("a").attribute("aria-current", "true")), 0)
    );
    assert_eq!(
        ByRoleOptionsCurrent::Bool(false),
        compute_aria_current(&one(Node::element("a").attribute("aria-current", "false")), 0)
    );
    assert_eq!(
        ByRoleOptionsCurrent::String("page".to_owned()),
        compute_aria_current(&one(Node::element("a").attribute("aria-current", "page")), 0)
    );
}

#[test]
fn heading_levels_and_values_are_numbers() {
    assert_eq!(Some(1), compute_heading_level(&one(Node::element("h1")), 0));
    assert_eq!(Some(6), compute_heading_level(&one(Node::element("H6")), 0));
    assert_eq!(None, compute_heading_level(&one(Node::element("h7")), 0));
    assert_eq!(None, compute_heading_level(&one(Node::element("div")), 0));
    assert_eq!(
        Some(3),
        compute_heading_level(&one(Node::element("h1").attribute("aria-level", "3")), 0)
    );
    assert_eq!(
        Some(9),
        compute_heading_level(&one(Node::element("div").attribute("aria-level", "9")), 0)
    );
    assert_eq!(
        Some(2),
        compute_heading_level(&one(Node::element("h2").attribute("aria-level", "two")), 0)
    );

    let slider = one(
        Node::element("div")
            .attribute("aria-valuenow", "5")
            .attribute("aria-valuemin", "-10")
            .attribute("aria-valuemax", "ten")
            .attribute("aria-valuetext", "five"),
    );
    assert_eq!(Some(5), compute_aria_value_now(&slider, 0));
    assert_eq!(Some(-10), compute_aria_value_min(&slider, 0));
    assert_eq!(None, compute_aria_value_max(&slider, 0));
    assert_eq!(Some("five".to_owned()), compute_aria_value_text(&slider, 0));
    assert_eq!(None, compute_aria_value_text(&one(Node::element("div")), 0));
    assert_eq!(None, compute_aria_value_now(&one(Node::element("div")), 0));
}

fn names(keys: Vec<AriaRoleDefinitionKey>) -> Vec<String> {
    keys.into_iter().map(|key| key.to_string()).collect()
}

#[test]
fn elements_imply_roles() {
    let implied = |node: Node| names(get_implicit_aria_roles(&one(node), 0));
    assert_eq!(vec!["button"], implied(Node::element("button")));
    assert_eq!(vec!["button"], implied(Node::element("input").attribute("type", "submit")));
    assert_eq!(vec!["textbox"], implied(Node::element("input")));
    assert_eq!(vec!["textbox"], implied(Node::element("input").attribute("type", "text")));
    assert_eq!(vec!["textbox"], implied(Node::element("textarea")));
    assert_eq!(vec!["checkbox"], implied(Node::element("input").attribute("type", "checkbox")));
    assert_eq!(vec!["radio"], implied(Node::element("input").attribute("type", "radio")));
    assert_eq!(vec!["heading"], implied(Node::element("h2")));
    assert_eq!(vec!["link"], implied(Node::element("a").attribute("href", "x")));
    assert_eq!(vec!["list"], implied(Node::element("ul")));
    assert_eq!(vec!["listitem"], implied(Node::element("li")));
    assert_eq!(vec!["navigation"], implied(Node::element("nav")));
    assert_eq!(vec!["img"], implied(Node::element("img").attribute("alt", "a picture")));
    assert_eq!(Vec::<String>::new(), implied(Node::element("no-such-element")));
    assert_eq!(Vec::<String>::new(), names(get_implicit_aria_roles(&one(Node::text("button")), 0)));
}

#[test]
fn the_role_table_is_read_from_aria_query() {
    let table = element_role_list();
    assert_eq!(aria_query::ELEMENT_ROLES.len(), table.len());
    assert!(table.len() > 50);
    for (row, (concept, roles)) in table.iter().zip(aria_query::ELEMENT_ROLES.iter()) {
        assert_eq!(roles, &row.roles);
        assert_eq!(
            concept.attributes.as_ref().map(|a| a.len()).unwrap_or(0),
            row.specificity
        );
        assert!(row.selector.is_some(), "{concept:?} should have a selector");
    }
    assert!(table.iter().any(|row| row.text_input));
}

#[test]
fn concepts_are_written_as_selectors() {
    let attribute = |name: &str, value: Option<&str>, constraints: &[&str]| ConceptAttribute {
        name: name.to_owned(),
        value: value.map(str::to_owned),
        constraints: constraints.iter().map(|c| (*c).to_owned()).collect(),
    };
    let concept = RoleConcept {
        name: "input".to_owned(),
        attributes: vec![
            attribute("type", Some("checkbox"), &[]),
            attribute("list", None, &["undefined"]),
            attribute("name", None, &["set"]),
            attribute("alt", None, &[]),
            attribute("size", None, &[">1"]),
        ],
    };
    assert_eq!(
        "input[type=\"checkbox\"]:not([list])[name]:not([name=\"\"])[alt][size]",
        make_element_selector(&concept)
    );
    assert_eq!(5, get_selector_specificity(&concept));
    assert!(Selector::parse(&make_element_selector(&concept)).is_some());
    let bare = RoleConcept {
        name: "article".to_owned(),
        attributes: vec![],
    };
    assert_eq!("article", make_element_selector(&bare));
    assert_eq!(0, get_selector_specificity(&bare));
}

#[test]
fn the_selector_of_a_role_lists_its_elements_once() {
    let selector = make_role_selector(AriaRole::Button);
    assert!(selector.starts_with("*[role~=\"button\"],"));
    let names: Vec<&str> = selector.split(',').skip(1).collect();
    assert!(names.contains(&"button"));
    assert!(names.contains(&"input"));
    assert_eq!(1, names.iter().filter(|name| **name == "input").count());
    assert!(Selector::parse(&selector).is_some());

    let expected: Vec<String> = {
        let mut seen: Vec<String> = vec![];
        for concept in aria_query::ROLE_ELEMENTS
            .get(&AriaRole::Button.into())
            .into_iter()
            .flatten()
        {
            if !seen.contains(&concept.name) {
                seen.push(concept.name.clone());
            }
        }
        seen
    };
    assert_eq!(expected, names);
    assert_eq!("*[role~=\"none\"]", make_role_selector(AriaRole::None));
}

#[test]
fn options_are_checked_against_the_role() {
    assert_eq!(Ok(()), check_options(AriaRole::Textbox, &ByRoleOptions::new()));
    assert_eq!(
        Ok(()),
        check_options(AriaRole::Tab, &ByRoleOptions::new().selected(true))
    );
    assert_eq!(
        Ok(()),
        check_options(AriaRole::Checkbox, &ByRoleOptions::new().checked(true))
    );
    assert_eq!(
        Ok(()),
        check_options(AriaRole::Button, &ByRoleOptions::new().pressed(true).expanded(false))
    );
    assert_eq!(
        Ok(()),
        check_options(AriaRole::Heading, &ByRoleOptions::new().level(2))
    );
    assert_eq!(
        Ok(()),
        check_options(
            AriaRole::Slider,
            &ByRoleOptions::new().value(
                ByRoleOptionsValue::new()
                    .now(1)
                    .min(0)
                    .max(2)
                    .text(Matcher::String("one".to_owned()))
            )
        )
    );
    assert_eq!(
        Ok(()),
        check_options(AriaRole::Link, &ByRoleOptions::new().current(true.into()).busy(false))
    );

    let message = |options: ByRoleOptions, role: AriaRole| match check_options(role, &options) {
        Err(QueryError::Unsupported(message)) => message,
        other => panic!("{other:?} should be unsupported"),
    };
    assert_eq!(
        "`aria-selected` is not supported on role \"textbox\".",
        message(ByRoleOptions::new().selected(false), AriaRole::Textbox)
    );
    assert_eq!(
        "`aria-checked` is not supported on role \"button\".",
        message(ByRoleOptions::new().checked(true), AriaRole::Button)
    );
    assert_eq!(
        "`aria-pressed` is not supported on role \"checkbox\".",
        message(ByRoleOptions::new().pressed(true), AriaRole::Checkbox)
    );
    assert_eq!(
        "`aria-expanded` is not supported on role \"heading\".",
        message(ByRoleOptions::new().expanded(true), AriaRole::Heading)
    );
    assert_eq!(
        "Role \"button\" cannot have \"level\" property.",
        message(ByRoleOptions::new().level(1), AriaRole::Button)
    );
    assert_eq!(
        "`aria-valuenow` is not supported on role \"button\".",
        message(
            ByRoleOptions::new().value(ByRoleOptionsValue::new().now(1).max(2)),
            AriaRole::Button
        )
    );
    assert_eq!(
        "`aria-valuemax` is not supported on role \"button\".",
        message(
            ByRoleOptions::new().value(ByRoleOptionsValue::new().max(2).min(1)),
            AriaRole::Button
        )
    );
    assert_eq!(
        "`aria-valuemin` is not supported on role \"button\".",
        message(
            ByRoleOptions::new().value(ByRoleOptionsValue::new().min(1)),
            AriaRole::Button
        )
    );
    assert_eq!(
        "`aria-valuetext` is not supported on role \"button\".",
        message(
            ByRoleOptions::new()
                .value(ByRoleOptionsValue::new().text(Matcher::String("x".to_owned()))),
            AriaRole::Button
        )
    );
    // The first option that is not supported is the one reported.
    assert_eq!(
        "`aria-selected` is not supported on role \"button\".",
        message(ByRoleOptions::new().checked(true).selected(true), AriaRole::Button)
    );
}

fn page() -> Document {
    let mut doc = Document::new();
    let root = doc.push_root(Node::element("div"));
    let nav = doc.append_child(root, Node::element("nav")).unwrap();
    let list = doc.append_child(nav, Node::element("ul")).unwrap();
    doc.append_child(list, Node::element("li").accessible_name("one")).unwrap();
    doc.append_child(list, Node::element("li").display("none")).unwrap();
    doc.append_child(
        root,
        Node::element("div")
            .attribute("role", "  switch button")
            .accessible_name("power")
            .accessible_description("turns it on"),
    )
    .unwrap();
    doc.append_child(root, Node::element("div").attribute("role", "nothing listitem")).unwrap();
    doc
}

#[test]
fn roles_are_listed_with_their_elements() {
    let doc = page();
    let listed = |hidden: Option<bool>| -> Vec<(String, Vec<usize>)> {
        get_roles(&doc, 0, GetRolesOptions { hidden })
            .into_iter()
            .map(|group| (group.role.to_string(), group.elements))
            .collect()
    };
    assert_eq!(
        vec![
            ("generic".to_owned(), vec![0]),
            ("navigation".to_owned(), vec![1]),
            ("list".to_owned(), vec![2]),
            ("listitem".to_owned(), vec![3, 6]),
            ("switch".to_owned(), vec![5]),
        ],
        listed(None)
    );
    assert_eq!(
        vec![
            ("generic".to_owned(), vec![0]),
            ("navigation".to_owned(), vec![1]),
            ("list".to_owned(), vec![2]),
            ("listitem".to_owned(), vec![3, 4, 6]),
            ("switch".to_owned(), vec![5]),
        ],
        listed(Some(true))
    );
    let below: Vec<(String, Vec<usize>)> = get_roles(&doc, 2, GetRolesOptions { hidden: None })
        .into_iter()
        .map(|group| (group.role.to_string(), group.elements))
        .collect();
    assert_eq!(
        vec![("list".to_owned(), vec![2]), ("listitem".to_owned(), vec![3])],
        below
    );
}

#[test]
fn roles_are_printed_without_the_generic_role() {
    let doc = page();
    let bar = "-".repeat(50);
    assert_eq!(
        format!(
            "navigation:\n\nName \"\":\n<nav />\n\n{bar}\n\
             list:\n\nName \"\":\n<ul />\n\n{bar}\n\
             listitem:\n\nName \"one\":\n<li />\n\nName \"\":\n<div\n  role=nothing listitem\n/>\n\n{bar}\n\
             switch:\n\nName \"power\":\n<div\n  role=  switch button\n/>\n\n{bar}"
        ),
        pretty_roles(
            &doc,
            0,
            PrettyRolesOptions {
                hidden: None,
                include_description: None
            }
        )
    );
    assert_eq!(
        format!(
            "switch:\n\nName \"power\":\nDescription \"turns it on\":<div\n  role=  switch button\n/>\n\n{bar}"
        ),
        pretty_roles(
            &doc,
            5,
            PrettyRolesOptions {
                hidden: Some(true),
                include_description: Some(true)
            }
        )
    );
    assert_eq!(
        "",
        pretty_roles(
            &Document::new_with_root(),
            0,
            PrettyRolesOptions {
                hidden: None,
                include_description: None
            }
        )
    );
}
