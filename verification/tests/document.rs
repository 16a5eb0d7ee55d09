use testing_library_dom::document::{Document, Node, NodeKind};
use testing_library_dom::get_node_text::get_node_text;

#[test]
fn nodes_are_added_in_document_order() {
    let mut doc = Document::new();
    assert_eq!(0, doc.node_count());
    let root = doc.push_root(Node::element("div"));
    let a = doc.append_child(root, Node::element("p")).unwrap();
    let text = doc.append_child(a, Node::text("one")).unwrap();
    let b = doc.append_child(root, Node::element("p")).unwrap();
    assert_eq!((0, 1, 2, 3), (root, a, text, b));
    assert_eq!(4, doc.node_count());
    assert_eq!(Some(root), doc.node(a).parent);
    assert_eq!(Some(a), doc.node(text).parent);
    assert_eq!(Some(root), doc.node(b).parent);
    assert_eq!(None, doc.node(root).parent);
    assert_eq!(NodeKind::Text, doc.node(text).kind);
    assert_eq!("one", doc.node(text).data);
}

#[test]
fn a_child_is_added_below_the_last_node_or_its_ancestors_only() {
    let mut doc = Document::new();
    let root = doc.push_root(Node::element("div"));
    let a = doc.append_child(root, Node::element("p")).unwrap();
    let text = doc.append_child(a, Node::text("one")).unwrap();
    let b = doc.append_child(root, Node::element("p")).unwrap();

    // `a` is closed: `b` has come after it.
    assert_eq!(None, doc.append_child(a, Node::element("span")));
    // A text has no children.
    assert_eq!(None, doc.append_child(text, Node::element("span")));
    // There is no such node.
    assert_eq!(None, doc.append_child(17, Node::element("span")));
    assert_eq!(4, doc.node_count());

    assert_eq!(Some(4), doc.append_child(b, Node::element("span")));
    assert_eq!(Some(5), doc.append_child(root, Node::element("span")));
    assert_eq!(6, doc.node_count());
}

#[test]
fn the_parent_given_with_a_node_is_not_taken_over() {
    let mut doc = Document::new();
    let mut node = Node::element("div");
    node.parent = Some(12);
    let root = doc.push_root(node);
    assert_eq!(None, doc.node(root).parent);
    let mut child = Node::element("p");
    child.parent = Some(9);
    let child = doc.append_child(root, child).unwrap();
    assert_eq!(Some(root), doc.node(child).parent);
}

#[test]
fn ancestors_are_found_up_the_tree() {
    let mut doc = Document::new();
    let root = doc.push_root(Node::element("div"));
    let a = doc.append_child(root, Node::element("p")).unwrap();
    let text = doc.append_child(a, Node::text("one")).unwrap();
    let b = doc.append_child(root, Node::element("p")).unwrap();
    assert!(doc.is_ancestor_or_self(root, text));
    assert!(doc.is_ancestor_or_self(a, text));
    assert!(doc.is_ancestor_or_self(text, text));
    assert!(!doc.is_ancestor_or_self(b, text));
    assert!(!doc.is_ancestor_or_self(text, a));
    assert!(doc.is_below(text, root));
    assert!(!doc.is_below(root, root));
    assert!(!doc.is_below(b, a));
}

#[test]
fn attributes_are_read_by_name() {
    let node = Node::element("input")
        .attribute("type", "text")
        .attribute("value", "");
    assert_eq!(Some(&"text".to_owned()), node.get_attribute("type"));
    assert_eq!(Some(&String::new()), node.get_attribute("value"));
    assert_eq!(None, node.get_attribute("Type"));
    assert!(node.has_attribute("value"));
    assert!(!node.has_attribute("name"));
    assert!(node.is_named("input"));
    assert!(!node.is_named("INPUT"));
    assert!(Node::element("INPUT").is_named("input"));
    assert!(!Node::text("input").is_named("input"));
}

#[test]
fn the_type_of_an_input_is_text_unless_it_names_another() {
    assert_eq!("text", Node::element("input").get_input_type());
    assert_eq!(
        "text",
        Node::element("input").attribute("type", "text").get_input_type()
    );
    assert_eq!(
        "checkbox",
        Node::element("input").attribute("type", "CheckBox").get_input_type()
    );
    assert_eq!(
        "text",
        Node::element("input").attribute("type", "no-such").get_input_type()
    );
    assert_eq!(
        "datetime-local",
        Node::element("input")
            .attribute("type", "datetime-local")
            .get_input_type()
    );
}

#[test]
fn a_new_element_is_displayed_and_visible() {
    let node = Node::element("div");
    assert!(!node.hidden);
    assert_eq!("block", node.display);
    assert_eq!("visible", node.visibility);
    assert_eq!(None, node.value);
    let node = node
        .hidden(true)
        .display("none")
        .visibility("hidden")
        .value("v")
        .checked(true)
        .indeterminate(true)
        .selected(true)
        .control(4)
        .accessible_name("name")
        .accessible_description("description");
    assert!(node.hidden && node.checked && node.indeterminate && node.selected);
    assert_eq!("none", node.display);
    assert_eq!("hidden", node.visibility);
    assert_eq!(Some("v".to_owned()), node.value);
    assert_eq!(Some(4), node.control);
    assert_eq!("name", node.accessible_name);
    assert_eq!("description", node.accessible_description);
}

#[test]
fn it_prints_out_the_text_content_of_a_container() {
    let mut doc = Document::new();
    let container = doc.push_root(Node::element("div"));
    doc.append_child(container, Node::text("Hello ")).unwrap();
    doc.append_child(container, Node::comment("skipped")).unwrap();
    let inner = doc.append_child(container, Node::element("b")).unwrap();
    doc.append_child(inner, Node::text("not mine")).unwrap();
    doc.append_child(container, Node::text("World!")).unwrap();

    assert_eq!("Hello World!", get_node_text(&doc, container));
    assert_eq!("not mine", get_node_text(&doc, inner));
}

#[test]
fn it_prints_out_the_value_for_submit_and_button_inputs() {
    let mut doc = Document::new();
    let container = doc.push_root(Node::element("div"));
    let first = doc
        .append_child(
            container,
            Node::element("input").attribute("type", "submit").value("save"),
        )
        .unwrap();
    let last = doc
        .append_child(
            container,
            Node::element("input").attribute("type", "button").value("reset"),
        )
        .unwrap();
    let plain = doc
        .append_child(container, Node::element("input").value("typed"))
        .unwrap();

    assert_eq!("save", get_node_text(&doc, first));
    assert_eq!("reset", get_node_text(&doc, last));
    assert_eq!("", get_node_text(&doc, plain));
}
