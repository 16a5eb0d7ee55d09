use testing_library_dom::document::{Document, Node};
use testing_library_dom::label_helpers::{
    get_label_content, get_labels, get_real_labels, is_labelable,
};

#[test]
fn hidden_inputs_are_not_labelable() {
    let mut doc = Document::new();
    let root = doc.push_root(Node::element("div"));
    doc.append_child(root, Node::element("label").control(2)).unwrap();
    let element = doc
        .append_child(root, Node::element("input").attribute("type", "hidden"))
        .unwrap();

    let expected: Vec<usize> = vec![];
    assert_eq!(expected, get_real_labels(&doc, element));
    assert!(!is_labelable(&doc, element));
}

#[test]
fn form_controls_are_labelable() {
    for name in ["button", "meter", "output", "progress", "select", "textarea", "input", "INPUT"] {
        let mut doc = Document::new();
        doc.push_root(Node::element(name));
        assert!(is_labelable(&doc, 0), "{name} should be labelable");
    }
    for name in ["div", "label", "my-button", "buttons", "form"] {
        let mut doc = Document::new();
        doc.push_root(Node::element(name));
        assert!(!is_labelable(&doc, 0), "{name} should not be labelable");
    }
    let mut doc = Document::new();
    doc.push_root(Node::text("input"));
    assert!(!is_labelable(&doc, 0));
}

fn form() -> Document {
    let mut doc = Document::new();
    let root = doc.push_root(Node::element("form")); // 0
    let first = doc.append_child(root, Node::element("label").control(6)).unwrap(); // 1
    doc.append_child(first, Node::text("First ")).unwrap(); // 2
    let button = doc.append_child(first, Node::element("button")).unwrap(); // 3
    doc.append_child(button, Node::text("inside")).unwrap(); // 4
    doc.append_child(first, Node::text("name")).unwrap(); // 5
    doc.append_child(root, Node::element("input").attribute("id", "x").value("typed"))
        .unwrap(); // 6
    let second = doc.append_child(root, Node::element("label").control(6)).unwrap(); // 7
    let strong = doc.append_child(second, Node::element("strong")).unwrap(); // 8
    doc.append_child(strong, Node::text("Second")).unwrap(); // 9
    doc.append_child(second, Node::comment("no text")).unwrap(); // 10
    doc.append_child(root, Node::element("label").control(3)).unwrap(); // 11
    doc.append_child(root, Node::element("div").control(6)).unwrap(); // 12
    doc
}

#[test]
fn the_labels_of_a_control_are_the_label_elements_that_point_to_it() {
    let doc = form();
    assert_eq!(vec![1, 7], get_real_labels(&doc, 6));
    assert_eq!(vec![11], get_real_labels(&doc, 3));
    assert_eq!(Vec::<usize>::new(), get_real_labels(&doc, 0));
    assert_eq!(Vec::<usize>::new(), get_real_labels(&doc, 12));
}

#[test]
fn the_text_of_a_label_leaves_out_the_controls_inside_it() {
    let doc = form();
    assert_eq!(Some("First name".to_owned()), get_label_content(&doc, 1));
    assert_eq!(Some("Second".to_owned()), get_label_content(&doc, 7));
    assert_eq!(Some(String::new()), get_label_content(&doc, 11));
    // An input gives its value, another element all the text below it.
    assert_eq!(Some("typed".to_owned()), get_label_content(&doc, 6));
    assert_eq!(Some("inside".to_owned()), get_label_content(&doc, 3));
    assert_eq!(
        Some("First insidenameSecond".to_owned()),
        get_label_content(&doc, 0)
    );
}

#[test]
fn labels_hold_their_text_and_their_form_control() {
    let doc = form();
    let labels = get_labels(&doc, 0, 6, None);
    assert_eq!(2, labels.len());
    assert_eq!(Some("First name".to_owned()), labels[0].content);
    assert_eq!(Some(3), labels[0].form_control);
    assert_eq!(Some("Second".to_owned()), labels[1].content);
    assert_eq!(None, labels[1].form_control);

    let labels = get_labels(&doc, 0, 6, Some("input"));
    assert_eq!(None, labels[0].form_control);
    let labels = get_labels(&doc, 0, 6, Some("button, input"));
    assert_eq!(Some(3), labels[0].form_control);
    let labels = get_labels(&doc, 0, 6, Some("not a selector"));
    assert_eq!(None, labels[0].form_control);

    assert_eq!(0, get_labels(&doc, 0, 0, None).len());
}

#[test]
fn aria_labelledby_names_the_labels_by_their_ids() {
    let mut doc = Document::new();
    let root = doc.push_root(Node::element("div")); // 0
    let a = doc.append_child(root, Node::element("span").attribute("id", "a")).unwrap(); // 1
    doc.append_child(a, Node::text("Alpha")).unwrap(); // 2
    let inner = doc.append_child(root, Node::element("div")).unwrap(); // 3
    let b = doc.append_child(inner, Node::element("input").attribute("id", "b").value("Beta"))
        .unwrap(); // 4
    doc.append_child(inner, Node::element("span").attribute("id", "a")).unwrap(); // 5
    let target = doc
        .append_child(
            root,
            Node::element("section").attribute("aria-labelledby", "b a\tmissing  a"),
        )
        .unwrap(); // 6
    assert_eq!(4, b);

    let labels = get_labels(&doc, root, target, None);
    let contents: Vec<Option<String>> = labels.iter().map(|label| label.content.clone()).collect();
    assert_eq!(
        vec![
            Some("Beta".to_owned()),
            Some("Alpha".to_owned()),
            Some(String::new()),
            Some(String::new()),
            Some("Alpha".to_owned()),
        ],
        contents
    );
    assert!(labels.iter().all(|label| label.form_control.is_none()));

    // Only what is below the container is looked at.
    let labels = get_labels(&doc, inner, target, None);
    let contents: Vec<Option<String>> = labels.iter().map(|label| label.content.clone()).collect();
    assert_eq!(
        vec![
            Some("Beta".to_owned()),
            Some(String::new()),
            Some(String::new()),
            Some(String::new()),
            Some(String::new()),
        ],
        contents
    );
}
