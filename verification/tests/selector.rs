use testing_library_dom::document::Node;
use testing_library_dom::selector::{AttributeOperator, Selector, Test};

fn matches(selector: &str, node: &Node) -> bool {
    Selector::parse(selector)
        .expect("The selector should be read.")
        .matches(node)
}

#[test]
fn tag_names_match_whatever_their_case() {
    let node = Node::element("INPUT");
    assert!(matches("input", &node));
    assert!(matches("Input", &node));
    assert!(matches("*", &node));
    assert!(!matches("inputs", &node));
    assert!(!matches("button", &node));
}

#[test]
fn only_elements_match() {
    assert!(!matches("*", &Node::text("input")));
    assert!(!matches("*", &Node::comment("input")));
}

#[test]
fn attributes_match_by_presence_value_and_word() {
    let node = Node::element("div")
        .attribute("role", "button  switch")
        .attribute("id", "x")
        .attribute("class", "a b")
        .attribute("title", "");
    assert!(matches("[role]", &node));
    assert!(matches("[ role ]", &node));
    assert!(!matches("[rol]", &node));
    assert!(matches("[id=x]", &node));
    assert!(matches("[id=\"x\"]", &node));
    assert!(matches("[id='x']", &node));
    assert!(matches("[ id = 'x' ]", &node));
    assert!(!matches("[id=y]", &node));
    assert!(!matches("[role=button]", &node));
    assert!(matches("[role~=button]", &node));
    assert!(matches("[role~=\"switch\"]", &node));
    assert!(!matches("[role~=\"button  switch\"]", &node));
    assert!(!matches("[role~=butto]", &node));
    assert!(matches("#x", &node));
    assert!(!matches("#y", &node));
    assert!(matches(".a", &node));
    assert!(matches(".b", &node));
    assert!(matches(".a.b", &node));
    assert!(!matches(".c", &node));
    assert!(matches("[title]", &node));
    assert!(matches("[title=\"\"]", &node));
    assert!(!matches("[title]:not([title=\"\"])", &node));
    assert!(matches("[id]:not([id=\"\"])", &node));
}

#[test]
fn the_first_attribute_of_a_name_counts() {
    let node = Node::element("a")
        .attribute("href", "one")
        .attribute("href", "two");
    assert!(matches("[href=one]", &node));
    assert!(!matches("[href=two]", &node));
}

#[test]
fn compounds_and_lists_combine_tests() {
    let input = Node::element("input").attribute("type", "checkbox");
    assert!(matches("input[type=\"checkbox\"]", &input));
    assert!(!matches("input[type=\"radio\"]", &input));
    assert!(matches("input:not([list])", &input));
    assert!(!matches("input:not([type])", &input));
    assert!(matches("input:not( [type=radio] )", &input));
    assert!(!matches("*:not(input)", &input));
    assert!(matches("button, input", &input));
    assert!(matches("  button ,input  ", &input));
    assert!(matches("script, style, input[type]", &input));
    assert!(!matches("script, style", &input));
    assert!(matches("*[role~=\"checkbox\"],input", &input));
}

#[test]
fn what_is_no_selector_is_not_read() {
    for text in [
        "", " ", ",", "a,", ",a", "a,,b", "[", "[]", "[a", "[a=]", "[a=\"b]", "[a b]", "a b",
        "a > b", "a + b", "#", ".", ":not(a", ":not()", ":hover", "a:not(:not(b))", "[a^=b]",
        "a!", "[a='b\"]",
    ] {
        assert!(Selector::parse(text).is_none(), "{text:?} should not be read");
    }
}

#[test]
fn a_selector_is_read_into_its_tests() {
    let selector = Selector::parse("DIV#main.wide[data-x~='y'], :not([hidden])")
        .expect("The selector should be read.");
    assert_eq!(2, selector.alternatives.len());
    let first = &selector.alternatives[0];
    assert_eq!(4, first.len());
    assert!(!first[0].negated);
    assert!(matches!(&first[0].test, Test::Type(name) if name == "div"));
    assert!(matches!(
        &first[1].test,
        Test::Attribute { name, operator: AttributeOperator::Equals, value }
            if name == "id" && value == "main"
    ));
    assert!(matches!(
        &first[2].test,
        Test::Attribute { name, operator: AttributeOperator::Includes, value }
            if name == "class" && value == "wide"
    ));
    assert!(matches!(
        &first[3].test,
        Test::Attribute { name, operator: AttributeOperator::Includes, value }
            if name == "data-x" && value == "y"
    ));
    let second = &selector.alternatives[1];
    assert_eq!(1, second.len());
    assert!(second[0].negated);
    assert!(matches!(
        &second[0].test,
        Test::Attribute { name, operator: AttributeOperator::Exists, value }
            if name == "hidden" && value.is_empty()
    ));
    let universal = Selector::parse("*").expect("The selector should be read.");
    assert!(matches!(universal.alternatives[0][0].test, Test::Universal));
}
