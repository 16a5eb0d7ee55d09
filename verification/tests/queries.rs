use aria_query::AriaRole;
use testing_library_dom::document::{Document, Node};
use testing_library_dom::error::QueryError;
use testing_library_dom::queries::label_text::{get_by_label_text, query_all_by_label_text};
use testing_library_dom::queries::role::{get_by_role, query_all_by_role};
use testing_library_dom::queries::test_id::{
    get_by_test_id, query_all_by_test_id, query_by_test_id,
};
use testing_library_dom::queries::text::{get_by_text, query_all_by_text, query_by_text};
use testing_library_dom::types::config::Config;
use testing_library_dom::types::matches::{Matcher, MatcherOptions, SelectorMatcherOptions};
use testing_library_dom::types::queries::ByRoleOptions;

fn text(value: &str) -> Matcher {
    Matcher::String(value.to_owned())
}

#[test]
fn two_elements_with_one_test_id_are_multiple() {
    let mut doc = Document::new();
    let root = doc.push_root(Node::element("div"));
    let first = doc
        .append_child(root, Node::element("span").attribute("data-testid", "dup"))
        .unwrap();
    let second = doc
        .append_child(root, Node::element("span").attribute("data-testid", "dup"))
        .unwrap();
    let config = Config::default();
    let options = MatcherOptions::new();

    let all = query_all_by_test_id(&doc, &config, root, &text("dup"), &options).unwrap();
    assert_eq!(vec![first, second], all);

    let error = get_by_test_id(&doc, &config, root, &text("dup"), &options).unwrap_err();
    assert!(matches!(error, QueryError::Element(_)));
    assert!(error.to_string().contains("multiple"));
    assert!(error
        .to_string()
        .starts_with("Found multiple elements by: [data-testid=\"dup\"]"));

    let error = query_by_test_id(&doc, &config, root, &text("dup"), &options).unwrap_err();
    assert!(error.to_string().contains("multiple"));
}

#[test]
fn nothing_found_is_none_or_an_element_error() {
    let mut doc = Document::new();
    let root = doc.push_root(Node::element("div"));
    doc.append_child(root, Node::text("hello")).unwrap();
    let config = Config::default();
    let options = SelectorMatcherOptions::new();

    assert_eq!(
        Ok(None),
        query_by_text(&doc, &config, root, &text("absent"), &options)
    );
    assert_eq!(
        Ok(vec![]),
        query_all_by_text(&doc, &config, root, &text("absent"), &options)
    );
    let error = get_by_text(&doc, &config, root, &text("absent"), &options).unwrap_err();
    assert!(matches!(error, QueryError::Element(_)));
    assert!(error
        .to_string()
        .starts_with("Unable to find an element with the text: absent. This could be because"));
    assert_eq!(
        Ok(root),
        get_by_text(&doc, &config, root, &text("hello"), &options)
    );
}

#[test]
fn a_label_round_an_input_labels_it() {
    let mut doc = Document::new();
    let root = doc.push_root(Node::element("div"));
    let mut label = Node::element("label");
    label.control = Some(3);
    let label = doc.append_child(root, label).unwrap();
    doc.append_child(label, Node::text("Name")).unwrap();
    let input = doc
        .append_child(label, Node::element("input").attribute("id", "x"))
        .unwrap();
    assert_eq!(3, input);
    let config = Config::default();
    let options = SelectorMatcherOptions::new();

    assert_eq!(
        Ok(input),
        get_by_label_text(&doc, &config, root, &text("Name"), &options)
    );
}

#[test]
fn aria_labelledby_names_the_label() {
    let mut doc = Document::new();
    let root = doc.push_root(Node::element("div"));
    let heading = doc
        .append_child(root, Node::element("h1").attribute("id", "h"))
        .unwrap();
    doc.append_child(heading, Node::text("Title")).unwrap();
    let section = doc
        .append_child(root, Node::element("section").attribute("aria-labelledby", "h"))
        .unwrap();
    doc.append_child(section, Node::text("content")).unwrap();
    let config = Config::default();
    let options = SelectorMatcherOptions::new();

    assert_eq!(
        Ok(section),
        get_by_label_text(&doc, &config, root, &text("Title"), &options)
    );
    assert_eq!(
        Ok(vec![section]),
        query_all_by_label_text(&doc, &config, root, &text("Title"), &options)
    );
}

#[test]
fn an_option_that_the_role_lacks_is_unsupported() {
    let mut doc = Document::new();
    let root = doc.push_root(Node::element("div"));
    let config = Config::default();
    let options = ByRoleOptions::new().selected(true);

    let error = query_all_by_role(&doc, &config, root, AriaRole::Textbox, &options).unwrap_err();
    assert!(matches!(error, QueryError::Unsupported(_)));
    assert!(error.to_string().contains("aria-selected"));
    assert!(error.to_string().contains("textbox"));
    assert_eq!(
        "`aria-selected` is not supported on role \"textbox\".",
        error.to_string()
    );
}

#[test]
fn roles_are_found_by_attribute_and_by_tag() {
    let mut doc = Document::new();
    let root = doc.push_root(Node::element("div"));
    let explicit = doc
        .append_child(root, Node::element("div").attribute("role", "button"))
        .unwrap();
    let implicit = doc.append_child(root, Node::element("button")).unwrap();
    let textbox = doc.append_child(root, Node::element("input")).unwrap();
    let checkbox = doc
        .append_child(root, Node::element("input").attribute("type", "checkbox"))
        .unwrap();
    let config = Config::default();
    let options = ByRoleOptions::new();

    assert_eq!(
        Ok(vec![explicit, implicit]),
        query_all_by_role(&doc, &config, root, AriaRole::Button, &options)
    );
    assert_eq!(
        Ok(textbox),
        get_by_role(&doc, &config, root, AriaRole::Textbox, &options)
    );
    assert_eq!(
        Ok(checkbox),
        get_by_role(&doc, &config, root, AriaRole::Checkbox, &options)
    );
}

// ---------------------------------------------------------------------------

use regex::Regex;
use testing_library_dom::queries::alt_text::{get_by_alt_text, query_all_by_alt_text};
use testing_library_dom::queries::display_value::{
    get_by_display_value, query_all_by_display_value,
};
use testing_library_dom::queries::placeholder_text::{
    get_all_by_placeholder_text, query_by_placeholder_text,
};
use testing_library_dom::queries::role::{get_all_by_role, query_by_role};
use testing_library_dom::queries::test_id::get_all_by_test_id;
use testing_library_dom::queries::text::get_all_by_text;
use testing_library_dom::queries::title::{get_by_title, query_all_by_title};
use testing_library_dom::queries::{get, query, query_all, Query};
use testing_library_dom::query_helpers::{query_all_by_attribute, query_by_attribute};
use testing_library_dom::types::config::PartialConfig;
use testing_library_dom::types::matches::{Ignore, MatcherFunction, NormalizerFn};
use testing_library_dom::types::queries::{ByRoleOptionsCurrent, ByRoleOptionsValue};
use testing_library_dom::get_queries_for_element::{get_queries_for_element, within};

fn article() -> Document {
    let mut doc = Document::new();
    let root = doc.push_root(Node::element("article")); // 0
    let h = doc.append_child(root, Node::element("h1").attribute("title", "Top")).unwrap(); // 1
    doc.append_child(h, Node::text("  Hello   World ")).unwrap(); // 2
    let p = doc.append_child(root, Node::element("p")).unwrap(); // 3
    doc.append_child(p, Node::text("hello world")).unwrap(); // 4
    let script = doc.append_child(root, Node::element("script")).unwrap(); // 5
    doc.append_child(script, Node::text("Hello World")).unwrap(); // 6
    let span = doc.append_child(root, Node::element("span").attribute("class", "x")).unwrap(); // 7
    doc.append_child(span, Node::text("Hello World")).unwrap(); // 8
    doc
}

#[test]
fn texts_are_trimmed_and_collapsed_before_they_are_compared() {
    let doc = article();
    let config = Config::default();
    let options = SelectorMatcherOptions::new();
    assert_eq!(
        Ok(vec![1, 7]),
        query_all_by_text(&doc, &config, 0, &text("Hello World"), &options)
    );
    assert_eq!(
        Ok(vec![7]),
        query_all_by_text(
            &doc,
            &config,
            0,
            &text("Hello World"),
            &SelectorMatcherOptions::new().collapse_whitespace(false)
        )
    );
    assert_eq!(
        Ok(vec![7]),
        query_all_by_text(
            &doc,
            &config,
            0,
            &text("Hello World"),
            &SelectorMatcherOptions::new().trim(false)
        )
    );
    assert_eq!(
        Ok(vec![1]),
        query_all_by_text(
            &doc,
            &config,
            0,
            &text("  Hello   World "),
            &SelectorMatcherOptions::new().trim(false).collapse_whitespace(false)
        )
    );
}

#[test]
fn a_fuzzy_query_ignores_case() {
    let doc = article();
    let config = Config::default();
    assert_eq!(
        Ok(vec![1, 3, 7]),
        query_all_by_text(
            &doc,
            &config,
            0,
            &text("HELLO world"),
            &SelectorMatcherOptions::new().exact(false)
        )
    );
    assert_eq!(
        Ok(vec![]),
        query_all_by_text(
            &doc,
            &config,
            0,
            &text("HELLO"),
            &SelectorMatcherOptions::new().exact(false)
        )
    );
}

#[test]
fn ignore_and_selector_choose_the_elements() {
    let doc = article();
    let config = Config::default();
    assert_eq!(
        Ok(vec![1, 5, 7]),
        query_all_by_text(
            &doc,
            &config,
            0,
            &text("Hello World"),
            &SelectorMatcherOptions::new().ignore(Ignore::False)
        )
    );
    assert_eq!(
        Ok(vec![5, 7]),
        query_all_by_text(
            &doc,
            &config,
            0,
            &text("Hello World"),
            &SelectorMatcherOptions::new().ignore(Ignore::String("h1".to_owned()))
        )
    );
    assert_eq!(
        Ok(vec![1, 5, 7]),
        query_all_by_text(
            &doc,
            &config,
            0,
            &text("Hello World"),
            &SelectorMatcherOptions::new().ignore("not a selector".to_owned().into())
        )
    );
    assert_eq!(
        Ok(vec![7]),
        query_all_by_text(
            &doc,
            &config,
            0,
            &text("Hello World"),
            &SelectorMatcherOptions::new().selector("span, p")
        )
    );
    assert_eq!(
        Ok(vec![7]),
        query_all_by_text(
            &doc,
            &config,
            0,
            &text("Hello World"),
            &SelectorMatcherOptions::new().selector(".x")
        )
    );
    let mut other = Config::default();
    other.update(PartialConfig::default().default_ignore("span".to_owned()));
    assert_eq!(
        Ok(vec![1, 5]),
        query_all_by_text(&doc, &other, 0, &text("Hello World"), &SelectorMatcherOptions::new())
    );
    // Only the container and what is below it is looked at.
    assert_eq!(
        Ok(vec![7]),
        query_all_by_text(&doc, &config, 7, &text("Hello World"), &SelectorMatcherOptions::new())
    );
    assert_eq!(
        Ok(vec![]),
        query_all_by_text(&doc, &config, 3, &text("Hello World"), &SelectorMatcherOptions::new())
    );
}

#[test]
fn a_text_that_is_no_selector_is_an_error_of_the_document() {
    let doc = article();
    let config = Config::default();
    assert_eq!(
        Err(QueryError::JsError("'p >' is not a valid selector".to_owned())),
        query_all_by_text(
            &doc,
            &config,
            0,
            &text("Hello World"),
            &SelectorMatcherOptions::new().selector("p >")
        )
    );
    assert_eq!(
        Err(QueryError::JsError("'[my id]' is not a valid selector".to_owned())),
        query_all_by_attribute("my id", &doc, 0, &text("x"), &MatcherOptions::new())
    );
    let mut other = Config::default();
    other.update(PartialConfig::default().test_id_attribute("data test".to_owned()));
    assert_eq!(
        Err(QueryError::JsError("'[data test]' is not a valid selector".to_owned())),
        get_by_test_id(&doc, &other, 0, &text("x"), &MatcherOptions::new())
    );
}

struct Shout;

impl NormalizerFn for Shout {
    fn normalize(&self, text: &str) -> String {
        text.trim().to_uppercase()
    }
}

struct LongerThan(usize);

impl MatcherFunction for LongerThan {
    fn test(&self, text: &str, node: Option<usize>) -> bool {
        node.is_some() && text.len() > self.0
    }
}

#[test]
fn the_callers_own_functions_take_part() {
    let doc = article();
    let config = Config::default();
    // The normalizer of the caller is used as it is: nothing is collapsed.
    assert_eq!(
        Ok(vec![3, 7]),
        query_all_by_text(
            &doc,
            &config,
            0,
            &text("HELLO WORLD"),
            &SelectorMatcherOptions::new().normalizer(Box::new(Shout))
        )
    );
    assert_eq!(
        Ok(vec![1]),
        query_all_by_text(
            &doc,
            &config,
            0,
            &Matcher::Function(Box::new(LongerThan(11))),
            &SelectorMatcherOptions::new().trim(false).collapse_whitespace(false)
        )
    );
    assert_eq!(
        Ok(vec![1, 3, 7]),
        query_all_by_text(
            &doc,
            &config,
            0,
            &Matcher::Regex(Regex::new("(?i)^hello\\s").unwrap()),
            &SelectorMatcherOptions::new()
        )
    );
    assert_eq!(
        Ok(vec![3]),
        query_all_by_text(
            &doc,
            &config,
            0,
            &Matcher::Regex(Regex::new("^h").unwrap()),
            &SelectorMatcherOptions::new().exact(false)
        )
    );
}

#[test]
fn a_normalizer_cannot_be_combined_with_trim_or_collapse() {
    let doc = article();
    let config = Config::default();
    for options in [
        SelectorMatcherOptions::new().trim(true).normalizer(Box::new(Shout)),
        SelectorMatcherOptions::new().trim(false).normalizer(Box::new(Shout)),
        SelectorMatcherOptions::new().collapse_whitespace(true).normalizer(Box::new(Shout)),
        SelectorMatcherOptions::new()
            .collapse_whitespace(false)
            .trim(false)
            .normalizer(Box::new(Shout)),
    ] {
        let error = query_all_by_text(&doc, &config, 0, &text("x"), &options).unwrap_err();
        assert!(matches!(error, QueryError::Configuration(_)));
        assert!(error.to_string().starts_with("invalid configuration: \n`trim` and `collapse_whitespace` are not supported with a normalizer."));
        let error = get_by_text(&doc, &config, 0, &text("x"), &options).unwrap_err();
        assert!(matches!(error, QueryError::Configuration(_)));
    }
    let options = MatcherOptions::new().trim(true).normalizer(Box::new(Shout));
    assert!(matches!(
        query_all_by_title(&doc, &config, 0, &text("x"), &options),
        Err(QueryError::Configuration(_))
    ));
    assert!(matches!(
        query_all_by_display_value(&doc, &config, 0, &text("x"), &options),
        Err(QueryError::Configuration(_))
    ));
    assert!(matches!(
        query_all_by_alt_text(&doc, &config, 0, &text("x"), &options),
        Err(QueryError::Configuration(_))
    ));
    let options = SelectorMatcherOptions::new().trim(true).normalizer(Box::new(Shout));
    assert!(matches!(
        query_all_by_label_text(&doc, &config, 0, &text("x"), &options),
        Err(QueryError::Configuration(_))
    ));
}

#[test]
fn the_message_for_a_missing_text_names_what_was_looked_for() {
    let doc = article();
    let config = Config::default();
    let hint = ". This could be because the text is broken up by multiple elements. In this case, you can provide a function for your text matcher to make your matcher more flexible.";
    let message = |value: &str, options: &SelectorMatcherOptions| -> String {
        let error = get_by_text(&doc, &config, 3, &text(value), options).unwrap_err();
        let shown = error.to_string();
        shown[..shown.find("\n\nIgnored nodes").unwrap()].to_owned()
    };
    assert_eq!(
        format!("Unable to find an element with the text: absent{hint}"),
        message("absent", &SelectorMatcherOptions::new())
    );
    assert_eq!(
        format!("Unable to find an element with the text: a b (normalized from ' a  b '){hint}"),
        message(" a  b ", &SelectorMatcherOptions::new())
    );
    assert_eq!(
        format!("Unable to find an element with the text: absent, which matches selector 'b'{hint}"),
        message("absent", &SelectorMatcherOptions::new().selector("b"))
    );
    assert_eq!(
        format!("Unable to find an element with the text: absent{hint}"),
        message("absent", &SelectorMatcherOptions::new().selector("*"))
    );
    assert_eq!(
        format!("Unable to find an element with the text: ABSENT (normalized from 'absent'){hint}"),
        message("absent", &SelectorMatcherOptions::new().normalizer(Box::new(Shout)))
    );
    let error = get_all_by_text(&doc, &config, 3, &text("absent"), &SelectorMatcherOptions::new())
        .unwrap_err();
    assert_eq!(
        format!("Unable to find an element with the text: absent{hint}\n\nIgnored nodes: comments, script, style\n<p>\n  hello world\n</p>"),
        error.to_string()
    );
}

#[test]
fn several_elements_are_listed_in_the_error() {
    let doc = article();
    let config = Config::default();
    let error = get_by_text(&doc, &config, 0, &text("Hello World"), &SelectorMatcherOptions::new())
        .unwrap_err();
    assert_eq!(
        "Found multiple elements with the text: Hello World\n\n\
         Here are the matching elements:\n\n\
         Ignored nodes: comments, script, style\n<h1\n  title=Top\n>\n    Hello   World \n</h1>\n\n\
         Ignored nodes: comments, script, style\n<span\n  class=x\n>\n  Hello World\n</span>\n\n\
         (If this is intentional, then use the `*_all_by_*` variant of the query (like `query_all_by_text`, `get_all_by_text`, or `find_all_by_text`)).\n\n\
         Ignored nodes: comments, script, style\n\
         <article>\n  <h1\n    title=Top\n  >\n      Hello   World \n  </h1>\n  <p>\n    hello world\n  </p>\n  <span\n    class=x\n  >\n    Hello World\n  </span>\n</article>",
        error.to_string()
    );
    assert_eq!(
        Err(error),
        query_by_text(&doc, &config, 0, &text("Hello World"), &SelectorMatcherOptions::new())
    );
}

struct Brief;

impl testing_library_dom::types::config::GetElementErrorFn for Brief {
    fn build(&self, message: Option<String>, _doc: &Document, container: usize) -> QueryError {
        QueryError::Element(format!("<{}|{container}>", message.unwrap_or_default()))
    }
}

#[test]
fn the_family_reports_with_the_element_error_of_the_configuration() {
    let doc = article();
    let mut config = Config::default();
    config.update(PartialConfig::default().get_element_error(Box::new(Brief)));

    // Nothing found: the message of the query, for the container.
    assert_eq!(
        Err(QueryError::Element(
            "<Unable to find an element with the title: none|0>".to_owned()
        )),
        get_by_title(&doc, &config, 0, &text("none"), &MatcherOptions::new())
    );
    // Several found: each is shown as an error without a message shows it.
    assert_eq!(
        Err(QueryError::Element(
            "<Found multiple elements with the text: Hello World\n\n\
             Here are the matching elements:\n\n<|1>\n\n<|7>\n\n\
             (If this is intentional, then use the `*_all_by_*` variant of the query (like `query_all_by_text`, `get_all_by_text`, or `find_all_by_text`)).|0>"
                .to_owned()
        )),
        query_by_text(&doc, &config, 0, &text("Hello World"), &SelectorMatcherOptions::new())
    );
    // An error of the query itself is not the configuration's to build.
    assert_eq!(
        Err(QueryError::JsError("'a b' is not a valid selector".to_owned())),
        get_by_text(
            &doc,
            &config,
            0,
            &text("Hello World"),
            &SelectorMatcherOptions::new().selector("a b")
        )
    );
}

#[test]
fn titles_are_attributes_or_the_titles_of_drawings() {
    let mut doc = Document::new();
    let root = doc.push_root(Node::element("div").attribute("title", "outer")); // 0
    doc.append_child(root, Node::element("span").attribute("title", "Delete")).unwrap(); // 1
    let svg = doc.append_child(root, Node::element("svg")).unwrap(); // 2
    let title = doc.append_child(svg, Node::element("title")).unwrap(); // 3
    doc.append_child(title, Node::text("Close")).unwrap(); // 4
    let group = doc.append_child(svg, Node::element("g")).unwrap(); // 5
    let deep = doc.append_child(group, Node::element("title")).unwrap(); // 6
    doc.append_child(deep, Node::text("Close")).unwrap(); // 7
    let head = doc.append_child(root, Node::element("head")).unwrap(); // 8
    let page = doc.append_child(head, Node::element("title").attribute("title", "Close")).unwrap(); // 9
    doc.append_child(page, Node::text("Page")).unwrap(); // 10
    let config = Config::default();
    let options = MatcherOptions::new();

    assert_eq!(Ok(1), get_by_title(&doc, &config, 0, &text("Delete"), &options));
    assert_eq!(
        Ok(vec![3, 9]),
        query_all_by_title(&doc, &config, 0, &text("Close"), &options)
    );
    assert_eq!(Ok(vec![]), query_all_by_title(&doc, &config, 0, &text("Page"), &options));
    assert_eq!(Ok(vec![]), query_all_by_title(&doc, &config, 0, &text("outer"), &options));
    let error = get_by_title(&doc, &config, 8, &text("Delete"), &options).unwrap_err();
    assert!(error
        .to_string()
        .starts_with("Unable to find an element with the title: Delete\n\n"));
    let error = get_by_title(&doc, &config, 0, &text("Close"), &options).unwrap_err();
    assert!(error
        .to_string()
        .starts_with("Found multiple elements with the title: Close\n\n"));
}

#[test]
fn form_controls_are_found_by_the_value_that_they_show() {
    let mut doc = Document::new();
    let root = doc.push_root(Node::element("form")); // 0
    doc.append_child(root, Node::element("input").value("Norris")).unwrap(); // 1
    doc.append_child(root, Node::element("textarea").value("Norris")).unwrap(); // 2
    let select = doc.append_child(root, Node::element("select").value("n")).unwrap(); // 3
    let first = doc.append_child(select, Node::element("option")).unwrap(); // 4
    doc.append_child(first, Node::text("Chuck")).unwrap(); // 5
    let group = doc.append_child(select, Node::element("optgroup")).unwrap(); // 6
    let second = doc.append_child(group, Node::element("option").selected(true)).unwrap(); // 7
    doc.append_child(second, Node::text("Norris")).unwrap(); // 8
    doc.append_child(root, Node::element("div").value("Norris")).unwrap(); // 9
    doc.append_child(root, Node::element("option").selected(true)).unwrap(); // 10
    doc.append_child(root, Node::element("input")).unwrap(); // 11
    let config = Config::default();
    let options = MatcherOptions::new();

    assert_eq!(
        Ok(vec![1, 2, 3]),
        query_all_by_display_value(&doc, &config, 0, &text("Norris"), &options)
    );
    assert_eq!(
        Ok(vec![]),
        query_all_by_display_value(&doc, &config, 0, &text("Chuck"), &options)
    );
    assert_eq!(
        Ok(vec![]),
        query_all_by_display_value(&doc, &config, 0, &text("n"), &options)
    );
    assert_eq!(Ok(11), get_by_display_value(&doc, &config, 0, &text(""), &options));
    // The container itself is not found.
    assert_eq!(
        Ok(vec![]),
        query_all_by_display_value(&doc, &config, 3, &text("Norris"), &options)
    );
    let error = get_by_display_value(&doc, &config, 0, &text("Chuck"), &options).unwrap_err();
    assert!(error
        .to_string()
        .starts_with("Unable to find an element with the display value: Chuck\n\n"));
}

#[test]
fn alt_texts_belong_to_images_inputs_areas_and_custom_elements() {
    let mut doc = Document::new();
    let root = doc.push_root(Node::element("div")); // 0
    for name in ["img", "IMG", "input", "area", "my-image", "div", "-x", "x-", "a-b-c"] {
        doc.append_child(root, Node::element(name).attribute("alt", "logo")).unwrap();
    }
    doc.append_child(root, Node::element("img").attribute("alt", "other")).unwrap(); // 10
    doc.append_child(root, Node::element("img")).unwrap(); // 11
    let config = Config::default();
    let options = MatcherOptions::new();

    assert_eq!(
        Ok(vec![1, 2, 3, 4, 5, 9]),
        query_all_by_alt_text(&doc, &config, 0, &text("logo"), &options)
    );
    assert_eq!(Ok(10), get_by_alt_text(&doc, &config, 0, &text("other"), &options));
    assert_eq!(
        Ok(vec![1, 2, 3, 4, 5, 6, 7, 8, 9]),
        query_all_by_attribute("alt", &doc, 0, &text("logo"), &options)
    );
    let error = get_by_alt_text(&doc, &config, 0, &text("none"), &options).unwrap_err();
    assert!(error
        .to_string()
        .starts_with("Unable to find an element with the alt text: none\n\n"));
    let error = get_by_alt_text(&doc, &config, 0, &text("logo"), &options).unwrap_err();
    assert!(error
        .to_string()
        .starts_with("Found multiple elements with the alt text: logo\n\n"));
}

#[test]
fn placeholders_and_other_attributes_are_compared() {
    let mut doc = Document::new();
    let root = doc.push_root(Node::element("div").attribute("placeholder", "Name"));
    let a = doc.append_child(root, Node::element("input").attribute("placeholder", " Name ")).unwrap();
    let b = doc.append_child(root, Node::element("input").attribute("placeholder", "name")).unwrap();
    doc.append_child(root, Node::element("input").attribute("data-placeholder", "Name")).unwrap();
    let config = Config::default();

    assert_eq!(
        Ok(Some(a)),
        query_by_placeholder_text(&doc, &config, root, &text("Name"), &MatcherOptions::new())
    );
    assert_eq!(
        Ok(vec![a, b]),
        get_all_by_placeholder_text(
            &doc,
            &config,
            root,
            &text("NAME"),
            &MatcherOptions::new().exact(false).suggest(false)
        )
    );
    assert_eq!(
        Ok(None),
        query_by_placeholder_text(&doc, &config, a, &text("Name"), &MatcherOptions::new())
    );
    assert_eq!(
        Ok(Some(b)),
        query_by_attribute("placeholder", &doc, &config, root, &text("name"), &MatcherOptions::new())
    );
    let error = query_by_attribute(
        "placeholder",
        &doc,
        &config,
        root,
        &text("name"),
        &MatcherOptions::new().exact(false),
    )
    .unwrap_err();
    assert!(error.to_string().starts_with(
        "Found multiple elements by [placeholder=name]\n\n(If this is intentional"
    ));
    let error = get_all_by_placeholder_text(&doc, &config, root, &text("x"), &MatcherOptions::new())
        .unwrap_err();
    assert!(error
        .to_string()
        .starts_with("Unable to find an element with the placeholder text: x\n\n"));
    let error = get_all_by_test_id(&doc, &config, root, &text("x"), &MatcherOptions::new())
        .unwrap_err();
    assert!(error
        .to_string()
        .starts_with("Unable to find an element by: [data-testid=\"x\"]\n\n"));
}

#[test]
fn numbers_are_compared_by_their_text() {
    let mut doc = Document::new();
    let root = doc.push_root(Node::element("div"));
    let a = doc.append_child(root, Node::element("b").attribute("data-testid", " 5 ")).unwrap();
    doc.append_child(root, Node::element("b").attribute("data-testid", "5.0")).unwrap();
    let config = Config::default();
    assert_eq!(
        Ok(a),
        get_by_test_id(&doc, &config, root, &Matcher::Number("5".to_owned()), &MatcherOptions::new())
    );
    assert_eq!(
        Ok(a),
        get_by_test_id(
            &doc,
            &config,
            root,
            &Matcher::Number("5".to_owned()),
            &MatcherOptions::new().exact(false)
        )
    );
}

#[test]
fn labels_are_joined_and_tried_one_by_one() {
    let mut doc = Document::new();
    let root = doc.push_root(Node::element("div")); // 0
    for (id, label) in [("a", "Street"), ("b", "and"), ("c", "Number")] {
        let node = doc.append_child(root, Node::element("span").attribute("id", id)).unwrap();
        doc.append_child(node, Node::text(label)).unwrap();
    } // 1..=6
    let three = doc
        .append_child(root, Node::element("input").attribute("aria-labelledby", "a b c"))
        .unwrap(); // 7
    let two = doc
        .append_child(root, Node::element("input").attribute("aria-labelledby", "a c"))
        .unwrap(); // 8
    let named = doc
        .append_child(root, Node::element("input").attribute("aria-label", "Number"))
        .unwrap(); // 9
    let config = Config::default();
    let options = SelectorMatcherOptions::new();
    let found = |wanted: &str| {
        query_all_by_label_text(&doc, &config, root, &text(wanted), &options).unwrap()
    };

    assert_eq!(vec![three], found("Street and Number"));
    // Any one label alone.
    assert_eq!(vec![three, two], found("Street"));
    assert_eq!(vec![three], found("and"));
    assert_eq!(vec![three, two, named], found("Number"));
    // All labels but one, where that leaves two or more.
    assert_eq!(vec![three, two], found("Street Number"));
    assert_eq!(vec![three], found("and Number"));
    assert_eq!(vec![three], found("Street and"));
    assert_eq!(Vec::<usize>::new(), found("Number Street"));
    assert_eq!(Vec::<usize>::new(), found("Street  Number"));

    assert_eq!(
        Ok(vec![named]),
        query_all_by_label_text(
            &doc,
            &config,
            root,
            &text("Number"),
            &SelectorMatcherOptions::new().selector("[aria-label]")
        )
    );
    assert_eq!(
        Ok(vec![]),
        query_all_by_label_text(
            &doc,
            &config,
            root,
            &text("Number"),
            &SelectorMatcherOptions::new().selector("not a selector")
        )
    );
    let error = get_by_label_text(&doc, &config, root, &text("none"), &options).unwrap_err();
    assert!(error
        .to_string()
        .starts_with("Unable to find a label with the text of: none\n\n"));
    let error = get_by_label_text(&doc, &config, root, &text("Number"), &options).unwrap_err();
    assert!(error
        .to_string()
        .starts_with("Found multiple elements with the label text: Number\n\n"));
}

#[test]
fn a_label_finds_its_control_and_the_form_control_inside_it() {
    let mut doc = Document::new();
    let root = doc.push_root(Node::element("form")); // 0
    let label = doc.append_child(root, Node::element("label").control(4)).unwrap(); // 1
    doc.append_child(label, Node::text("Pick")).unwrap(); // 2
    let inside = doc.append_child(label, Node::element("select")).unwrap(); // 3
    let pointed = doc.append_child(root, Node::element("input")).unwrap(); // 4
    let config = Config::default();
    let options = SelectorMatcherOptions::new();

    // The form control inside the label comes first, then the control that the
    // label points to.
    assert_eq!(
        Ok(vec![inside, pointed]),
        query_all_by_label_text(&doc, &config, root, &text("Pick"), &options)
    );
    assert_eq!(
        Ok(vec![pointed]),
        query_all_by_label_text(
            &doc,
            &config,
            root,
            &text("Pick"),
            &SelectorMatcherOptions::new().selector("input")
        )
    );
    assert_eq!(
        Ok(vec![inside]),
        query_all_by_label_text(
            &doc,
            &config,
            root,
            &text("Pick"),
            &SelectorMatcherOptions::new().selector("select")
        )
    );
}

fn widgets() -> Document {
    let mut doc = Document::new();
    let root = doc.push_root(Node::element("div")); // 0
    doc.append_child(
        root,
        Node::element("button")
            .attribute("aria-pressed", "true")
            .accessible_name("Bold")
            .accessible_description("Makes the text bold"),
    )
    .unwrap(); // 1
    doc.append_child(
        root,
        Node::element("button").attribute("aria-expanded", "false").accessible_name("Menu"),
    )
    .unwrap(); // 2
    doc.append_child(root, Node::element("button").accessible_name("Gone").display("none")).unwrap(); // 3
    doc.append_child(root, Node::element("h1").accessible_name("One")).unwrap(); // 4
    doc.append_child(
        root,
        Node::element("div").attribute("role", "heading").attribute("aria-level", "2"),
    )
    .unwrap(); // 5
    doc.append_child(root, Node::element("input").attribute("type", "checkbox").checked(true))
        .unwrap(); // 6
    doc.append_child(
        root,
        Node::element("div").attribute("role", "checkbox").attribute("aria-checked", "false"),
    )
    .unwrap(); // 7
    doc.append_child(
        root,
        Node::element("div")
            .attribute("role", "slider")
            .attribute("aria-valuenow", "5")
            .attribute("aria-valuemin", "0")
            .attribute("aria-valuemax", "10")
            .attribute("aria-valuetext", "five"),
    )
    .unwrap(); // 8
    doc.append_child(
        root,
        Node::element("a").attribute("href", "/").attribute("aria-current", "page"),
    )
    .unwrap(); // 9
    doc.append_child(root, Node::element("div").attribute("role", "tab switch")).unwrap(); // 10
    let select = doc.append_child(root, Node::element("select")).unwrap(); // 11
    doc.append_child(select, Node::element("option").selected(true)).unwrap(); // 12
    doc.append_child(select, Node::element("option")).unwrap(); // 13
    doc.append_child(root, Node::element("div").attribute("role", "alert").attribute("aria-busy", "true"))
        .unwrap(); // 14
    doc
}

#[test]
fn roles_are_narrowed_by_state_name_and_accessibility() {
    let doc = widgets();
    let config = Config::default();
    let found = |role: AriaRole, options: ByRoleOptions| {
        query_all_by_role(&doc, &config, 0, role, &options).unwrap()
    };

    assert_eq!(vec![1, 2], found(AriaRole::Button, ByRoleOptions::new()));
    assert_eq!(vec![1, 2, 3], found(AriaRole::Button, ByRoleOptions::new().hidden(true)));
    assert_eq!(vec![1], found(AriaRole::Button, ByRoleOptions::new().pressed(true)));
    assert_eq!(Vec::<usize>::new(), found(AriaRole::Button, ByRoleOptions::new().pressed(false)));
    assert_eq!(vec![2], found(AriaRole::Button, ByRoleOptions::new().expanded(false)));
    assert_eq!(
        vec![2],
        found(AriaRole::Button, ByRoleOptions::new().name(Matcher::String("Menu".to_owned())))
    );
    assert_eq!(
        vec![1],
        found(
            AriaRole::Button,
            ByRoleOptions::new().description(Matcher::Regex(Regex::new("bold$").unwrap()))
        )
    );
    // Names are compared as they are.
    assert_eq!(
        Vec::<usize>::new(),
        found(AriaRole::Button, ByRoleOptions::new().name(Matcher::String(" Menu ".to_owned())))
    );
    // Of several states only the first is looked at.
    assert_eq!(
        vec![1],
        found(AriaRole::Button, ByRoleOptions::new().expanded(false).pressed(true))
    );

    assert_eq!(vec![4, 5], found(AriaRole::Heading, ByRoleOptions::new()));
    assert_eq!(vec![4], found(AriaRole::Heading, ByRoleOptions::new().level(1)));
    assert_eq!(vec![5], found(AriaRole::Heading, ByRoleOptions::new().level(2)));

    assert_eq!(vec![6, 7], found(AriaRole::Checkbox, ByRoleOptions::new()));
    assert_eq!(vec![6], found(AriaRole::Checkbox, ByRoleOptions::new().checked(true)));
    assert_eq!(vec![7], found(AriaRole::Checkbox, ByRoleOptions::new().checked(false)));

    let value = |value: ByRoleOptionsValue| found(AriaRole::Slider, ByRoleOptions::new().value(value));
    assert_eq!(vec![8], value(ByRoleOptionsValue::new()));
    assert_eq!(vec![8], value(ByRoleOptionsValue::new().now(5)));
    assert_eq!(Vec::<usize>::new(), value(ByRoleOptionsValue::new().now(6)));
    assert_eq!(vec![8], value(ByRoleOptionsValue::new().now(5).min(0).max(10)));
    assert_eq!(Vec::<usize>::new(), value(ByRoleOptionsValue::new().now(5).min(0).max(11)));
    assert_eq!(
        vec![8],
        value(ByRoleOptionsValue::new().text(Matcher::String("five".to_owned())))
    );
    assert_eq!(
        Vec::<usize>::new(),
        value(ByRoleOptionsValue::new().now(5).text(Matcher::String("six".to_owned())))
    );

    assert_eq!(
        vec![9],
        found(
            AriaRole::Link,
            ByRoleOptions::new().current(ByRoleOptionsCurrent::String("page".to_owned()))
        )
    );
    assert_eq!(
        Vec::<usize>::new(),
        found(AriaRole::Link, ByRoleOptions::new().current(true.into()))
    );
    assert_eq!(
        Vec::<usize>::new(),
        found(AriaRole::Link, ByRoleOptions::new().current("step".to_owned().into()))
    );

    assert_eq!(vec![10], found(AriaRole::Tab, ByRoleOptions::new()));
    assert_eq!(Vec::<usize>::new(), found(AriaRole::Switch, ByRoleOptions::new()));
    assert_eq!(vec![10], found(AriaRole::Switch, ByRoleOptions::new().query_fallbacks(true)));

    assert_eq!(vec![12, 13], found(AriaRole::Option, ByRoleOptions::new()));
    assert_eq!(vec![12], found(AriaRole::Option, ByRoleOptions::new().selected(true)));
    assert_eq!(vec![13], found(AriaRole::Option, ByRoleOptions::new().selected(false)));

    assert_eq!(vec![14], found(AriaRole::Alert, ByRoleOptions::new().busy(true)));
    assert_eq!(Vec::<usize>::new(), found(AriaRole::Alert, ByRoleOptions::new().busy(false)));

    let mut hidden = Config::default();
    hidden.update(PartialConfig::default().default_hidden(true));
    assert_eq!(
        Ok(vec![1, 2, 3]),
        query_all_by_role(&doc, &hidden, 0, AriaRole::Button, &ByRoleOptions::new())
    );
    assert_eq!(
        Ok(vec![1, 2]),
        get_all_by_role(&doc, &hidden, 0, AriaRole::Button, &ByRoleOptions::new().hidden(false))
    );
}

#[test]
fn the_messages_of_a_query_by_role_name_the_role() {
    let doc = widgets();
    let config = Config::default();
    let error = get_by_role(&doc, &config, 0, AriaRole::Button, &ByRoleOptions::new()).unwrap_err();
    assert!(error
        .to_string()
        .starts_with("Found multiple elements with the role \"button\"\n\nHere are"));
    let error = get_by_role(
        &doc,
        &config,
        0,
        AriaRole::Heading,
        &ByRoleOptions::new().name(Matcher::Regex(Regex::new("^O|^$").unwrap())),
    )
    .unwrap_err();
    assert!(error.to_string().starts_with(
        "Found multiple elements with the role \"heading\" and name `^O|^$`\n\nHere are"
    ));
    let error = get_by_role(
        &doc,
        &config,
        0,
        AriaRole::Button,
        &ByRoleOptions::new().name(Matcher::String("x".to_owned())).hidden(true).suggest(true),
    )
    .unwrap_err();
    assert!(error
        .to_string()
        .starts_with("Unable to find an element with the role \"button\"\n\n\n\nIgnored"));
    let error = get_by_role(&doc, &config, 0, AriaRole::Dialog, &ByRoleOptions::new()).unwrap_err();
    assert!(error
        .to_string()
        .starts_with("Unable to find an accessible element with the role \"dialog\"\n\n\n\nIgnored"));
    assert_eq!(
        Ok(None),
        query_by_role(&doc, &config, 0, AriaRole::Dialog, &ByRoleOptions::new())
    );
}

#[test]
fn a_better_query_is_proposed_where_suggestions_are_on() {
    let mut doc = Document::new();
    let root = doc.push_root(Node::element("div"));
    let image = doc
        .append_child(
            root,
            Node::element("img").attribute("alt", "logo").attribute("data-testid", "i"),
        )
        .unwrap();
    let plain = doc
        .append_child(root, Node::element("span").attribute("data-testid", "s"))
        .unwrap();
    let mut config = Config::default();
    let options = MatcherOptions::new();

    assert_eq!(Ok(image), get_by_test_id(&doc, &config, root, &text("i"), &options));
    config.update(PartialConfig::default().throw_suggestions(true));

    let error = get_by_test_id(&doc, &config, root, &text("i"), &options).unwrap_err();
    assert!(matches!(error, QueryError::Element(_)));
    assert!(error
        .to_string()
        .starts_with("A better query is available, try this: get_by_alt_text('logo')\n\n"));
    let error = query_by_test_id(&doc, &config, root, &text("i"), &options).unwrap_err();
    assert!(error
        .to_string()
        .starts_with("A better query is available, try this: query_by_alt_text('logo')\n\n"));

    // The lists are not looked at, nor an element for which nothing is better.
    assert_eq!(
        Ok(vec![image]),
        query_all_by_test_id(&doc, &config, root, &text("i"), &options)
    );
    assert_eq!(
        Ok(vec![image]),
        get_all_by_test_id(&doc, &config, root, &text("i"), &options)
    );
    assert_eq!(Ok(plain), get_by_test_id(&doc, &config, root, &text("s"), &options));
    assert_eq!(Ok(None), query_by_test_id(&doc, &config, root, &text("none"), &options));
    // The query that would be proposed is the one that was made.
    assert_eq!(Ok(image), get_by_alt_text(&doc, &config, root, &text("logo"), &options));
}

#[test]
fn the_family_is_one_for_every_query() {
    let doc = article();
    let config = Config::default();
    let wanted = text("hello world");
    let options = SelectorMatcherOptions::new();
    let asked = Query::Text(&wanted, &options);
    assert_eq!(Ok(vec![3]), query_all(&doc, &config, 0, &asked));
    assert_eq!(Ok(Some(3)), query(&doc, &config, 0, &asked));
    assert_eq!(Ok(3), get(&doc, &config, 0, &asked));

    let bound = get_queries_for_element(&doc, &config, 3);
    assert_eq!(Ok(3), bound.get_by_text(&wanted, &options));
    assert_eq!(Ok(vec![3]), bound.get_all_by_text(&wanted, &options));
    assert_eq!(Ok(Some(3)), bound.query_by_text(&wanted, &options));
    assert_eq!(Ok(vec![3]), bound.query_all_by_text(&wanted, &options));
    let bound = within(&doc, &config, 7);
    assert_eq!(Ok(None), bound.query_by_text(&wanted, &options));
    assert_eq!(
        Ok(vec![7]),
        bound.query_all_by_text(&text("Hello World"), &options)
    );
    assert_eq!(Ok(vec![]), bound.query_all_by_title(&text("x"), &MatcherOptions::new()));
    assert!(bound.get_by_role(AriaRole::Button, &ByRoleOptions::new()).is_err());
}
