use testing_library_dom::document::{Document, Node};
use testing_library_dom::dom_element_filter::escape_html;
use testing_library_dom::pretty_dom::{pretty_dom, pretty_shallow, should_highlight};
use testing_library_dom::pretty_format::{
    create_indent, get_colors_empty, get_colors_highlight, get_config, validate_options, Color,
    PrettyFormatError, PrettyFormatOptions, Theme, ThemeColor,
};
use testing_library_dom::query_helpers::{
    get_element_error, get_multiple_elements_found_error, get_suggestion_error,
};
use testing_library_dom::types::config::{Config, GetElementErrorFn, PartialConfig};
use testing_library_dom::error::QueryError;

fn hello() -> (Document, usize) {
    let mut doc = Document::new();
    let container = doc.push_root(Node::element("div"));
    let inner = doc.append_child(container, Node::element("div")).unwrap();
    doc.append_child(inner, Node::text("Hello World!")).unwrap();
    (doc, container)
}

#[test]
fn pretty_dom_prints_out_the_given_dom_element_tree() {
    let (doc, container) = hello();
    let config = Config::default();

    assert_eq!(
        "<div>\n  <div>\n    Hello World!\n  </div>\n</div>",
        pretty_dom(&doc, &config, Some(container), None)
    );
}

#[test]
fn pretty_dom_supports_truncating_the_output_length() {
    let (doc, container) = hello();
    let config = Config::default();

    assert_eq!("<div>...", pretty_dom(&doc, &config, Some(container), Some(5)));
    assert_eq!("", pretty_dom(&doc, &config, Some(container), Some(0)));
    assert_eq!(
        "<div>\n  <div>\n    Hello World!\n  </div>\n</div>",
        pretty_dom(&doc, &config, Some(container), Some(usize::MAX))
    );
}

#[test]
fn pretty_dom_defaults_to_the_first_node() {
    let (doc, _) = hello();
    let config = Config::default();
    assert_eq!(
        "<div>\n  <div>\n    Hello World!\n  </div>\n</div>",
        pretty_dom(&doc, &config, None, None)
    );
    assert_eq!(
        "<div>\n  Hello World!\n</div>",
        pretty_dom(&doc, &config, Some(1), None)
    );
    assert_eq!("Hello World!", pretty_dom(&doc, &config, Some(2), None));
    assert_eq!("", pretty_dom(&doc, &config, Some(3), None));
    assert_eq!("", pretty_dom(&Document::new(), &config, None, None));
}

#[test]
fn pretty_dom_leaves_out_comments_and_ignored_elements() {
    let mut doc = Document::new();
    let container = doc.push_root(Node::element("DIV").attribute("id", "a<b").attribute("title", "say \"x\" \\ y"));
    doc.append_child(container, Node::comment("not printed")).unwrap();
    let script = doc.append_child(container, Node::element("script")).unwrap();
    doc.append_child(script, Node::text("let x = 1;")).unwrap();
    let style = doc.append_child(container, Node::element("style")).unwrap();
    doc.append_child(style, Node::text("p {}")).unwrap();
    let p = doc.append_child(container, Node::element("p")).unwrap();
    doc.append_child(p, Node::text("1 < 2 > 0")).unwrap();
    doc.append_child(container, Node::element("br")).unwrap();
    doc.append_child(container, Node::text("")).unwrap();
    let config = Config::default();

    assert_eq!(
        "<div\n  id=a<b\n  title=say \\\\\"x\\\\\" \\\\ y\n>\n  <p>\n    1 &lt; 2 &gt; 0\n  </p>\n  <br />\n  \n</div>",
        pretty_dom(&doc, &config, Some(container), None)
    );

    let mut other = Config::default();
    other.update(PartialConfig::default().default_ignore("p, br".to_owned()));
    assert_eq!(
        "<div\n  id=a<b\n  title=say \\\\\"x\\\\\" \\\\ y\n>\n  <script>\n    let x = 1;\n  </script>\n  <style>\n    p {}\n  </style>\n  \n</div>",
        pretty_dom(&doc, &other, Some(container), None)
    );

    // A comment that is printed by itself is shown.
    assert_eq!("<!--not printed-->", pretty_dom(&doc, &config, Some(1), None));
    assert_eq!(
        "<div\n  id=a<b\n  title=say \\\\\"x\\\\\" \\\\ y\n/>",
        pretty_shallow(&doc, container)
    );
}

#[test]
fn html_is_escaped() {
    assert_eq!("a &lt;b&gt; c", escape_html("a <b> c".to_owned()));
    assert_eq!("", escape_html(String::new()));
    assert_eq!("&gt;&gt;&lt;", escape_html(">><".to_owned()));
    assert_eq!("&amp;", escape_html("&amp;".to_owned()));
}

#[test]
fn nothing_is_highlighted() {
    assert!(!should_highlight());
}

#[test]
fn the_element_error_adds_the_printed_container() {
    let (doc, container) = hello();
    let config = Config::default();

    assert_eq!(
        QueryError::Element(
            "nothing\n\nIgnored nodes: comments, script, style\n<div>\n  <div>\n    Hello World!\n  </div>\n</div>"
                .to_owned()
        ),
        get_element_error(Some("nothing".to_owned()), &doc, &config, container)
    );
    assert_eq!(
        QueryError::Element(
            "Ignored nodes: comments, script, style\n<div>\n  Hello World!\n</div>".to_owned()
        ),
        get_element_error(None, &doc, &config, 1)
    );
    assert_eq!(
        QueryError::Element(
            "two\n\n(If this is intentional, then use the `*_all_by_*` variant of the query (like `query_all_by_text`, `get_all_by_text`, or `find_all_by_text`)).\n\nIgnored nodes: comments, script, style\nHello World!"
                .to_owned()
        ),
        get_multiple_elements_found_error("two".to_owned(), &doc, &config, 2)
    );
    assert_eq!(
        QueryError::Element(
            "A better query is available, try this: get_by_alt_text('x')\n\nIgnored nodes: comments, script, style\nHello World!"
                .to_owned()
        ),
        get_suggestion_error("get_by_alt_text('x')".to_owned(), &doc, &config, 2)
    );
}

struct Short;

impl GetElementErrorFn for Short {
    fn build(&self, message: Option<String>, _doc: &Document, container: usize) -> QueryError {
        QueryError::Element(format!("{}@{container}", message.unwrap_or_default()))
    }
}

#[test]
fn the_element_error_is_the_configurations_to_build() {
    let (doc, container) = hello();
    let mut config = Config::default();
    config.update(PartialConfig::default().get_element_error(Box::new(Short)));

    assert_eq!(
        QueryError::Element("nothing@0".to_owned()),
        get_element_error(Some("nothing".to_owned()), &doc, &config, container)
    );
}

#[test]
fn errors_show_their_text() {
    assert_eq!(
        "invalid configuration: both",
        QueryError::Configuration("both".to_owned()).to_string()
    );
    assert_eq!("gone", QueryError::Element("gone".to_owned()).to_string());
    assert_eq!("no", QueryError::Unsupported("no".to_owned()).to_string());
    assert_eq!("bad", QueryError::JsError("bad".to_owned()).to_string());
}

#[test]
fn a_color_paints_between_its_sequences() {
    let color = Color::new("<", ">");
    assert_eq!("<", color.open());
    assert_eq!(">", color.close());
    assert_eq!("<text>", color.paint("text"));
    assert_eq!("<>", color.paint(""));
    assert_eq!("text", Color::none().paint("text"));
}

#[test]
fn the_theme_has_the_colors_of_ansi_style() {
    let theme = Theme::default();
    assert_eq!(ansi_style::Color::BlackBright.open(), theme.comment.open());
    assert_eq!(ansi_style::Color::BlackBright.close(), theme.comment.close());
    assert_eq!(ansi_style::Color::Yellow.open(), theme.prop.open());
    assert_eq!(ansi_style::Color::Cyan.open(), theme.tag.open());
    assert_eq!(ansi_style::Color::Green.open(), theme.value.open());
    assert_eq!("\x1B[90m", theme.comment.open());
    assert_eq!("\x1B[33m", theme.prop.open());
    assert_eq!("\x1B[36m", theme.tag.open());
    assert_eq!("\x1B[32m", theme.value.open());
    assert_eq!("\x1B[39m", theme.value.close());
    assert_eq!("\x1B[0m", theme.content.open());
    assert_eq!("\x1B[0m", theme.content.close());
    assert_eq!("\x1B[36mdiv\x1B[39m", Color::of(ThemeColor::Cyan).paint("div"));
    assert_eq!(
        ansi_style::Color::Cyan.paint("div"),
        Color::of(ThemeColor::Cyan).paint("div")
    );
}

#[test]
fn the_printing_follows_the_options() {
    assert_eq!("", create_indent(0));
    assert_eq!("   ", create_indent(3));

    let config = get_config(PrettyFormatOptions::new());
    assert_eq!("  ", config.indent);
    assert_eq!("\n", config.spacing_inner);
    assert_eq!("\n", config.spacing_outer);
    assert!(config.call_to_json && config.escape_string && config.print_function_name);
    assert!(!config.escape_regex && !config.min);
    assert_eq!(usize::MAX, config.max_depth);
    assert_eq!(usize::MAX, config.max_width);
    assert_eq!("x", config.colors.tag.paint("x"));

    let config = get_config(PrettyFormatOptions::new().min(true));
    assert_eq!("", config.indent);
    assert_eq!(" ", config.spacing_inner);
    assert_eq!("", config.spacing_outer);
    assert!(config.min);

    let config = get_config(
        PrettyFormatOptions::new()
            .indent(4)
            .highlight(true)
            .max_depth(3)
            .max_width(80)
            .call_to_json(false)
            .escape_regex(true)
            .escape_string(false)
            .print_basic_prototype(true)
            .print_function_name(false),
    );
    assert_eq!("    ", config.indent);
    assert_eq!("\x1B[36mx\x1B[39m", config.colors.tag.paint("x"));
    assert_eq!(3, config.max_depth);
    assert_eq!(80, config.max_width);
    assert!(!config.call_to_json && config.escape_regex && !config.escape_string);
    assert!(!config.print_function_name);

    let own = Theme {
        comment: Color::new("c", "C"),
        content: Color::new("o", "O"),
        prop: Color::new("p", "P"),
        tag: Color::new("t", "T"),
        value: Color::new("v", "V"),
    };
    let colors = get_colors_highlight(&PrettyFormatOptions::new().theme(own));
    assert_eq!("txT", colors.tag.paint("x"));
    assert_eq!("vxV", colors.value.paint("x"));
    assert_eq!("x", get_colors_empty().comment.paint("x"));
}

#[test]
fn min_and_indent_cannot_be_used_together() {
    assert_eq!(Ok(()), validate_options(&PrettyFormatOptions::new()));
    assert_eq!(Ok(()), validate_options(&PrettyFormatOptions::new().min(true)));
    assert_eq!(Ok(()), validate_options(&PrettyFormatOptions::new().indent(4)));
    assert_eq!(
        Ok(()),
        validate_options(&PrettyFormatOptions::new().min(true).indent(0))
    );
    assert_eq!(
        Err(PrettyFormatError::Configuration(
            "Options `min` and `indent` cannot be used togther.".to_owned()
        )),
        validate_options(&PrettyFormatOptions::new().min(false).indent(2))
    );
}
