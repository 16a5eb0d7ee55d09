//! The printed form of a part of the document, as error messages show it.
use vstd::prelude::*;
use crate::document::{Document, Node, NodeId};
use crate::dom_element_filter::{printed_node, DomElementFilter};
use crate::pretty_format::{
    get_config, spaces, ColorView, ColorsView, PrettyFormatOptions, Printing,
};
use crate::selector::{parse_selector, Selector};
use crate::text::string_of;
use crate::types::config::Config;

verus! {

/// Colors are for terminals only: nothing is highlighted.
pub fn should_highlight() -> (r: bool)
    ensures
        !r,
{
    false
}

/// No color: both sequences are empty.
pub open spec fn no_color() -> ColorView {
    ColorView { open: Seq::empty(), close: Seq::empty() }
}

/// How the document is printed for messages: without colors, two spaces to a
/// level, each attribute and each child on a line of its own.
pub open spec fn message_printing() -> Printing {
    Printing {
        colors: ColorsView {
            comment: no_color(),
            content: no_color(),
            prop: no_color(),
            tag: no_color(),
            value: no_color(),
        },
        escape_string: true,
        indent: spaces(2),
        max_depth: usize::MAX as nat,
        min: false,
        spacing_inner: "\n"@,
        spacing_outer: "\n"@,
    }
}

/// The most characters that are printed where no limit is given.
pub open spec fn default_max_length() -> usize {
    7000
}

/// The text cut after `limit` characters, with `...` put where it was cut.
pub open spec fn cut(content: Seq<char>, limit: usize) -> Seq<char> {
    if content.len() > limit {
        content.take(limit as int) + "..."@
    } else {
        content
    }
}

/// Cuts a text after `limit` characters.
pub fn cut_text(content: &Vec<char>, limit: usize) -> (r: String)
    ensures
        r@ == cut(content@, limit),
{
    if content.len() > limit {
        let mut kept: Vec<char> = Vec::new();
        let mut i: usize = 0;
        while i < limit
            invariant
                i <= limit < content.len(),
                kept@ == content@.take(i as int),
            decreases limit - i,
        {
            kept.push(content[i]);
            i += 1;
        }
        kept.push('.');
        kept.push('.');
        kept.push('.');
        proof {
            reveal_strlit("...");
            assert(kept@ == content@.take(limit as int) + "..."@);
        }
        string_of(&kept)
    } else {
        string_of(content)
    }
}

/// An element printed without what is below it.
pub open spec fn shallow_text(node: Node) -> Seq<char> {
    cut(
        crate::dom_element_filter::printed_element(
            message_printing(),
            crate::text::ascii_lower(node.name@),
            crate::dom_element_filter::printed_props(
                message_printing(),
                node.attributes@,
                spaces(2),
            ),
            Seq::empty(),
            Seq::empty(),
        ),
        default_max_length(),
    )
}

/// What `pretty_dom` prints: the subtree at `dom`, or at the first node where
/// none is given, without comments and without the elements that the selector
/// `ignore` matches; cut after `max_length` characters, with `...` put where
/// it was cut. Nothing where the limit is 0 or there is no such node.
pub open spec fn pretty_dom_text(
    nodes: Seq<Node>,
    ignore: Seq<char>,
    dom: Option<NodeId>,
    max_length: Option<usize>,
) -> Seq<char> {
    let limit = match max_length {
        Some(limit) => limit,
        None => default_max_length(),
    };
    let root = match dom {
        Some(root) => root,
        None => 0usize,
    };
    let content = printed_node(
        nodes,
        message_printing(),
        parse_selector(ignore),
        root as int,
        Seq::empty(),
        0,
    );
    if limit == 0 || root >= nodes.len() {
        Seq::empty()
    } else {
        cut(content, limit)
    }
}

/// Prints the subtree at `dom`, or at the first node where none is given, as
/// indented markup of at most `max_length` characters, 7000 where no limit is
/// given.
pub fn pretty_dom(doc: &Document, config: &Config, dom: Option<NodeId>, max_length: Option<usize>) -> (r:
    String)
    ensures
        r@ == pretty_dom_text(doc.nodes(), config.default_ignore@, dom, max_length),
{
    let limit = match max_length {
        Some(limit) => limit,
        None => 7000,
    };
    let root = match dom {
        Some(root) => root,
        None => 0,
    };
    if limit == 0 || root >= doc.node_count() {
        return String::new();
    }
    let filter = DomElementFilter::new(Selector::parse(config.default_ignore.as_str()));
    let printing = get_config(
        PrettyFormatOptions::new().print_function_name(false).highlight(should_highlight()),
    );
    proof {
        reveal_strlit("");
        assert(printing.colors.plain());
        assert(printing@ =~~= message_printing());
    }
    let indentation: Vec<char> = Vec::new();
    let content = filter.serialize(doc, root, &printing, &indentation, 0);
    cut_text(&content, limit)
}

/// Prints an element without what is below it.
pub fn pretty_shallow(doc: &Document, element: NodeId) -> (r: String)
    requires
        doc.is_element(element),
    ensures
        r@ == shallow_text(doc.nodes()[element as int]),
{
    let printing = get_config(
        PrettyFormatOptions::new().print_function_name(false).highlight(should_highlight()),
    );
    proof {
        reveal_strlit("");
        assert(printing.colors.plain());
        assert(printing@ =~~= message_printing());
    }
    let indentation: Vec<char> = Vec::new();
    let content = crate::dom_element_filter::print_shallow(
        doc.node(element),
        &printing,
        &indentation,
    );
    cut_text(&content, 7000)
}

} // verus!
