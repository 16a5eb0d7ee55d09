//! Printing a subtree of the document as indented markup, for error messages.
use vstd::prelude::*;
use crate::document::{Attribute, Document, Node, NodeId, NodeKind};
use vstd::string::StringExecFns;
use crate::pretty_format::{escaped_text, print_basic_value, BasicValue, Config, Printing};
use crate::selector::{selector_matches, Selector, SelectorView};
use crate::text::{ascii_lower, chars_of, extend_chars, extend_str, string_of, to_ascii_lower};

verus! {

/// A character as it is printed in a text.
pub open spec fn escaped_html_char(c: char) -> Seq<char> {
    if c == '<' {
        "&lt;"@
    } else if c == '>' {
        "&gt;"@
    } else {
        seq![c]
    }
}

/// The text with `<` and `>` written as `&lt;` and `&gt;`.
pub open spec fn escaped_html(text: Seq<char>) -> Seq<char>
    decreases text.len(),
{
    if text.len() == 0 {
        Seq::empty()
    } else {
        escaped_html(text.drop_last()) + escaped_html_char(text.last())
    }
}

/// Writes `<` and `>` as `&lt;` and `&gt;`.
pub fn escape_html(text: String) -> (r: String)
    ensures
        r@ == escaped_html(text@),
{
    let chars = chars_of(text.as_str());
    let mut out: Vec<char> = Vec::new();
    let mut i: usize = 0;
    while i < chars.len()
        invariant
            i <= chars.len(),
            chars@ == text@,
            out@ == escaped_html(text@.take(i as int)),
        decreases chars.len() - i,
    {
        proof {
            let next = text@.take(i + 1);
            assert(next.drop_last() == text@.take(i as int));
            assert(next.last() == chars@[i as int]);
        }
        let c = chars[i];
        if c == '<' {
            extend_str(&mut out, "&lt;");
        } else if c == '>' {
            extend_str(&mut out, "&gt;");
        } else {
            out.push(c);
            assert(out@ == escaped_html(text@.take(i as int)) + seq![c]);
        }
        i += 1;
    }
    assert(text@.take(chars.len() as int) == text@);
    string_of(&out)
}

/// An attribute's value as it is printed: escaped, or between two `"`.
pub open spec fn printed_value(config: Printing, value: Seq<char>) -> Seq<char> {
    if config.escape_string {
        escaped_text(value)
    } else {
        "\""@ + value + "\""@
    }
}

fn print_value(config: &Config, value: &str) -> (r: String)
    ensures
        r@ == printed_value(config@, value@),
{
    let printed = print_basic_value(
        &BasicValue::String(String::from_str(value)),
        config.print_function_name,
        config.escape_regex,
        config.escape_string,
    );
    match printed {
        Some(text) => text,
        None => String::new(),
    }
}

/// One attribute: on a line of its own, its name, `=` and its value.
pub open spec fn printed_prop(config: Printing, attribute: Attribute, indentation: Seq<char>) -> Seq<
    char,
> {
    config.spacing_inner + indentation + config.colors.prop.painted(attribute.name@) + seq!['=']
        + config.colors.value.painted(printed_value(config, attribute.value@))
}

/// The attributes of an element, in their order.
pub open spec fn printed_props(
    config: Printing,
    attributes: Seq<Attribute>,
    indentation: Seq<char>,
) -> Seq<char>
    decreases attributes.len(),
{
    if attributes.len() == 0 {
        Seq::empty()
    } else {
        printed_props(config, attributes.drop_last(), indentation) + printed_prop(
            config,
            attributes.last(),
            indentation,
        )
    }
}

fn print_props(attributes: &Vec<Attribute>, config: &Config, indentation: &Vec<char>) -> (r: Vec<
    char,
>)
    ensures
        r@ == printed_props(config@, attributes@, indentation@),
{
    let mut out: Vec<char> = Vec::new();
    let mut i: usize = 0;
    assert(attributes@.take(0) == Seq::<Attribute>::empty());
    while i < attributes.len()
        invariant
            i <= attributes.len(),
            out@ == printed_props(config@, attributes@.take(i as int), indentation@),
        decreases attributes.len() - i,
    {
        proof {
            let next = attributes@.take(i + 1);
            assert(next.drop_last() == attributes@.take(i as int));
            assert(next.last() == attributes@[i as int]);
        }
        let ghost before = out@;
        let attribute = &attributes[i];
        extend_str(&mut out, config.spacing_inner.as_str());
        extend_chars(&mut out, indentation);
        let name = config.colors.prop.paint(attribute.name.as_str());
        extend_str(&mut out, name.as_str());
        out.push('=');
        let printed = print_value(config, attribute.value.as_str());
        let value = config.colors.value.paint(printed.as_str());
        extend_str(&mut out, value.as_str());
        assert(out@ == before + printed_prop(config@, *attribute, indentation@));
        i += 1;
    }
    assert(attributes@.take(attributes.len() as int) == attributes@);
    out
}

/// A text node: its data, escaped.
pub open spec fn printed_text(config: Printing, data: Seq<char>) -> Seq<char> {
    config.colors.content.painted(escaped_html(data))
}

/// A comment: its data, escaped, between `<!--` and `-->`.
pub open spec fn printed_comment(config: Printing, data: Seq<char>) -> Seq<char> {
    config.colors.comment.painted("<!--"@ + escaped_html(data) + "-->"@)
}

fn print_text(text: String, config: &Config) -> (r: String)
    ensures
        r@ == printed_text(config@, text@),
{
    let escaped = escape_html(text);
    config.colors.content.paint(escaped.as_str())
}

fn print_comment(text: String, config: &Config) -> (r: String)
    ensures
        r@ == printed_comment(config@, text@),
{
    let escaped = escape_html(text);
    let mut inner: Vec<char> = Vec::new();
    extend_str(&mut inner, "<!--");
    extend_str(&mut inner, escaped.as_str());
    extend_str(&mut inner, "-->");
    let whole = string_of(&inner);
    config.colors.comment.paint(whole.as_str())
}

/// What follows the tag name inside `<` and `>`: the attributes, where there
/// are any, and then either the mark of an empty element or the children and
/// the closing tag.
pub open spec fn element_inside(
    config: Printing,
    tag: Seq<char>,
    props: Seq<char>,
    children: Seq<char>,
    indentation: Seq<char>,
) -> Seq<char> {
    let tag_color = config.colors.tag;
    let after_props = if props.len() == 0 {
        Seq::<char>::empty()
    } else {
        tag_color.close + props + config.spacing_outer + indentation + tag_color.open
    };
    let rest = if children.len() == 0 {
        if props.len() != 0 && !config.min {
            "/"@
        } else {
            " /"@
        }
    } else {
        ">"@ + tag_color.close + children + config.spacing_outer + indentation
            + tag_color.open + "</"@ + tag
    };
    after_props + rest
}

/// An element with its attributes and children already printed.
pub open spec fn printed_element(
    config: Printing,
    tag: Seq<char>,
    props: Seq<char>,
    children: Seq<char>,
    indentation: Seq<char>,
) -> Seq<char> {
    config.colors.tag.painted(
        "<"@ + tag + element_inside(config, tag, props, children, indentation) + ">"@,
    )
}

fn print_element(
    tag: &Vec<char>,
    printed_props: &Vec<char>,
    printed_children: &Vec<char>,
    config: &Config,
    indentation: &Vec<char>,
) -> (r: Vec<char>)
    ensures
        r@ == printed_element(config@, tag@, printed_props@, printed_children@, indentation@),
{
    let tag_color = &config.colors.tag;
    let mut inner: Vec<char> = Vec::new();
    extend_str(&mut inner, "<");
    extend_chars(&mut inner, tag);
    let ghost start = inner@;
    if printed_props.len() > 0 {
        extend_str(&mut inner, tag_color.close().as_str());
        extend_chars(&mut inner, printed_props);
        extend_str(&mut inner, config.spacing_outer.as_str());
        extend_chars(&mut inner, indentation);
        extend_str(&mut inner, tag_color.open().as_str());
    }
    let ghost middle = inner@;
    assert(middle == start + if printed_props@.len() == 0 {
        Seq::<char>::empty()
    } else {
        tag_color@.close + printed_props@ + config.spacing_outer@ + indentation@
            + tag_color@.open
    });
    if printed_children.len() == 0 {
        if printed_props.len() > 0 && !config.min {
            extend_str(&mut inner, "/");
        } else {
            extend_str(&mut inner, " /");
        }
    } else {
        extend_str(&mut inner, ">");
        extend_str(&mut inner, tag_color.close().as_str());
        extend_chars(&mut inner, printed_children);
        extend_str(&mut inner, config.spacing_outer.as_str());
        extend_chars(&mut inner, indentation);
        extend_str(&mut inner, tag_color.open().as_str());
        extend_str(&mut inner, "</");
        extend_chars(&mut inner, tag);
        assert(inner@ == middle + (">"@ + tag_color@.close + printed_children@
            + config.spacing_outer@ + indentation@ + tag_color@.open + "</"@ + tag@));
    }
    assert(inner@ == start + element_inside(
        config@,
        tag@,
        printed_props@,
        printed_children@,
        indentation@,
    ));
    extend_str(&mut inner, ">");
    let whole = string_of(&inner);
    chars_of(tag_color.paint(whole.as_str()).as_str())
}

/// An element below the greatest depth: its tag alone.
pub open spec fn printed_leaf(config: Printing, tag: Seq<char>) -> Seq<char> {
    config.colors.tag.painted("<"@ + tag) + " \u{2026}"@ + config.colors.tag.painted(" />"@)
}

fn print_element_as_leaf(tag: &Vec<char>, config: &Config) -> (r: Vec<char>)
    ensures
        r@ == printed_leaf(config@, tag@),
{
    let mut open: Vec<char> = Vec::new();
    extend_str(&mut open, "<");
    extend_chars(&mut open, tag);
    let open_text = string_of(&open);
    let mut out: Vec<char> = Vec::new();
    extend_str(&mut out, config.colors.tag.paint(open_text.as_str()).as_str());
    extend_str(&mut out, " \u{2026}");
    extend_str(&mut out, config.colors.tag.paint(" />").as_str());
    out
}

/// Whether a child is printed: comments are not, nor the elements that the
/// selector of ignored elements matches.
pub open spec fn is_printed(node: Node, ignore: Option<SelectorView>) -> bool {
    node.kind != NodeKind::Comment && !(node.kind == NodeKind::Element && match ignore {
        Some(selector) => selector_matches(node, selector),
        None => false,
    })
}

/// The node at `n`, printed at the given indentation and depth.
pub open spec fn printed_node(
    nodes: Seq<Node>,
    config: Printing,
    ignore: Option<SelectorView>,
    n: int,
    indentation: Seq<char>,
    depth: nat,
) -> Seq<char>
    decreases nodes.len() - n, nodes.len() + 1,
{
    if !(0 <= n < nodes.len()) {
        Seq::empty()
    } else if nodes[n].kind == NodeKind::Text {
        printed_text(config, nodes[n].data@)
    } else if nodes[n].kind == NodeKind::Comment {
        printed_comment(config, nodes[n].data@)
    } else if depth + 1 > config.max_depth {
        printed_leaf(config, ascii_lower(nodes[n].name@))
    } else {
        printed_element(
            config,
            ascii_lower(nodes[n].name@),
            printed_props(config, nodes[n].attributes@, indentation + config.indent),
            printed_children(
                nodes,
                config,
                ignore,
                n,
                nodes.len() as int,
                indentation + config.indent,
                depth + 1,
            ),
            indentation,
        )
    }
}

/// The children of `n` among the first `k` nodes that are printed, each on a
/// line of its own.
pub open spec fn printed_children(
    nodes: Seq<Node>,
    config: Printing,
    ignore: Option<SelectorView>,
    n: int,
    k: int,
    indentation: Seq<char>,
    depth: nat,
) -> Seq<char>
    decreases nodes.len() - n, k,
{
    if k <= 0 || k > nodes.len() || n < 0 {
        Seq::empty()
    } else {
        let before = printed_children(nodes, config, ignore, n, k - 1, indentation, depth);
        if k - 1 > n && nodes[k - 1].parent == Some(n as usize) && is_printed(nodes[k - 1], ignore) {
            let child = printed_node(nodes, config, ignore, k - 1, indentation, depth);
            if child.len() == 0 && nodes[k - 1].kind != NodeKind::Text {
                before
            } else {
                before + config.spacing_outer + indentation + child
            }
        } else {
            before
        }
    }
}

/// An element with its attributes, without what is below it.
pub fn print_shallow(node: &Node, config: &Config, indentation: &Vec<char>) -> (r: Vec<char>)
    requires
        node.kind == NodeKind::Element,
    ensures
        r@ == printed_element(
            config@,
            ascii_lower(node.name@),
            printed_props(config@, node.attributes@, indentation@ + config@.indent),
            Seq::empty(),
            indentation@,
        ),
{
    let name = chars_of(node.name.as_str());
    let tag = to_ascii_lower(&name);
    let mut inner: Vec<char> = Vec::new();
    extend_chars(&mut inner, indentation);
    extend_str(&mut inner, config.indent.as_str());
    let props = print_props(&node.attributes, config, &inner);
    let children: Vec<char> = Vec::new();
    print_element(&tag, &props, &children, config, indentation)
}

/// Prints a subtree, leaving out what `filter_node` refuses.
pub struct DomElementFilter {
    /// The elements that are not printed.
    pub ignore: Option<Selector>,
}

/// The selector of ignored elements, as its view.
pub open spec fn ignore_view(ignore: Option<Selector>) -> Option<SelectorView> {
    match ignore {
        Some(selector) => Some(selector@),
        None => None,
    }
}

impl DomElementFilter {
    /// A filter that leaves out the elements that `ignore` matches.
    pub fn new(ignore: Option<Selector>) -> (r: Self)
        ensures
            r.ignore == ignore,
    {
        DomElementFilter { ignore }
    }

    /// Whether a child is printed.
    pub fn filter_node(&self, node: &Node) -> (r: bool)
        ensures
            r == is_printed(*node, ignore_view(self.ignore)),
    {
        if node.kind == NodeKind::Comment {
            return false;
        }
        if node.kind != NodeKind::Element {
            return true;
        }
        match &self.ignore {
            Some(selector) => !selector.matches(node),
            None => true,
        }
    }

    fn print_children(
        &self,
        doc: &Document,
        n: NodeId,
        config: &Config,
        indentation: &Vec<char>,
        depth: usize,
    ) -> (r: Vec<char>)
        requires
            doc.contains(n),
        ensures
            r@ == printed_children(
                doc.nodes(),
                config@,
                ignore_view(self.ignore),
                n as int,
                doc.len() as int,
                indentation@,
                depth as nat,
            ),
        decreases doc.len() - n, doc.len(),
    {
        let mut out: Vec<char> = Vec::new();
        let count = doc.node_count();
        let mut k: usize = 0;
        while k < count
            invariant
                k <= count,
                count == doc.len(),
                doc.contains(n),
                out@ == printed_children(
                    doc.nodes(),
                    config@,
                    ignore_view(self.ignore),
                    n as int,
                    k as int,
                    indentation@,
                    depth as nat,
                ),
            decreases count - k,
        {
            let node = doc.node(k);
            let is_child = match node.parent {
                Some(parent) => parent == n,
                None => false,
            };
            if k > n && is_child && self.filter_node(node) {
                let child = self.serialize(doc, k, config, indentation, depth);
                if !(child.len() == 0 && node.kind != NodeKind::Text) {
                    extend_str(&mut out, config.spacing_outer.as_str());
                    extend_chars(&mut out, indentation);
                    extend_chars(&mut out, &child);
                }
            }
            k += 1;
        }
        out
    }

    /// Prints the node at `n`: a text as its data, an element as its tag with
    /// its attributes and the children that are not filtered out, each level
    /// indented by the configuration's indent.
    pub fn serialize(
        &self,
        doc: &Document,
        n: NodeId,
        config: &Config,
        indentation: &Vec<char>,
        depth: usize,
    ) -> (r: Vec<char>)
        requires
            doc.contains(n),
        ensures
            r@ == printed_node(
                doc.nodes(),
                config@,
                ignore_view(self.ignore),
                n as int,
                indentation@,
                depth as nat,
            ),
        decreases doc.len() - n, doc.len() + 1,
    {
        let node = doc.node(n);
        if node.kind == NodeKind::Text {
            return chars_of(print_text(node.data.clone(), config).as_str());
        }
        if node.kind == NodeKind::Comment {
            return chars_of(print_comment(node.data.clone(), config).as_str());
        }
        let name = chars_of(node.name.as_str());
        let tag = to_ascii_lower(&name);
        if depth >= config.max_depth {
            return print_element_as_leaf(&tag, config);
        }
        let mut inner: Vec<char> = Vec::new();
        extend_chars(&mut inner, indentation);
        extend_str(&mut inner, config.indent.as_str());
        let props = print_props(&node.attributes, config, &inner);
        let children = self.print_children(doc, n, config, &inner, depth + 1);
        print_element(&tag, &props, &children, config, indentation)
    }
}

} // verus!
