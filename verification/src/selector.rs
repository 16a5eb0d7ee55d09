//! The selectors that the queries accept: a comma-separated list of compound
//! selectors. A compound selector is a run of simple selectors with nothing
//! between them: `*`, a tag name, `#id`, `.class`, `[name]`, `[name=value]`,
//! `[name~=value]`, and `:not(..)` round one of these. An element matches the
//! list when it matches every simple selector of one of the compounds.
use vstd::prelude::*;
use crate::document::{attribute_of, Node, NodeKind};
use crate::text::{
    ascii_lower, chars_eq, chars_of, is_whitespace, is_whitespace_char, split, split_chars,
    str_eq, string_of, to_ascii_lower, views,
};

verus! {

/// How an attribute is tested.
#[derive(Clone, Copy, Debug, PartialEq, Eq, Structural)]
pub enum AttributeOperator {
    /// `[name]`
    Exists,
    /// `[name=value]`
    Equals,
    /// `[name~=value]`: one of the white-space separated words is `value`.
    Includes,
}

/// What a simple selector asks of an element. `T` is the type of its texts:
/// `String` in a parsed selector, `Seq<char>` in its view.
pub enum Test<T> {
    Universal,
    /// The tag name, in small letters.
    Type(T),
    Attribute { name: T, operator: AttributeOperator, value: T },
}

/// A simple selector: a test, or the negation of one.
pub struct Simple<T> {
    /// Written inside `:not(..)`.
    pub negated: bool,
    pub test: Test<T>,
}

/// A selector as it was read: an element matches it when it matches every
/// simple selector of one of the alternatives.
pub struct Selector {
    pub alternatives: Vec<Vec<Simple<String>>>,
}

/// A compound selector, as its texts.
pub type CompoundView = Seq<Simple<Seq<char>>>;

/// A selector, as its texts.
pub type SelectorView = Seq<CompoundView>;

/// A test, as its texts.
pub open spec fn test_view(test: Test<String>) -> Test<Seq<char>> {
    match test {
        Test::Universal => Test::Universal,
        Test::Type(name) => Test::Type(name@),
        Test::Attribute { name, operator, value } => Test::Attribute {
            name: name@,
            operator,
            value: value@,
        },
    }
}

/// A simple selector, as its texts.
pub open spec fn simple_view(simple: Simple<String>) -> Simple<Seq<char>> {
    Simple { negated: simple.negated, test: test_view(simple.test) }
}

/// A compound selector, as its texts.
pub open spec fn compound_view(compound: Seq<Simple<String>>) -> CompoundView {
    compound.map_values(|s: Simple<String>| simple_view(s))
}

/// The alternatives of a selector, as their texts.
pub open spec fn alternatives_view(alternatives: Seq<Vec<Simple<String>>>) -> SelectorView {
    alternatives.map_values(|c: Vec<Simple<String>>| compound_view(c@))
}

impl View for Selector {
    type V = SelectorView;

    open spec fn view(&self) -> SelectorView {
        alternatives_view(self.alternatives@)
    }
}

// ---------------------------------------------------------------------------
// What a selector means
// ---------------------------------------------------------------------------
/// `word` is one of the white-space separated words of `value`.
pub open spec fn has_word(value: Seq<char>, word: Seq<char>) -> bool {
    word.len() > 0 && split(value, true).contains(word)
}

/// Whether a node passes a test. A tag name is compared in small letters, an
/// attribute by its first value.
pub open spec fn test_matches(node: Node, test: Test<Seq<char>>) -> bool {
    match test {
        Test::Universal => true,
        Test::Type(name) => ascii_lower(node.name@) == name,
        Test::Attribute { name, operator, value } => match attribute_of(node.attributes@, name) {
            Some(found) => match operator {
                AttributeOperator::Exists => true,
                AttributeOperator::Equals => found == value,
                AttributeOperator::Includes => has_word(found, value),
            },
            None => false,
        },
    }
}

/// Whether a node matches a simple selector.
pub open spec fn simple_matches(node: Node, simple: Simple<Seq<char>>) -> bool {
    test_matches(node, simple.test) != simple.negated
}

/// Whether a node matches every simple selector of a compound.
pub open spec fn compound_matches(node: Node, compound: CompoundView) -> bool {
    forall|k: int| 0 <= k < compound.len() ==> simple_matches(node, #[trigger] compound[k])
}

/// The node is an element and matches one of the selector's compounds.
pub open spec fn selector_matches(node: Node, selector: SelectorView) -> bool {
    node.kind == NodeKind::Element && exists|a: int|
        0 <= a < selector.len() && compound_matches(node, #[trigger] selector[a])
}

// ---------------------------------------------------------------------------
// The grammar
// ---------------------------------------------------------------------------
/// A character of a name: a letter or digit of ASCII, `-`, `_`, or any
/// character beyond ASCII.
pub open spec fn is_name_char(c: char) -> bool {
    ||| 'a' <= c && c <= 'z'
    ||| 'A' <= c && c <= 'Z'
    ||| '0' <= c && c <= '9'
    ||| c == '-'
    ||| c == '_'
    ||| c as u32 >= 0x80
}

/// The first position at or after `i` that holds no white space.
pub open spec fn skip_whitespace(s: Seq<char>, i: int) -> int
    decreases s.len() - i,
{
    if 0 <= i < s.len() && is_whitespace(s[i]) {
        skip_whitespace(s, i + 1)
    } else {
        i
    }
}

/// The first position at or after `i` that holds no character of a name.
pub open spec fn name_end(s: Seq<char>, i: int) -> int
    decreases s.len() - i,
{
    if 0 <= i < s.len() && is_name_char(s[i]) {
        name_end(s, i + 1)
    } else {
        i
    }
}

/// The first position at or after `i` that holds `stop`, or the text's length.
pub open spec fn find_char(s: Seq<char>, i: int, stop: char) -> int
    decreases s.len() - i,
{
    if 0 <= i < s.len() && s[i] != stop {
        find_char(s, i + 1, stop)
    } else {
        i
    }
}

/// An attribute's value at `i`: a name, or any text between two `"` or two `'`.
pub open spec fn parse_value(s: Seq<char>, i: int) -> Option<(Seq<char>, int)> {
    if 0 <= i < s.len() && (s[i] == '"' || s[i] == '\'') {
        let close = find_char(s, i + 1, s[i]);
        if close < s.len() {
            Some((s.subrange(i + 1, close), close + 1))
        } else {
            None
        }
    } else {
        let end = name_end(s, i);
        if end > i {
            Some((s.subrange(i, end), end))
        } else {
            None
        }
    }
}

/// The operator at `i`, and the position after it.
pub open spec fn parse_operator(s: Seq<char>, i: int) -> Option<(AttributeOperator, int)> {
    if 0 <= i < s.len() && s[i] == '=' {
        Some((AttributeOperator::Equals, i + 1))
    } else if 0 <= i && i + 1 < s.len() && s[i] == '~' && s[i + 1] == '=' {
        Some((AttributeOperator::Includes, i + 2))
    } else {
        None
    }
}

/// What stands between `[` and `]`, from the position `i` after the `[`.
pub open spec fn parse_attribute(s: Seq<char>, i: int) -> Option<(Test<Seq<char>>, int)> {
    let start = skip_whitespace(s, i);
    let end = name_end(s, start);
    let after_name = skip_whitespace(s, end);
    if end <= start {
        None
    } else if 0 <= after_name < s.len() && s[after_name] == ']' {
        Some(
            (
                Test::Attribute {
                    name: s.subrange(start, end),
                    operator: AttributeOperator::Exists,
                    value: Seq::empty(),
                },
                after_name + 1,
            ),
        )
    } else {
        match parse_operator(s, after_name) {
            Some((operator, after_operator)) => match parse_value(
                s,
                skip_whitespace(s, after_operator),
            ) {
                Some((value, after_value)) => {
                    let close = skip_whitespace(s, after_value);
                    if 0 <= close < s.len() && s[close] == ']' {
                        Some(
                            (
                                Test::Attribute { name: s.subrange(start, end), operator, value },
                                close + 1,
                            ),
                        )
                    } else {
                        None
                    }
                },
                None => None,
            },
            None => None,
        }
    }
}

/// The attribute that `#` tests.
pub open spec fn id_name() -> Seq<char> {
    seq!['i', 'd']
}

/// The attribute that `.` tests.
pub open spec fn class_name() -> Seq<char> {
    seq!['c', 'l', 'a', 's', 's']
}

/// One test at `i`: `*`, `#id`, `.class`, `[..]` or a tag name.
pub open spec fn parse_test(s: Seq<char>, i: int) -> Option<(Test<Seq<char>>, int)> {
    if !(0 <= i < s.len()) {
        None
    } else if s[i] == '*' {
        Some((Test::Universal, i + 1))
    } else if s[i] == '#' || s[i] == '.' {
        let end = name_end(s, i + 1);
        if end <= i + 1 {
            None
        } else if s[i] == '#' {
            Some(
                (
                    Test::Attribute {
                        name: id_name(),
                        operator: AttributeOperator::Equals,
                        value: s.subrange(i + 1, end),
                    },
                    end,
                ),
            )
        } else {
            Some(
                (
                    Test::Attribute {
                        name: class_name(),
                        operator: AttributeOperator::Includes,
                        value: s.subrange(i + 1, end),
                    },
                    end,
                ),
            )
        }
    } else if s[i] == '[' {
        parse_attribute(s, i + 1)
    } else {
        let end = name_end(s, i);
        if end <= i {
            None
        } else {
            Some((Test::Type(ascii_lower(s.subrange(i, end))), end))
        }
    }
}

/// `:not(` stands at `i`.
pub open spec fn negation_at(s: Seq<char>, i: int) -> bool {
    0 <= i && i + 5 <= s.len() && s[i] == ':' && s[i + 1] == 'n' && s[i + 2] == 'o' && s[i + 3]
        == 't' && s[i + 4] == '('
}

/// One simple selector at `i`: a test, or `:not(` test `)`.
pub open spec fn parse_simple(s: Seq<char>, i: int) -> Option<(Simple<Seq<char>>, int)> {
    if negation_at(s, i) {
        match parse_test(s, skip_whitespace(s, i + 5)) {
            Some((test, after_test)) => {
                let close = skip_whitespace(s, after_test);
                if 0 <= close < s.len() && s[close] == ')' {
                    Some((Simple { negated: true, test }, close + 1))
                } else {
                    None
                }
            },
            None => None,
        }
    } else {
        match parse_test(s, i) {
            Some((test, after_test)) => Some((Simple { negated: false, test }, after_test)),
            None => None,
        }
    }
}

/// The compound selector that starts at `i`, after the simple selectors
/// `found` already read: it ends before white space, a comma or the end.
pub open spec fn parse_compound(s: Seq<char>, i: int, found: CompoundView) -> Option<
    (CompoundView, int),
>
    decreases s.len() - i,
{
    if !(0 <= i < s.len()) || s[i] == ',' || is_whitespace(s[i]) {
        if found.len() > 0 {
            Some((found, i))
        } else {
            None
        }
    } else {
        match parse_simple(s, i) {
            Some((simple, next)) => if i < next <= s.len() {
                parse_compound(s, next, found.push(simple))
            } else {
                None
            },
            None => None,
        }
    }
}

/// The list that starts at `i`, after the compounds `found` already read.
pub open spec fn parse_list(s: Seq<char>, i: int, found: SelectorView) -> Option<SelectorView>
    decreases s.len() - i,
{
    match parse_compound(s, skip_whitespace(s, i), Seq::empty()) {
        Some((compound, after_compound)) => {
            let next = skip_whitespace(s, after_compound);
            if next >= s.len() {
                Some(found.push(compound))
            } else if s[next] == ',' && next >= i {
                parse_list(s, next + 1, found.push(compound))
            } else {
                None
            }
        },
        None => None,
    }
}

/// The selector that `text` spells, or `None` where it spells none.
pub open spec fn parse_selector(text: Seq<char>) -> Option<SelectorView> {
    parse_list(text, 0, Seq::empty())
}

// ---------------------------------------------------------------------------
// The parser
// ---------------------------------------------------------------------------
fn is_name_character(c: char) -> (r: bool)
    ensures
        r == is_name_char(c),
{
    ('a' <= c && c <= 'z') || ('A' <= c && c <= 'Z') || ('0' <= c && c <= '9') || c == '-' || c
        == '_' || c as u32 >= 0x80
}

fn scan_whitespace(s: &Vec<char>, i: usize) -> (j: usize)
    requires
        i <= s.len(),
    ensures
        j == skip_whitespace(s@, i as int),
        i <= j <= s.len(),
{
    let mut j: usize = i;
    while j < s.len() && is_whitespace_char(s[j])
        invariant
            i <= j <= s.len(),
            skip_whitespace(s@, i as int) == skip_whitespace(s@, j as int),
        decreases s.len() - j,
    {
        j += 1;
    }
    j
}

fn scan_name(s: &Vec<char>, i: usize) -> (j: usize)
    requires
        i <= s.len(),
    ensures
        j == name_end(s@, i as int),
        i <= j <= s.len(),
{
    let mut j: usize = i;
    while j < s.len() && is_name_character(s[j])
        invariant
            i <= j <= s.len(),
            name_end(s@, i as int) == name_end(s@, j as int),
        decreases s.len() - j,
    {
        j += 1;
    }
    j
}

fn scan_for(s: &Vec<char>, i: usize, stop: char) -> (j: usize)
    requires
        i <= s.len(),
    ensures
        j == find_char(s@, i as int, stop),
        i <= j <= s.len(),
{
    let mut j: usize = i;
    while j < s.len() && s[j] != stop
        invariant
            i <= j <= s.len(),
            find_char(s@, i as int, stop) == find_char(s@, j as int, stop),
        decreases s.len() - j,
    {
        j += 1;
    }
    j
}

/// The characters of `s` from `from` up to `to`, as a string.
fn slice_string(s: &Vec<char>, from: usize, to: usize) -> (r: String)
    requires
        from <= to <= s.len(),
    ensures
        r@ == s@.subrange(from as int, to as int),
{
    let mut part: Vec<char> = Vec::new();
    let mut i: usize = from;
    while i < to
        invariant
            from <= i <= to <= s.len(),
            part@ == s@.subrange(from as int, i as int),
        decreases to - i,
    {
        part.push(s[i]);
        i += 1;
    }
    string_of(&part)
}

fn read_value(s: &Vec<char>, i: usize) -> (r: Option<(String, usize)>)
    requires
        i <= s.len(),
    ensures
        match r {
            Some((value, next)) => parse_value(s@, i as int) == Some((value@, next as int)) && i
                < next <= s.len(),
            None => parse_value(s@, i as int) is None,
        },
{
    if i < s.len() && (s[i] == '"' || s[i] == '\'') {
        let close = scan_for(s, i + 1, s[i]);
        if close < s.len() {
            Some((slice_string(s, i + 1, close), close + 1))
        } else {
            None
        }
    } else {
        let end = scan_name(s, i);
        if end > i {
            Some((slice_string(s, i, end), end))
        } else {
            None
        }
    }
}

fn read_operator(s: &Vec<char>, i: usize) -> (r: Option<(AttributeOperator, usize)>)
    requires
        i <= s.len(),
    ensures
        match r {
            Some((operator, next)) => parse_operator(s@, i as int) == Some(
                (operator, next as int),
            ) && i < next <= s.len(),
            None => parse_operator(s@, i as int) is None,
        },
{
    if i < s.len() && s[i] == '=' {
        Some((AttributeOperator::Equals, i + 1))
    } else if i < s.len() && i + 1 < s.len() && s[i] == '~' && s[i + 1] == '=' {
        Some((AttributeOperator::Includes, i + 2))
    } else {
        None
    }
}

fn read_attribute(s: &Vec<char>, i: usize) -> (r: Option<(Test<String>, usize)>)
    requires
        i <= s.len(),
    ensures
        match r {
            Some((test, next)) => parse_attribute(s@, i as int) == Some(
                (test_view(test), next as int),
            ) && i < next <= s.len(),
            None => parse_attribute(s@, i as int) is None,
        },
{
    let start = scan_whitespace(s, i);
    let end = scan_name(s, start);
    let after_name = scan_whitespace(s, end);
    if end <= start {
        return None;
    }
    if after_name < s.len() && s[after_name] == ']' {
        let name = slice_string(s, start, end);
        let value = String::new();
        return Some(
            (Test::Attribute { name, operator: AttributeOperator::Exists, value }, after_name + 1),
        );
    }
    match read_operator(s, after_name) {
        Some((operator, after_operator)) => {
            let value_start = scan_whitespace(s, after_operator);
            match read_value(s, value_start) {
                Some((value, after_value)) => {
                    let close = scan_whitespace(s, after_value);
                    if close < s.len() && s[close] == ']' {
                        let name = slice_string(s, start, end);
                        Some((Test::Attribute { name, operator, value }, close + 1))
                    } else {
                        None
                    }
                },
                None => None,
            }
        },
        None => None,
    }
}

fn id_string() -> (r: String)
    ensures
        r@ == id_name(),
{
    let mut v: Vec<char> = Vec::new();
    v.push('i');
    v.push('d');
    assert(v@ == id_name());
    string_of(&v)
}

fn class_string() -> (r: String)
    ensures
        r@ == class_name(),
{
    let mut v: Vec<char> = Vec::new();
    v.push('c');
    v.push('l');
    v.push('a');
    v.push('s');
    v.push('s');
    assert(v@ == class_name());
    string_of(&v)
}

fn read_test(s: &Vec<char>, i: usize) -> (r: Option<(Test<String>, usize)>)
    requires
        i <= s.len(),
    ensures
        match r {
            Some((test, next)) => parse_test(s@, i as int) == Some((test_view(test), next as int))
                && i < next <= s.len(),
            None => parse_test(s@, i as int) is None,
        },
{
    if i >= s.len() {
        return None;
    }
    let c = s[i];
    if c == '*' {
        Some((Test::Universal, i + 1))
    } else if c == '#' || c == '.' {
        let end = scan_name(s, i + 1);
        if end <= i + 1 {
            None
        } else if c == '#' {
            let value = slice_string(s, i + 1, end);
            Some(
                (
                    Test::Attribute {
                        name: id_string(),
                        operator: AttributeOperator::Equals,
                        value,
                    },
                    end,
                ),
            )
        } else {
            let value = slice_string(s, i + 1, end);
            Some(
                (
                    Test::Attribute {
                        name: class_string(),
                        operator: AttributeOperator::Includes,
                        value,
                    },
                    end,
                ),
            )
        }
    } else if c == '[' {
        read_attribute(s, i + 1)
    } else {
        let end = scan_name(s, i);
        if end <= i {
            None
        } else {
            let mut part: Vec<char> = Vec::new();
            let mut k: usize = i;
            while k < end
                invariant
                    i <= k <= end <= s.len(),
                    part@ == s@.subrange(i as int, k as int),
                decreases end - k,
            {
                part.push(s[k]);
                k += 1;
            }
            let lowered = to_ascii_lower(&part);
            Some((Test::Type(string_of(&lowered)), end))
        }
    }
}

fn read_simple(s: &Vec<char>, i: usize) -> (r: Option<(Simple<String>, usize)>)
    requires
        i <= s.len(),
    ensures
        match r {
            Some((simple, next)) => parse_simple(s@, i as int) == Some(
                (simple_view(simple), next as int),
            ) && i < next <= s.len(),
            None => parse_simple(s@, i as int) is None,
        },
{
    let negated = i < s.len() && s.len() - i >= 5 && s[i] == ':' && s[i + 1] == 'n' && s[i + 2]
        == 'o' && s[i + 3] == 't' && s[i + 4] == '(';
    if negated {
        let start = scan_whitespace(s, i + 5);
        match read_test(s, start) {
            Some((test, after_test)) => {
                let close = scan_whitespace(s, after_test);
                if close < s.len() && s[close] == ')' {
                    Some((Simple { negated: true, test }, close + 1))
                } else {
                    None
                }
            },
            None => None,
        }
    } else {
        match read_test(s, i) {
            Some((test, after_test)) => Some((Simple { negated: false, test }, after_test)),
            None => None,
        }
    }
}

fn read_compound(s: &Vec<char>, i: usize) -> (r: Option<(Vec<Simple<String>>, usize)>)
    requires
        i <= s.len(),
    ensures
        match r {
            Some((compound, next)) => parse_compound(s@, i as int, Seq::empty()) == Some(
                (compound_view(compound@), next as int),
            ) && i < next <= s.len(),
            None => parse_compound(s@, i as int, Seq::empty()) is None,
        },
{
    let mut found: Vec<Simple<String>> = Vec::new();
    let mut at: usize = i;
    assert(compound_view(found@) == Seq::<Simple<Seq<char>>>::empty());
    loop
        invariant
            i <= at <= s.len(),
            parse_compound(s@, i as int, Seq::empty()) == parse_compound(
                s@,
                at as int,
                compound_view(found@),
            ),
            found@.len() > 0 ==> i < at,
        decreases s.len() - at,
    {
        if at >= s.len() || s[at] == ',' || is_whitespace_char(s[at]) {
            if found.len() > 0 {
                return Some((found, at));
            } else {
                return None;
            }
        }
        match read_simple(s, at) {
            Some((simple, next)) => {
                let ghost before = found@;
                found.push(simple);
                assert(compound_view(found@) == compound_view(before).push(simple_view(simple)));
                at = next;
            },
            None => {
                return None;
            },
        }
    }
}

impl Selector {
    /// Reads a selector. `None` where the text is no selector of the grammar
    /// above. That grammar is a part of what a browser reads: a text with a
    /// combinator (` `, `>`, `+`, `~`), with a pseudo-class other than
    /// `:not(..)` or with an attribute operator other than `=` and `~=` is no
    /// selector here, and a query that is given one fails as for any other
    /// text that is no selector.
    pub fn parse(text: &str) -> (r: Option<Selector>)
        ensures
            match r {
                Some(selector) => parse_selector(text@) == Some(selector@),
                None => parse_selector(text@) is None,
            },
    {
        let s = chars_of(text);
        let mut found: Vec<Vec<Simple<String>>> = Vec::new();
        let mut at: usize = 0;
        assert(alternatives_view(found@) == Seq::<CompoundView>::empty());
        loop
            invariant
                at <= s.len(),
                s@ == text@,
                parse_selector(text@) == parse_list(s@, at as int, alternatives_view(found@)),
            decreases s.len() - at,
        {
            let start = scan_whitespace(&s, at);
            match read_compound(&s, start) {
                Some((compound, after_compound)) => {
                    let next = scan_whitespace(&s, after_compound);
                    let ghost before = found@;
                    let ghost compound_seq = compound@;
                    found.push(compound);
                    assert(alternatives_view(found@) == alternatives_view(before).push(
                        compound_view(compound_seq),
                    ));
                    if next >= s.len() {
                        return Some(Selector { alternatives: found });
                    } else if s[next] == ',' {
                        at = next + 1;
                    } else {
                        return None;
                    }
                },
                None => {
                    return None;
                },
            }
        }
    }
}

// ---------------------------------------------------------------------------
// Matching
// ---------------------------------------------------------------------------
fn contains_word(value: &str, word: &str) -> (r: bool)
    ensures
        r == has_word(value@, word@),
{
    let wanted = chars_of(word);
    if wanted.len() == 0 {
        return false;
    }
    let text = chars_of(value);
    let words = split_chars(&text, true);
    let mut i: usize = 0;
    while i < words.len()
        invariant
            i <= words.len(),
            views(words@) == split(value@, true),
            wanted@ == word@,
            word@.len() > 0,
            forall|k: int| 0 <= k < i ==> views(words@)[k] != word@,
        decreases words.len() - i,
    {
        if chars_eq(&words[i], &wanted) {
            assert(views(words@)[i as int] == word@);
            assert(split(value@, true)[i as int] == word@);
            return true;
        }
        i += 1;
    }
    false
}

fn lower_name_is(name: &str, lowered: &str) -> (r: bool)
    ensures
        r == (ascii_lower(name@) == lowered@),
{
    let given = chars_of(name);
    let small = to_ascii_lower(&given);
    let wanted = chars_of(lowered);
    chars_eq(&small, &wanted)
}

fn test_holds(node: &Node, test: &Test<String>) -> (r: bool)
    ensures
        r == test_matches(*node, test_view(*test)),
{
    match test {
        Test::Universal => true,
        Test::Type(name) => lower_name_is(node.name.as_str(), name.as_str()),
        Test::Attribute { name, operator, value } => match node.get_attribute(name.as_str()) {
            Some(found) => match operator {
                AttributeOperator::Exists => true,
                AttributeOperator::Equals => str_eq(found.as_str(), value.as_str()),
                AttributeOperator::Includes => contains_word(found.as_str(), value.as_str()),
            },
            None => false,
        },
    }
}

fn compound_holds(node: &Node, compound: &Vec<Simple<String>>) -> (r: bool)
    ensures
        r == compound_matches(*node, compound_view(compound@)),
{
    let mut k: usize = 0;
    while k < compound.len()
        invariant
            k <= compound.len(),
            forall|j: int|
                0 <= j < k ==> simple_matches(*node, #[trigger] compound_view(compound@)[j]),
        decreases compound.len() - k,
    {
        let holds = test_holds(node, &compound[k].test);
        if holds == compound[k].negated {
            assert(!simple_matches(*node, compound_view(compound@)[k as int]));
            return false;
        }
        k += 1;
    }
    true
}

impl Selector {
    /// Whether `node` is an element that the selector matches.
    pub fn matches(&self, node: &Node) -> (r: bool)
        ensures
            r == selector_matches(*node, self@),
    {
        if node.kind != NodeKind::Element {
            return false;
        }
        let mut a: usize = 0;
        while a < self.alternatives.len()
            invariant
                a <= self.alternatives.len(),
                node.kind == NodeKind::Element,
                forall|j: int| 0 <= j < a ==> !compound_matches(*node, #[trigger] self@[j]),
            decreases self.alternatives.len() - a,
        {
            assert(self@[a as int] == compound_view(self.alternatives@[a as int]@));
            if compound_holds(node, &self.alternatives[a]) {
                assert(compound_matches(*node, self@[a as int]));
                return true;
            }
            a += 1;
        }
        false
    }
}

} // verus!
