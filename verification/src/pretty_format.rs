//! How a tree is printed: colors, indentation and depth.
use vstd::prelude::*;
use vstd::string::StringExecFns;
use crate::text::{extend_str, string_of};

verus! {

/// The colors of the default theme.
#[derive(Clone, Copy, Debug, PartialEq, Eq, Structural)]
pub enum ThemeColor {
    BlackBright,
    Yellow,
    Cyan,
    Green,
}

/// The escape sequence that switches a color on.
pub open spec fn opening_sequence(color: ThemeColor) -> Seq<char> {
    match color {
        ThemeColor::BlackBright => "\x1B[90m"@,
        ThemeColor::Yellow => "\x1B[33m"@,
        ThemeColor::Cyan => "\x1B[36m"@,
        ThemeColor::Green => "\x1B[32m"@,
    }
}

/// The escape sequence that sets the default color again.
pub open spec fn closing_sequence() -> Seq<char> {
    "\x1B[39m"@
}

/// `ansi_style::Color::open`: the escape character, `[`, the color's number
/// and `m`.
#[verifier::external_body]
fn color_open(color: ThemeColor) -> (s: String)
    ensures
        s@ == opening_sequence(color),
{
    match color {
        ThemeColor::BlackBright => ansi_style::Color::BlackBright,
        ThemeColor::Yellow => ansi_style::Color::Yellow,
        ThemeColor::Cyan => ansi_style::Color::Cyan,
        ThemeColor::Green => ansi_style::Color::Green,
    }.open()
}

/// `ansi_style::Color::close`: the same sequence for every color.
#[verifier::external_body]
fn color_close(color: ThemeColor) -> (s: String)
    ensures
        s@ == closing_sequence(),
{
    match color {
        ThemeColor::BlackBright => ansi_style::Color::BlackBright,
        ThemeColor::Yellow => ansi_style::Color::Yellow,
        ThemeColor::Cyan => ansi_style::Color::Cyan,
        ThemeColor::Green => ansi_style::Color::Green,
    }.close().to_owned()
}

/// Why nothing was printed.
#[derive(Debug, PartialEq, Eq)]
pub enum PrettyFormatError {
    Configuration(String),
}

/// The two sequences that a text is put between to color it.
#[derive(Debug)]
pub struct Color {
    open: String,
    close: String,
}

impl Clone for Color {
    fn clone(&self) -> (r: Self)
        ensures
            r == *self,
    {
        Color { open: self.open.clone(), close: self.close.clone() }
    }
}

/// A color as its two sequences.
#[verifier::ext_equal]
pub struct ColorView {
    pub open: Seq<char>,
    pub close: Seq<char>,
}

impl ColorView {
    /// The text between the color's two sequences.
    pub open spec fn painted(self, s: Seq<char>) -> Seq<char> {
        self.open + s + self.close
    }

    pub open spec fn plain(self) -> bool {
        self.open.len() == 0 && self.close.len() == 0
    }
}

impl View for Color {
    type V = ColorView;

    closed spec fn view(&self) -> ColorView {
        ColorView { open: self.open@, close: self.close@ }
    }
}

impl Color {
    pub open spec fn opening(self) -> Seq<char> {
        self@.open
    }

    pub open spec fn closing(self) -> Seq<char> {
        self@.close
    }

    pub fn new(open: &str, close: &str) -> (r: Color)
        ensures
            r.opening() == open@,
            r.closing() == close@,
    {
        Color { open: String::from_str(open), close: String::from_str(close) }
    }

    /// No color: both sequences are empty.
    pub fn none() -> (r: Color)
        ensures
            r.opening().len() == 0,
            r.closing().len() == 0,
    {
        Color { open: String::new(), close: String::new() }
    }

    /// One of the theme's colors.
    pub fn of(color: ThemeColor) -> (r: Color)
        ensures
            r.opening() == opening_sequence(color),
            r.closing() == closing_sequence(),
    {
        Color { open: color_open(color), close: color_close(color) }
    }

    pub fn open(&self) -> (s: String)
        ensures
            s@ == self.opening(),
    {
        self.open.clone()
    }

    pub fn close(&self) -> (s: String)
        ensures
            s@ == self.closing(),
    {
        self.close.clone()
    }

    pub fn paint(&self, s: &str) -> (r: String)
        ensures
            r@ == self@.painted(s@),
    {
        let mut out: Vec<char> = Vec::new();
        extend_str(&mut out, self.open.as_str());
        extend_str(&mut out, s);
        extend_str(&mut out, self.close.as_str());
        string_of(&out)
    }
}

impl Default for Color {
    /// No color.
    fn default() -> (r: Color)
        ensures
            r@.plain(),
    {
        Color::none()
    }
}

/// The colors of the parts of a printed tree.
#[derive(Debug)]
pub struct Colors {
    pub comment: Color,
    pub content: Color,
    pub prop: Color,
    pub tag: Color,
    pub value: Color,
}

/// The colors, each as its two sequences.
#[verifier::ext_equal]
pub struct ColorsView {
    pub comment: ColorView,
    pub content: ColorView,
    pub prop: ColorView,
    pub tag: ColorView,
    pub value: ColorView,
}

impl ColorsView {
    pub open spec fn plain(self) -> bool {
        self.comment.plain() && self.content.plain() && self.prop.plain() && self.tag.plain()
            && self.value.plain()
    }
}

impl View for Colors {
    type V = ColorsView;

    open spec fn view(&self) -> ColorsView {
        ColorsView {
            comment: self.comment@,
            content: self.content@,
            prop: self.prop@,
            tag: self.tag@,
            value: self.value@,
        }
    }
}

impl Colors {
    pub open spec fn plain(self) -> bool {
        self@.plain()
    }
}

impl Default for Colors {
    /// No colors.
    fn default() -> (r: Colors)
        ensures
            r.plain(),
    {
        get_colors_empty()
    }
}

impl Clone for Colors {
    fn clone(&self) -> (r: Self)
        ensures
            r == *self,
    {
        Colors {
            comment: self.comment.clone(),
            content: self.content.clone(),
            prop: self.prop.clone(),
            tag: self.tag.clone(),
            value: self.value.clone(),
        }
    }
}

/// The colors that highlighting uses.
#[derive(Debug)]
pub struct Theme {
    pub comment: Color,
    pub content: Color,
    pub prop: Color,
    pub tag: Color,
    pub value: Color,
}

impl Clone for Theme {
    fn clone(&self) -> (r: Self)
        ensures
            r == *self,
    {
        Theme {
            comment: self.comment.clone(),
            content: self.content.clone(),
            prop: self.prop.clone(),
            tag: self.tag.clone(),
            value: self.value.clone(),
        }
    }
}

impl Default for Theme {
    /// Comments in bright black, props in yellow, tags in cyan, values in
    /// green, and the content reset to the terminal's own style.
    fn default() -> (r: Theme)
        ensures
            r.comment.opening() == opening_sequence(ThemeColor::BlackBright),
            r.comment.closing() == closing_sequence(),
            r.content.opening() == "\x1B[0m"@ && r.content.closing() == "\x1B[0m"@,
            r.prop.opening() == opening_sequence(ThemeColor::Yellow),
            r.prop.closing() == closing_sequence(),
            r.tag.opening() == opening_sequence(ThemeColor::Cyan),
            r.tag.closing() == closing_sequence(),
            r.value.opening() == opening_sequence(ThemeColor::Green),
            r.value.closing() == closing_sequence(),
    {
        Theme {
            comment: Color::of(ThemeColor::BlackBright),
            content: Color::new("\x1B[0m", "\x1B[0m"),
            prop: Color::of(ThemeColor::Yellow),
            tag: Color::of(ThemeColor::Cyan),
            value: Color::of(ThemeColor::Green),
        }
    }
}

/// What a caller may set of the printing; a field left `None` takes its
/// default.
pub struct PrettyFormatOptions {
    pub call_to_json: Option<bool>,
    pub escape_regex: Option<bool>,
    pub escape_string: Option<bool>,
    pub highlight: Option<bool>,
    pub indent: Option<usize>,
    pub max_depth: Option<usize>,
    pub max_width: Option<usize>,
    pub min: Option<bool>,
    pub print_basic_prototype: Option<bool>,
    pub print_function_name: Option<bool>,
    pub theme: Option<Theme>,
}

impl Default for PrettyFormatOptions {
    /// Nothing set.
    fn default() -> (r: Self)
        ensures
            r == (PrettyFormatOptions {
                call_to_json: None,
                escape_regex: None,
                escape_string: None,
                highlight: None,
                indent: None,
                max_depth: None,
                max_width: None,
                min: None,
                print_basic_prototype: None,
                print_function_name: None,
                theme: None,
            }),
    {
        PrettyFormatOptions::new()
    }
}

impl PrettyFormatOptions {
    pub fn new() -> (r: Self)
        ensures
            r == (PrettyFormatOptions {
                call_to_json: None,
                escape_regex: None,
                escape_string: None,
                highlight: None,
                indent: None,
                max_depth: None,
                max_width: None,
                min: None,
                print_basic_prototype: None,
                print_function_name: None,
                theme: None,
            }),
    {
        PrettyFormatOptions {
            call_to_json: None,
            escape_regex: None,
            escape_string: None,
            highlight: None,
            indent: None,
            max_depth: None,
            max_width: None,
            min: None,
            print_basic_prototype: None,
            print_function_name: None,
            theme: None,
        }
    }

    pub fn call_to_json(self, value: bool) -> (r: Self)
        ensures
            r == (Self { call_to_json: Some(value), ..self }),
    {
        let mut r = self;
        r.call_to_json = Some(value);
        r
    }

    pub fn escape_regex(self, value: bool) -> (r: Self)
        ensures
            r == (Self { escape_regex: Some(value), ..self }),
    {
        let mut r = self;
        r.escape_regex = Some(value);
        r
    }

    pub fn escape_string(self, value: bool) -> (r: Self)
        ensures
            r == (Self { escape_string: Some(value), ..self }),
    {
        let mut r = self;
        r.escape_string = Some(value);
        r
    }

    pub fn highlight(self, value: bool) -> (r: Self)
        ensures
            r == (Self { highlight: Some(value), ..self }),
    {
        let mut r = self;
        r.highlight = Some(value);
        r
    }

    pub fn indent(self, value: usize) -> (r: Self)
        ensures
            r == (Self { indent: Some(value), ..self }),
    {
        let mut r = self;
        r.indent = Some(value);
        r
    }

    pub fn max_depth(self, value: usize) -> (r: Self)
        ensures
            r == (Self { max_depth: Some(value), ..self }),
    {
        let mut r = self;
        r.max_depth = Some(value);
        r
    }

    pub fn max_width(self, value: usize) -> (r: Self)
        ensures
            r == (Self { max_width: Some(value), ..self }),
    {
        let mut r = self;
        r.max_width = Some(value);
        r
    }

    pub fn min(self, value: bool) -> (r: Self)
        ensures
            r == (Self { min: Some(value), ..self }),
    {
        let mut r = self;
        r.min = Some(value);
        r
    }

    pub fn print_basic_prototype(self, value: bool) -> (r: Self)
        ensures
            r == (Self { print_basic_prototype: Some(value), ..self }),
    {
        let mut r = self;
        r.print_basic_prototype = Some(value);
        r
    }

    pub fn print_function_name(self, value: bool) -> (r: Self)
        ensures
            r == (Self { print_function_name: Some(value), ..self }),
    {
        let mut r = self;
        r.print_function_name = Some(value);
        r
    }

    pub fn theme(self, value: Theme) -> (r: Self)
        ensures
            r == (Self { theme: Some(value), ..self }),
    {
        let mut r = self;
        r.theme = Some(value);
        r
    }
}

/// The printing as it is done, every field decided.
pub struct Config {
    pub call_to_json: bool,
    pub colors: Colors,
    pub escape_regex: bool,
    pub escape_string: bool,
    pub indent: String,
    pub max_depth: usize,
    pub max_width: usize,
    pub min: bool,
    pub print_function_name: bool,
    pub spacing_inner: String,
    pub spacing_outer: String,
}

/// The part of the configuration that decides how a tree is printed.
#[verifier::ext_equal]
pub struct Printing {
    pub colors: ColorsView,
    pub escape_string: bool,
    pub indent: Seq<char>,
    pub max_depth: nat,
    pub min: bool,
    pub spacing_inner: Seq<char>,
    pub spacing_outer: Seq<char>,
}

impl View for Config {
    type V = Printing;

    open spec fn view(&self) -> Printing {
        Printing {
            colors: self.colors@,
            escape_string: self.escape_string,
            indent: self.indent@,
            max_depth: self.max_depth as nat,
            min: self.min,
            spacing_inner: self.spacing_inner@,
            spacing_outer: self.spacing_outer@,
        }
    }
}

/// A run of spaces.
pub open spec fn spaces(count: nat) -> Seq<char> {
    Seq::new(count, |i: int| ' ')
}

/// A run of `indent` spaces.
pub fn create_indent(indent: usize) -> (r: String)
    ensures
        r@ == spaces(indent as nat),
{
    let mut out: Vec<char> = Vec::new();
    let mut i: usize = 0;
    while i < indent
        invariant
            i <= indent,
            out@ == spaces(i as nat),
        decreases indent - i,
    {
        out.push(' ');
        assert(out@ == spaces((i + 1) as nat));
        i += 1;
    }
    string_of(&out)
}

/// No colors.
pub fn get_colors_empty() -> (r: Colors)
    ensures
        r.plain(),
{
    Colors {
        comment: Color::none(),
        content: Color::none(),
        prop: Color::none(),
        tag: Color::none(),
        value: Color::none(),
    }
}

/// A color of the default theme, as its two sequences.
pub open spec fn theme_color(color: ThemeColor) -> ColorView {
    ColorView { open: opening_sequence(color), close: closing_sequence() }
}

/// The colors that highlighting uses: those of the theme given, or of the
/// default theme, which has comments in bright black, props in yellow, tags
/// in cyan, values in green, and resets the style round the content.
pub open spec fn theme_colors(theme: Option<Theme>) -> ColorsView {
    match theme {
        Some(theme) => ColorsView {
            comment: theme.comment@,
            content: theme.content@,
            prop: theme.prop@,
            tag: theme.tag@,
            value: theme.value@,
        },
        None => ColorsView {
            comment: theme_color(ThemeColor::BlackBright),
            content: ColorView { open: "\x1B[0m"@, close: "\x1B[0m"@ },
            prop: theme_color(ThemeColor::Yellow),
            tag: theme_color(ThemeColor::Cyan),
            value: theme_color(ThemeColor::Green),
        },
    }
}

/// No colors: every sequence is empty.
pub open spec fn no_colors() -> ColorsView {
    let none = ColorView { open: Seq::empty(), close: Seq::empty() };
    ColorsView { comment: none, content: none, prop: none, tag: none, value: none }
}

/// The colors that the options ask for: those of highlighting where it is
/// switched on, else none.
pub open spec fn colors_of(options: PrettyFormatOptions) -> ColorsView {
    if options.highlight == Some(true) {
        theme_colors(options.theme)
    } else {
        no_colors()
    }
}

/// The colors of the options' theme, or of the default theme.
pub fn get_colors_highlight(options: &PrettyFormatOptions) -> (r: Colors)
    ensures
        r@ == theme_colors(options.theme),
        options.theme matches Some(theme) ==> r == (Colors {
            comment: theme.comment,
            content: theme.content,
            prop: theme.prop,
            tag: theme.tag,
            value: theme.value,
        }),
{
    let theme = match &options.theme {
        Some(theme) => theme.clone(),
        None => Theme::default(),
    };
    Colors {
        comment: theme.comment,
        content: theme.content,
        prop: theme.prop,
        tag: theme.tag,
        value: theme.value,
    }
}

/// The message for `min` given with an `indent`.
pub open spec fn min_indent_conflict() -> Seq<char> {
    "Options `min` and `indent` cannot be used togther."@
}

/// `min` cannot be combined with an `indent` other than 0.
pub open spec fn options_conflict(options: PrettyFormatOptions) -> bool {
    options.min is Some && options.indent is Some && options.indent != Some(0usize)
}

/// Checks that the options can be used together.
pub fn validate_options(options: &PrettyFormatOptions) -> (r: Result<(), PrettyFormatError>)
    ensures
        match r {
            Ok(_) => !options_conflict(*options),
            Err(PrettyFormatError::Configuration(message)) => options_conflict(*options)
                && message@ == min_indent_conflict(),
        },
{
    let indented = match options.indent {
        Some(indent) => indent != 0,
        None => false,
    };
    if options.min.is_some() && indented {
        Err(
            PrettyFormatError::Configuration(
                String::from_str("Options `min` and `indent` cannot be used togther."),
            ),
        )
    } else {
        Ok(())
    }
}

/// The printing that the options ask for: colors only where highlighting is
/// on; two spaces of indentation and a line for each part, unless `min` is
/// set, which puts everything on one line.
pub fn get_config(options: PrettyFormatOptions) -> (config: Config)
    ensures
        config.call_to_json == options.call_to_json.unwrap_or(true),
        config.colors@ == colors_of(options),
        options.highlight != Some(true) ==> config.colors.plain(),
        config.escape_regex == options.escape_regex.unwrap_or(false),
        config.escape_string == options.escape_string.unwrap_or(true),
        config.indent@ == if options.min == Some(true) {
            Seq::<char>::empty()
        } else {
            spaces(options.indent.unwrap_or(2) as nat)
        },
        config.max_depth == options.max_depth.unwrap_or(usize::MAX),
        config.max_width == options.max_width.unwrap_or(usize::MAX),
        config.min == options.min.unwrap_or(false),
        config.print_function_name == options.print_function_name.unwrap_or(true),
        config.spacing_inner@ == if options.min == Some(true) {
            " "@
        } else {
            "\n"@
        },
        config.spacing_outer@ == if options.min == Some(true) {
            ""@
        } else {
            "\n"@
        },
{
    let minimal = match options.min {
        Some(true) => true,
        _ => false,
    };
    let colors = match options.highlight {
        Some(true) => get_colors_highlight(&options),
        _ => get_colors_empty(),
    };
    proof {
        reveal_strlit("");
    }
    Config {
        call_to_json: options.call_to_json.unwrap_or(true),
        colors,
        escape_regex: options.escape_regex.unwrap_or(false),
        escape_string: options.escape_string.unwrap_or(true),
        indent: if minimal {
            String::new()
        } else {
            create_indent(options.indent.unwrap_or(2))
        },
        max_depth: options.max_depth.unwrap_or(usize::MAX),
        max_width: options.max_width.unwrap_or(usize::MAX),
        min: options.min.unwrap_or(false),
        print_function_name: options.print_function_name.unwrap_or(true),
        spacing_inner: String::from_str(if minimal {
            " "
        } else {
            "\n"
        }),
        spacing_outer: String::from_str(if minimal {
            ""
        } else {
            "\n"
        }),
    }
}

/// A value of the host that is printed on one line. A number is held as the
/// host writes it.
pub enum BasicValue {
    Bool(bool),
    Undefined,
    Null,
    Number(String),
    BigInt(String),
    String(String),
}

/// A text as it is printed with its quotes and backslashes escaped: a `"`
/// becomes `\\"`, a `\` is doubled.
pub open spec fn escaped_text(text: Seq<char>) -> Seq<char>
    decreases text.len(),
{
    if text.len() == 0 {
        Seq::empty()
    } else {
        escaped_text(text.drop_last()) + (if text.last() == '"' {
            seq!['\\', '\\', '"']
        } else if text.last() == '\\' {
            seq!['\\', '\\']
        } else {
            seq![text.last()]
        })
    }
}

/// A value of the host, printed.
pub open spec fn printed_basic_value(val: BasicValue, escape_string: bool) -> Seq<char> {
    match val {
        BasicValue::Bool(true) => "true"@,
        BasicValue::Bool(false) => "false"@,
        BasicValue::Undefined => "undefined"@,
        BasicValue::Null => "null"@,
        BasicValue::Number(text) => text@,
        BasicValue::BigInt(text) => text@ + "n"@,
        BasicValue::String(text) => if escape_string {
            escaped_text(text@)
        } else {
            "\""@ + text@ + "\""@
        },
    }
}

/// Prints a value of the host: `true`, `false`, `undefined`, `null`, a number
/// as it is, a big integer with an `n` after it, a string escaped or between
/// two `"`.
pub fn print_basic_value(
    val: &BasicValue,
    _print_function_name: bool,
    _escape_regex: bool,
    escape_string: bool,
) -> (r: Option<String>)
    ensures
        r matches Some(text) && text@ == printed_basic_value(*val, escape_string),
{
    let mut out: Vec<char> = Vec::new();
    match val {
        BasicValue::Bool(true) => extend_str(&mut out, "true"),
        BasicValue::Bool(false) => extend_str(&mut out, "false"),
        BasicValue::Undefined => extend_str(&mut out, "undefined"),
        BasicValue::Null => extend_str(&mut out, "null"),
        BasicValue::Number(text) => extend_str(&mut out, text.as_str()),
        BasicValue::BigInt(text) => {
            extend_str(&mut out, text.as_str());
            extend_str(&mut out, "n");
        },
        BasicValue::String(text) => {
            if escape_string {
                let chars = crate::text::chars_of(text.as_str());
                let mut i: usize = 0;
                while i < chars.len()
                    invariant
                        i <= chars.len(),
                        chars@ == text@,
                        out@ == escaped_text(text@.take(i as int)),
                    decreases chars.len() - i,
                {
                    proof {
                        let next = text@.take(i + 1);
                        assert(next.drop_last() == text@.take(i as int));
                        assert(next.last() == chars@[i as int]);
                    }
                    let c = chars[i];
                    let ghost before = out@;
                    if c == '"' {
                        out.push('\\');
                        out.push('\\');
                        out.push('"');
                        assert(out@ == before + seq!['\\', '\\', '"']);
                    } else if c == '\\' {
                        out.push('\\');
                        out.push('\\');
                        assert(out@ == before + seq!['\\', '\\']);
                    } else {
                        out.push(c);
                        assert(out@ == before + seq![c]);
                    }
                    i += 1;
                }
                assert(text@.take(chars.len() as int) == text@);
            } else {
                extend_str(&mut out, "\"");
                extend_str(&mut out, text.as_str());
                extend_str(&mut out, "\"");
            }
        },
    }
    Some(string_of(&out))
}

/// Prints a value of the host as the options ask for. `min` with an `indent`
/// other than 0 is a configuration error.
pub fn format(val: &BasicValue, options: PrettyFormatOptions) -> (r: Result<String, PrettyFormatError>)
    ensures
        match r {
            Ok(text) => !options_conflict(options) && text@ == printed_basic_value(
                *val,
                options.escape_string.unwrap_or(true),
            ),
            Err(PrettyFormatError::Configuration(message)) => options_conflict(options)
                && message@ == min_indent_conflict(),
        },
{
    validate_options(&options)?;
    let escape_string = match options.escape_string {
        Some(escape) => escape,
        None => true,
    };
    match print_basic_value(val, true, false, escape_string) {
        Some(text) => Ok(text),
        None => Ok(String::new()),
    }
}

} // verus!
