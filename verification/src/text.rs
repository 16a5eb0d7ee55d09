//! Character-level helpers shared by the matchers, the selector parser and the
//! message builders. Strings are viewed as sequences of `char`.
use vstd::prelude::*;

verus! {

/// The characters with the Unicode property `White_Space`.
pub open spec fn is_whitespace(c: char) -> bool {
    let n = c as u32;
    ||| 0x09 <= n <= 0x0D
    ||| n == 0x20
    ||| n == 0x85
    ||| n == 0xA0
    ||| n == 0x1680
    ||| 0x2000 <= n <= 0x200A
    ||| n == 0x2028
    ||| n == 0x2029
    ||| n == 0x202F
    ||| n == 0x205F
    ||| n == 0x3000
}

/// Whether the character is white space.
pub fn is_whitespace_char(c: char) -> (b: bool)
    ensures
        b == is_whitespace(c),
{
    let n: u32 = c as u32;
    (0x09 <= n && n <= 0x0D) || n == 0x20 || n == 0x85 || n == 0xA0 || n == 0x1680 || (0x2000 <= n
        && n <= 0x200A) || n == 0x2028 || n == 0x2029 || n == 0x202F || n == 0x205F || n == 0x3000
}

/// `String::push`: the character is appended at the end.
#[verifier::external_body]
fn push_char(s: &mut String, c: char)
    ensures
        final(s)@ == old(s)@.push(c),
{
    s.push(c)
}

/// The lowercase form of a text, as Unicode defines it.
pub uninterp spec fn lowercase(text: Seq<char>) -> Seq<char>;

/// `str::to_lowercase`: the lowercase equivalent of the text, as a new string.
#[verifier::external_body]
pub(crate) fn to_lowercase(text: &str) -> (s: String)
    ensures
        s@ == lowercase(text@),
{
    text.to_lowercase()
}

/// The characters of a text.
pub fn chars_of(s: &str) -> (v: Vec<char>)
    ensures
        v@ == s@,
{
    let mut v: Vec<char> = Vec::new();
    for c in it: s.chars()
        invariant
            v@ == it.seq().take(it.index()),
            it.seq() == s@,
    {
        v.push(c);
    }
    v
}

/// The text that the characters spell.
pub fn string_of(chars: &Vec<char>) -> (s: String)
    ensures
        s@ == chars@,
{
    let mut s = String::new();
    let mut i: usize = 0;
    while i < chars.len()
        invariant
            i <= chars.len(),
            s@ == chars@.take(i as int),
        decreases chars.len() - i,
    {
        push_char(&mut s, chars[i]);
        i += 1;
    }
    s
}

/// Appends a copy of `tail` to `out`.
pub fn extend_chars(out: &mut Vec<char>, tail: &Vec<char>)
    ensures
        final(out)@ == old(out)@ + tail@,
{
    let mut i: usize = 0;
    while i < tail.len()
        invariant
            i <= tail.len(),
            out@ == old(out)@ + tail@.take(i as int),
        decreases tail.len() - i,
    {
        out.push(tail[i]);
        i += 1;
    }
}

/// Appends the characters of `tail` to `out`.
pub fn extend_str(out: &mut Vec<char>, tail: &str)
    ensures
        final(out)@ == old(out)@ + tail@,
{
    let chars = chars_of(tail);
    extend_chars(out, &chars);
}

/// Whether two texts are the same.
pub fn chars_eq(a: &Vec<char>, b: &Vec<char>) -> (r: bool)
    ensures
        r == (a@ == b@),
{
    if a.len() != b.len() {
        return false;
    }
    let mut i: usize = 0;
    while i < a.len()
        invariant
            i <= a.len(),
            a.len() == b.len(),
            a@.take(i as int) == b@.take(i as int),
        decreases a.len() - i,
    {
        if a[i] != b[i] {
            return false;
        }
        assert(a@.take(i + 1) == a@.take(i as int).push(a@[i as int]));
        assert(b@.take(i + 1) == b@.take(i as int).push(b@[i as int]));
        i += 1;
    }
    assert(a@.take(a.len() as int) == a@);
    assert(b@.take(b.len() as int) == b@);
    true
}

/// Whether two texts are the same.
pub fn str_eq(a: &str, b: &str) -> (r: bool)
    ensures
        r == (a@ == b@),
{
    let x = chars_of(a);
    let y = chars_of(b);
    chars_eq(&x, &y)
}

/// A copy of the characters.
pub fn clone_chars(a: &Vec<char>) -> (r: Vec<char>)
    ensures
        r@ == a@,
{
    let mut r: Vec<char> = Vec::new();
    extend_chars(&mut r, a);
    r
}


/// The small letter of an ASCII capital; any other character is itself.
pub open spec fn lower_char(c: char) -> char {
    if 'A' <= c && c <= 'Z' {
        ((c as u8) + 32) as char
    } else {
        c
    }
}

/// The small letter of an ASCII capital; any other character is itself.
pub fn to_lower_char(c: char) -> (r: char)
    ensures
        r == lower_char(c),
{
    if 'A' <= c && c <= 'Z' {
        ((c as u8) + 32) as char
    } else {
        c
    }
}

/// The text with its ASCII capitals replaced by small letters.
pub open spec fn ascii_lower(s: Seq<char>) -> Seq<char> {
    s.map_values(|c: char| lower_char(c))
}

/// The text with its ASCII capitals replaced by small letters.
pub fn to_ascii_lower(s: &Vec<char>) -> (r: Vec<char>)
    ensures
        r@ == ascii_lower(s@),
{
    let mut r: Vec<char> = Vec::new();
    let mut i: usize = 0;
    while i < s.len()
        invariant
            i <= s.len(),
            r@ == ascii_lower(s@.take(i as int)),
        decreases s.len() - i,
    {
        r.push(to_lower_char(s[i]));
        assert(s@.take(i + 1) == s@.take(i as int).push(s@[i as int]));
        i += 1;
    }
    assert(s@.take(s.len() as int) == s@);
    r
}

/// Where a text is cut into pieces: at every white-space character, or at
/// every space only.
pub open spec fn is_separator(c: char, any_whitespace: bool) -> bool {
    if any_whitespace {
        is_whitespace(c)
    } else {
        c == ' '
    }
}

/// The pieces between the separators of `s`, in order; two separators in a row
/// have an empty piece between them, so there is always one piece more than
/// there are separators.
pub open spec fn split(s: Seq<char>, any_whitespace: bool) -> Seq<Seq<char>>
    decreases s.len(),
{
    if s.len() == 0 {
        seq![Seq::<char>::empty()]
    } else {
        let before = split(s.drop_last(), any_whitespace);
        if is_separator(s.last(), any_whitespace) {
            before.push(Seq::<char>::empty())
        } else {
            before.drop_last().push(before.last().push(s.last()))
        }
    }
}

/// The pieces, as their characters.
pub open spec fn views(pieces: Seq<Vec<char>>) -> Seq<Seq<char>> {
    pieces.map_values(|p: Vec<char>| p@)
}

/// Cuts a text into the pieces between its separators.
pub fn split_chars(s: &Vec<char>, any_whitespace: bool) -> (pieces: Vec<Vec<char>>)
    ensures
        views(pieces@) == split(s@, any_whitespace),
        pieces@.len() >= 1,
{
    let mut done: Vec<Vec<char>> = Vec::new();
    let mut current: Vec<char> = Vec::new();
    let mut i: usize = 0;
    while i < s.len()
        invariant
            i <= s.len(),
            views(done@).push(current@) == split(s@.take(i as int), any_whitespace),
        decreases s.len() - i,
    {
        let c = s[i];
        let separator = if any_whitespace {
            is_whitespace_char(c)
        } else {
            c == ' '
        };
        proof {
            let prefix = s@.take(i + 1);
            assert(prefix.drop_last() == s@.take(i as int));
            assert(prefix.last() == c);
            let before = split(s@.take(i as int), any_whitespace);
            assert(before.last() == current@);
            assert(before.drop_last() == views(done@));
        }
        if separator {
            let ghost old_done = done@;
            done.push(current);
            current = Vec::new();
            assert(views(done@) == views(old_done).push(done@.last()@));
        } else {
            current.push(c);
        }
        i += 1;
    }
    assert(s@.take(s.len() as int) == s@);
    let ghost old_done = done@;
    done.push(current);
    assert(views(done@) == views(old_done).push(done@.last()@));
    done
}

/// The text without the white space at its start.
pub open spec fn trim_start(s: Seq<char>) -> Seq<char>
    decreases s.len(),
{
    if s.len() > 0 && is_whitespace(s[0]) {
        trim_start(s.drop_first())
    } else {
        s
    }
}

/// The text without the white space at its end.
pub open spec fn trim_end(s: Seq<char>) -> Seq<char>
    decreases s.len(),
{
    if s.len() > 0 && is_whitespace(s.last()) {
        trim_end(s.drop_last())
    } else {
        s
    }
}

/// The text without the white space at its two ends.
pub open spec fn trim(s: Seq<char>) -> Seq<char> {
    trim_end(trim_start(s))
}

/// The text without the white space at its two ends.
pub fn trim_chars(s: &Vec<char>) -> (r: Vec<char>)
    ensures
        r@ == trim(s@),
{
    let mut start: usize = 0;
    assert(s@.skip(0) == s@);
    while start < s.len() && is_whitespace_char(s[start])
        invariant
            start <= s.len(),
            trim_start(s@) == trim_start(s@.skip(start as int)),
        decreases s.len() - start,
    {
        assert(s@.skip(start as int).drop_first() == s@.skip(start + 1));
        start += 1;
    }
    let mut end: usize = s.len();
    while end > start && is_whitespace_char(s[end - 1])
        invariant
            start <= end <= s.len(),
            trim_start(s@) == s@.skip(start as int),
            trim(s@) == trim_end(s@.subrange(start as int, end as int)),
        decreases end,
    {
        assert(s@.subrange(start as int, end as int).drop_last() == s@.subrange(
            start as int,
            end - 1,
        ));
        end -= 1;
    }
    let mut r: Vec<char> = Vec::new();
    let mut i: usize = start;
    while i < end
        invariant
            start <= i <= end <= s.len(),
            r@ == s@.subrange(start as int, i as int),
        decreases end - i,
    {
        r.push(s[i]);
        i += 1;
    }
    r
}

/// The pieces in a row, with `separator` between each two.
pub open spec fn join(pieces: Seq<Seq<char>>, separator: Seq<char>) -> Seq<char>
    decreases pieces.len(),
{
    if pieces.len() == 0 {
        Seq::<char>::empty()
    } else if pieces.len() == 1 {
        pieces[0]
    } else {
        join(pieces.drop_last(), separator) + separator + pieces.last()
    }
}

/// The pieces in a row, with `separator` between each two.
pub fn join_chars(pieces: &Vec<Vec<char>>, separator: &Vec<char>) -> (r: Vec<char>)
    ensures
        r@ == join(views(pieces@), separator@),
{
    let mut r: Vec<char> = Vec::new();
    let mut i: usize = 0;
    while i < pieces.len()
        invariant
            i <= pieces.len(),
            r@ == join(views(pieces@).take(i as int), separator@),
        decreases pieces.len() - i,
    {
        proof {
            let next = views(pieces@).take(i + 1);
            assert(next.drop_last() == views(pieces@).take(i as int));
            assert(next.last() == pieces@[i as int]@);
        }
        if i > 0 {
            extend_chars(&mut r, separator);
        }
        extend_chars(&mut r, &pieces[i]);
        i += 1;
    }
    assert(views(pieces@).take(pieces.len() as int) == views(pieces@));
    r
}

} // verus!
