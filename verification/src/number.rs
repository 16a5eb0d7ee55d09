//! Whole numbers written in decimal, as attributes hold them.
use vstd::prelude::*;
use crate::text::chars_of;

verus! {

/// One of the ten digits.
pub open spec fn is_digit(c: char) -> bool {
    '0' <= c && c <= '9'
}

/// Every character is a digit.
pub open spec fn all_digits(s: Seq<char>) -> bool {
    forall|i: int| 0 <= i < s.len() ==> is_digit(#[trigger] s[i])
}

/// The number that a run of digits spells.
pub open spec fn digits_value(s: Seq<char>) -> int
    decreases s.len(),
{
    if s.len() == 0 {
        0
    } else {
        digits_value(s.drop_last()) * 10 + (s.last() as int - '0' as int)
    }
}

/// The number that a text spells: an optional sign, which may be `-` only
/// where `signed`, and then one digit or more.
pub open spec fn decimal(s: Seq<char>, signed: bool) -> Option<int> {
    if s.len() > 0 && (s[0] == '+' || (signed && s[0] == '-')) {
        let digits = s.drop_first();
        if digits.len() > 0 && all_digits(digits) {
            Some(
                if s[0] == '-' {
                    -digits_value(digits)
                } else {
                    digits_value(digits)
                },
            )
        } else {
            None
        }
    } else if s.len() > 0 && all_digits(s) {
        Some(digits_value(s))
    } else {
        None
    }
}

/// The text as a `usize`, where it spells a number that fits.
pub open spec fn usize_of(s: Seq<char>) -> Option<usize> {
    match decimal(s, false) {
        Some(v) => if v <= usize::MAX {
            Some(v as usize)
        } else {
            None
        },
        None => None,
    }
}

/// The text as an `i64`, where it spells a number that fits.
pub open spec fn i64_of(s: Seq<char>) -> Option<i64> {
    match decimal(s, true) {
        Some(v) => if i64::MIN <= v <= i64::MAX {
            Some(v as i64)
        } else {
            None
        },
        None => None,
    }
}

proof fn lemma_digits_grow(s: Seq<char>, k: int)
    requires
        all_digits(s),
        0 <= k <= s.len(),
    ensures
        0 <= digits_value(s.take(k)) <= digits_value(s),
    decreases s.len() - k,
{
    lemma_digits_nonnegative(s.take(k));
    if k < s.len() {
        let next = s.take(k + 1);
        assert(next.drop_last() == s.take(k));
        assert(is_digit(s[k]));
        assert(next.last() == s[k]);
        lemma_digits_grow(s, k + 1);
    } else {
        assert(s.take(k) == s);
    }
}

proof fn lemma_digits_nonnegative(s: Seq<char>)
    requires
        all_digits(s),
    ensures
        digits_value(s) >= 0,
    decreases s.len(),
{
    if s.len() > 0 {
        assert(is_digit(s.last()));
        assert(all_digits(s.drop_last())) by {
            assert forall|i: int| 0 <= i < s.drop_last().len() implies is_digit(
                #[trigger] s.drop_last()[i],
            ) by {
                assert(s.drop_last()[i] == s[i]);
            }
        }
        lemma_digits_nonnegative(s.drop_last());
    }
}

/// Reads the digits of `s` from `from` on. `None` where there is none, where
/// something else stands among them, or where the number is above `limit`.
fn read_digits(s: &Vec<char>, from: usize, limit: u64) -> (r: Option<u64>)
    requires
        from <= s.len(),
    ensures
        match r {
            Some(v) => s@.skip(from as int).len() > 0 && all_digits(s@.skip(from as int)) && v
                == digits_value(s@.skip(from as int)) && v <= limit,
            None => !(s@.skip(from as int).len() > 0 && all_digits(s@.skip(from as int))
                && digits_value(s@.skip(from as int)) <= limit),
        },
{
    let ghost digits = s@.skip(from as int);
    if from == s.len() {
        return None;
    }
    let mut value: u64 = 0;
    let mut i: usize = from;
    assert(digits.take(0) == Seq::<char>::empty());
    while i < s.len()
        invariant
            from <= i <= s.len(),
            digits == s@.skip(from as int),
            all_digits(digits.take(i - from)),
            value == digits_value(digits.take(i - from)),
            value <= limit,
        decreases s.len() - i,
    {
        let c = s[i];
        assert(c == digits[i - from]);
        if !('0' <= c && c <= '9') {
            assert(!is_digit(digits[i - from]));
            return None;
        }
        let d: u64 = (c as u64) - ('0' as u64);
        proof {
            let next = digits.take(i - from + 1);
            assert(next.drop_last() == digits.take(i - from));
            assert(next.last() == c);
            assert forall|k: int| 0 <= k < next.len() implies is_digit(#[trigger] next[k]) by {
                if k < i - from {
                    assert(next[k] == digits.take(i - from)[k]);
                }
            }
        }
        if d > limit || value > (limit - d) / 10 {
            proof {
                let next = digits.take(i - from + 1);
                assert(digits_value(next) == value * 10 + d);
                assert(digits_value(next) > limit);
                if all_digits(digits) {
                    lemma_digits_grow(digits, i - from + 1);
                }
            }
            return None;
        }
        value = value * 10 + d;
        i += 1;
    }
    assert(digits.take(digits.len() as int) == digits);
    Some(value)
}

/// Reads a whole number that is not negative.
pub fn parse_usize(text: &str) -> (r: Option<usize>)
    ensures
        r == usize_of(text@),
{
    let s = chars_of(text);
    let from: usize = if s.len() > 0 && s[0] == '+' {
        1
    } else {
        0
    };
    proof {
        if from == 1 {
            assert(s@.skip(1) == s@.drop_first());
        } else {
            assert(s@.skip(0) == s@);
            if s@.len() > 0 && s@[0] == '-' {
                assert(!is_digit(s@[0]));
            }
        }
    }
    match read_digits(&s, from, usize::MAX as u64) {
        Some(v) => Some(v as usize),
        None => None,
    }
}

/// Reads a whole number.
pub fn parse_i64(text: &str) -> (r: Option<i64>)
    ensures
        r == i64_of(text@),
{
    let s = chars_of(text);
    let negative = s.len() > 0 && s[0] == '-';
    let from: usize = if s.len() > 0 && (s[0] == '+' || s[0] == '-') {
        1
    } else {
        0
    };
    proof {
        if from == 1 {
            assert(s@.skip(1) == s@.drop_first());
        } else {
            assert(s@.skip(0) == s@);
        }
    }
    let limit: u64 = if negative {
        0x8000_0000_0000_0000
    } else {
        0x7fff_ffff_ffff_ffff
    };
    match read_digits(&s, from, limit) {
        Some(v) => {
            if negative {
                if v == 0x8000_0000_0000_0000 {
                    Some(i64::MIN)
                } else {
                    Some(-(v as i64))
                }
            } else {
                Some(v as i64)
            }
        },
        None => {
            proof {
                if s@.skip(from as int).len() > 0 && all_digits(s@.skip(from as int)) {
                    lemma_digits_nonnegative(s@.skip(from as int));
                }
            }
            None
        },
    }
}

/// The digits of a number, the first of them no zero unless it is the only
/// one.
fn decimal_digits(value: u64) -> (digits: Vec<char>)
    ensures
        digits@.len() > 0,
        all_digits(digits@),
        digits_value(digits@) == value,
    decreases value,
{
    let last = ((value % 10) as u8 + 48) as char;
    if value < 10 {
        let mut digits: Vec<char> = Vec::new();
        digits.push(last);
        assert(digits@.drop_last() == Seq::<char>::empty());
        assert(digits_value(digits@.drop_last()) == 0) by {
            reveal_with_fuel(digits_value, 2);
        }
        digits
    } else {
        let mut digits = decimal_digits(value / 10);
        let ghost before = digits@;
        digits.push(last);
        assert(digits@.drop_last() == before);
        assert forall|i: int| 0 <= i < digits@.len() implies is_digit(#[trigger] digits@[i]) by {
            if i < before.len() {
                assert(digits@[i] == before[i]);
            }
        }
        digits
    }
}

/// Writes a number in decimal: reading it back gives the number.
pub fn to_decimal(value: i64) -> (text: String)
    ensures
        i64_of(text@) == Some(value),
{
    if value < 0 {
        let magnitude: u64 = if value == i64::MIN {
            0x8000_0000_0000_0000
        } else {
            (-value) as u64
        };
        let digits = decimal_digits(magnitude);
        let mut out: Vec<char> = Vec::new();
        out.push('-');
        crate::text::extend_chars(&mut out, &digits);
        assert(out@.drop_first() == digits@);
        crate::text::string_of(&out)
    } else {
        let digits = decimal_digits(value as u64);
        assert(is_digit(digits@[0]));
        crate::text::string_of(&digits)
    }
}

} // verus!
