//! Signed `±HH:MM` UTC offsets and their value in minutes.

use crate::error::PhotoError;
use crate::text::{
    all_digits, chars_of, digits_value, find_char, find_from, i32_value, integer_value,
    lemma_find_from, lemma_find_from_at, parse_i32, slice_chars, string_of, trim, trim_end,
    trim_start, trim_str,
};
use vstd::prelude::*;

verus! {

/// The character of the decimal digit `d` (0..=9).
pub open spec fn digit_char(d: int) -> char {
    (48 + d) as u8 as char
}

/// True when `c` is an ASCII decimal digit.
pub open spec fn is_digit(c: char) -> bool {
    '0' <= c && c <= '9'
}

/// The value of the ASCII digit `c`.
pub open spec fn digit_value(c: char) -> int {
    c as int - 48
}

/// A number below 100 written with at least two digits, as `{:02}` does.
pub open spec fn two_digits(n: nat) -> Seq<char>
    decreases n,
{
    if n < 10 {
        seq!['0', digit_char(n as int)]
    } else if n < 100 {
        seq![digit_char(n as int / 10), digit_char(n as int % 10)]
    } else {
        decimal(n)
    }
}

/// The decimal digits of `n`, without leading zeros (`"0"` for zero).
pub open spec fn decimal(n: nat) -> Seq<char>
    decreases n,
{
    if n < 10 {
        seq![digit_char(n as int)]
    } else {
        decimal(n / 10).push(digit_char((n % 10) as int))
    }
}

/// The canonical text of an offset of `m` minutes: `{sign}{hh:02}:{mm:02}`.
pub open spec fn offset_text(m: int) -> Seq<char> {
    let a: nat = if m < 0 { (-m) as nat } else { m as nat };
    seq![if m >= 0 { '+' } else { '-' }] + two_digits(a / 60) + seq![':'] + two_digits(a % 60)
}

fn digit(d: u64) -> (c: char)
    requires
        d < 10,
    ensures
        c == digit_char(d as int),
{
    (48u8 + d as u8) as char
}

pub(crate) fn push_decimal(out: &mut Vec<char>, n: u64)
    ensures
        final(out)@ == old(out)@ + decimal(n as nat),
    decreases n,
{
    if n < 10 {
        out.push(digit(n));
    } else {
        push_decimal(out, n / 10);
        out.push(digit(n % 10));
    }
}

fn push_two_digits(out: &mut Vec<char>, n: u64)
    ensures
        final(out)@ == old(out)@ + two_digits(n as nat),
{
    if n < 10 {
        out.push('0');
        out.push(digit(n));
    } else if n < 100 {
        out.push(digit(n / 10));
        out.push(digit(n % 10));
    } else {
        push_decimal(out, n);
    }
}


/// The minutes that the offset text `s` stands for: after trimming, an
/// optional sign, then hours and minutes as the first two `:`-separated
/// integer fields.
pub open spec fn offset_value(s: Seq<char>) -> Option<int> {
    let t = trim(s);
    if t.len() == 0 {
        None
    } else {
        let rest = if t[0] == '+' || t[0] == '-' {
            t.drop_first()
        } else {
            t
        };
        let i = find_from(rest, ':', 0);
        let j = find_from(rest, ':', i + 1);
        if i >= rest.len() {
            None
        } else {
            match (i32_value(rest.subrange(0, i)), i32_value(rest.subrange(i + 1, j))) {
                (Some(h), Some(m)) => Some(
                    if t[0] == '-' {
                        -(h * 60 + m)
                    } else {
                        h * 60 + m
                    },
                ),
                _ => None,
            }
        }
    }
}

/// The offset text with its sign flipped and its first two fields kept:
/// a missing sign counts as `+`; `None` when there is no `:`.
pub open spec fn inverted_text(s: Seq<char>) -> Option<Seq<char>> {
    let signed = s.len() > 0 && (s[0] == '+' || s[0] == '-');
    let rest = if signed {
        s.drop_first()
    } else {
        s
    };
    let flipped = if signed && s[0] == '-' {
        '+'
    } else {
        '-'
    };
    let i = find_from(rest, ':', 0);
    let j = find_from(rest, ':', i + 1);
    if i >= rest.len() {
        None
    } else {
        Some(seq![flipped] + rest.subrange(0, i) + seq![':'] + rest.subrange(i + 1, j))
    }
}

/// Writes `mins` as `±HH:MM`.
pub fn format_offset(mins: i32) -> (r: String)
    ensures
        r@ == offset_text(mins as int),
{
    let wide = mins as i64;
    let a: u64 = if wide < 0 {
        (-wide) as u64
    } else {
        wide as u64
    };
    let mut out: Vec<char> = Vec::new();
    out.push(if mins >= 0 { '+' } else { '-' });
    push_two_digits(&mut out, a / 60);
    out.push(':');
    push_two_digits(&mut out, a % 60);
    string_of(&out)
}

/// Reads `±HH:MM` (or `HH:MM`) text as a signed number of minutes.
pub fn parse_offset(s: &str) -> (r: Result<i32, PhotoError>)
    ensures
        match r {
            Ok(v) => offset_value(s@) == Some(v as int),
            Err(e) => e == PhotoError::InvalidFormat && match offset_value(s@) {
                Some(v) => !(i32::MIN <= v <= i32::MAX),
                None => true,
            },
        },
{
    let t = trim_str(s);
    let cs = chars_of(t);
    if cs.len() == 0 {
        return Err(PhotoError::InvalidFormat);
    }
    let start: usize = if cs[0] == '+' || cs[0] == '-' {
        1
    } else {
        0
    };
    let rest = slice_chars(&cs, start, cs.len());
    assert(start == 1 ==> rest@ == cs@.drop_first());
    assert(start == 0 ==> rest@ == cs@);
    let i = find_char(&rest, ':', 0);
    if i >= rest.len() {
        return Err(PhotoError::InvalidFormat);
    }
    let j = find_char(&rest, ':', i + 1);
    let h_text = string_of(&slice_chars(&rest, 0, i));
    let m_text = string_of(&slice_chars(&rest, i + 1, j));
    let h = match parse_i32(h_text.as_str()) {
        Some(h) => h,
        None => {
            return Err(PhotoError::InvalidFormat);
        },
    };
    let m = match parse_i32(m_text.as_str()) {
        Some(m) => m,
        None => {
            return Err(PhotoError::InvalidFormat);
        },
    };
    let total: i64 = h as i64 * 60 + m as i64;
    let signed: i64 = if cs[0] == '-' {
        -total
    } else {
        total
    };
    if signed < i32::MIN as i64 || signed > i32::MAX as i64 {
        return Err(PhotoError::InvalidFormat);
    }
    Ok(signed as i32)
}

/// Flips the sign of offset text, turning "the camera was set to `O`" into
/// "shift by `-O` to reach UTC". `None` when the text has no `:`.
pub fn invert_offset(s: &str) -> (r: Option<String>)
    ensures
        match r {
            Some(t) => inverted_text(s@) == Some(t@),
            None => inverted_text(s@) is None,
        },
{
    let cs = chars_of(s);
    let signed = cs.len() > 0 && (cs[0] == '+' || cs[0] == '-');
    let rest = if signed {
        slice_chars(&cs, 1, cs.len())
    } else {
        slice_chars(&cs, 0, cs.len())
    };
    assert(signed ==> rest@ == cs@.drop_first());
    assert(!signed ==> rest@ == cs@);
    let i = find_char(&rest, ':', 0);
    if i >= rest.len() {
        return None;
    }
    let j = find_char(&rest, ':', i + 1);
    let mut out: Vec<char> = Vec::new();
    out.push(if signed && cs[0] == '-' { '+' } else { '-' });
    out.append(&mut slice_chars(&rest, 0, i));
    out.push(':');
    out.append(&mut slice_chars(&rest, i + 1, j));
    Some(string_of(&out))
}

proof fn lemma_two_digits(n: nat)
    requires
        n < 100,
    ensures
        two_digits(n).len() == 2,
        all_digits(two_digits(n)),
        digits_value(two_digits(n)) == n,
        two_digits(n)[0] != ':' && two_digits(n)[1] != ':',
{
    let d = two_digits(n);
    let hi: int = n as int / 10;
    let lo: int = n as int % 10;
    assert(d[0] == digit_char(hi) && d[1] == digit_char(lo));
    assert(digit_char(hi) as int == 48 + hi);
    assert(digit_char(lo) as int == 48 + lo);
    assert(d.drop_last() =~= seq![d[0]]);
    assert(seq![d[0]].drop_last() =~= Seq::<char>::empty());
    assert(digits_value(Seq::<char>::empty()) == 0);
    assert(digits_value(seq![d[0]]) == hi);
    assert(digits_value(d) == hi * 10 + lo);
}

/// Formatting an offset of less than a day and parsing the text back gives
/// the same number of minutes.
pub proof fn lemma_offset_round_trip(m: int)
    requires
        -1439 <= m <= 1439,
    ensures
        offset_value(offset_text(m)) == Some(m),
{
    let a: nat = if m < 0 { (-m) as nat } else { m as nat };
    let t = offset_text(m);
    let hh = two_digits(a / 60);
    let mm = two_digits(a % 60);
    lemma_two_digits(a / 60);
    lemma_two_digits(a % 60);
    assert(t.len() == 6);
    assert(trim_start(t) == t);
    assert(t.last() == mm[1]);
    assert(trim_end(t) == t);
    let rest = t.drop_first();
    assert(rest =~= hh + seq![':'] + mm);
    lemma_find_from_at(rest, ':', 0, 2);
    lemma_find_from_at(rest, ':', 3, 5);
    assert(rest.subrange(0, 2) =~= hh);
    assert(rest.subrange(3, 5) =~= mm);
    assert(integer_value(hh) == Some((a / 60) as int));
    assert(integer_value(mm) == Some((a % 60) as int));
}

/// Shifting by the inverted detected offset `o` and then by the target
/// offset `t` moves a timestamp as far as one shift of `t - o` does.
pub proof fn lemma_two_stage_shift(o: Seq<char>, t: Seq<char>)
    requires
        trim(o) == o,
        offset_value(o) is Some,
        offset_value(t) is Some,
    ensures
        inverted_text(o) is Some,
        offset_value(inverted_text(o)->Some_0) is Some,
        offset_value(inverted_text(o)->Some_0)->Some_0 + offset_value(t)->Some_0
            == offset_value(t)->Some_0 - offset_value(o)->Some_0,
{
    let signed = o[0] == '+' || o[0] == '-';
    let rest = if signed { o.drop_first() } else { o };
    let i = find_from(rest, ':', 0);
    let j = find_from(rest, ':', i + 1);
    lemma_find_from(rest, ':', 0);
    lemma_find_from(rest, ':', i + 1);
    let h = rest.subrange(0, i);
    let mn = rest.subrange(i + 1, j);
    let flipped = if signed && o[0] == '-' { '+' } else { '-' };
    let inv = seq![flipped] + h + seq![':'] + mn;
    assert(inverted_text(o) == Some(inv));
    assert(mn.len() > 0);
    assert(mn.drop_first().len() > 0 ==> mn.last() == mn.drop_first().last());
    assert(inv.last() == mn.last());
    assert('0' <= mn.last() <= '9');
    assert(trim_start(inv) == inv);
    assert(trim_end(inv) == inv);
    let rest2 = inv.drop_first();
    assert(rest2 =~= h + seq![':'] + mn);
    assert forall|k: int| 0 <= k < h.len() implies rest2[k] != ':' by {
        assert(rest2[k] == rest[k]);
    }
    lemma_find_from_at(rest2, ':', 0, h.len() as int);
    assert forall|k: int| h.len() + 1 <= k < rest2.len() implies rest2[k] != ':' by {
        assert(rest2[k] == rest[k]);
    }
    lemma_find_from_at(rest2, ':', h.len() + 1 as int, rest2.len() as int);
    assert(rest2.subrange(0, h.len() as int) =~= h);
    assert(rest2.subrange(h.len() + 1 as int, rest2.len() as int) =~= mn);
}

} // verus!
