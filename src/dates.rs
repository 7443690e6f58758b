//! Calendar dates as year, month and day, read with chrono, and the date
//! range that the capture dates of a set of files span.

use crate::text::{chars_of, find_char, find_from, slice_chars, string_of, trim, trimmed_chars};
use chrono::Datelike;
use vstd::prelude::*;

verus! {

/// A calendar date.
#[derive(Debug, Clone, Copy, PartialEq, Eq, Structural)]
pub struct Date {
    pub year: i32,
    pub month: u32,
    pub day: u32,
}

/// What `NaiveDate::parse_from_str(s, "%Y-%m-%d")` reads from `s`, as
/// year, month and day.
pub uninterp spec fn ymd_parse(s: Seq<char>) -> Option<(i32, u32, u32)>;

/// The date `n` days before the given year, month and day, as
/// `NaiveDate::checked_sub_days` computes it.
pub uninterp spec fn days_earlier(y: int, m: int, d: int, n: int) -> Option<(i32, u32, u32)>;

/// The date that `ymd_parse` gives, as a `Date`.
pub open spec fn parsed_date(s: Seq<char>) -> Option<Date> {
    match ymd_parse(s) {
        Some((y, m, d)) => Some(Date { year: y, month: m, day: d }),
        None => None,
    }
}

/// Relies on chrono's `NaiveDate::parse_from_str` with `%Y-%m-%d`: the
/// result depends on the text alone, and a date's month is 1..=12 and its
/// day 1..=31.
#[verifier::external_body]
pub(crate) fn parse_ymd(s: &str) -> (r: Option<Date>)
    ensures
        r == match ymd_parse(s@) {
            Some((y, m, d)) => Some(Date { year: y, month: m, day: d }),
            None => None::<Date>,
        },
        r is Some ==> 1 <= r->Some_0.month <= 12 && 1 <= r->Some_0.day <= 31,
{
    let d = chrono::NaiveDate::parse_from_str(s, "%Y-%m-%d").ok()?;
    Some(Date { year: d.year(), month: d.month(), day: d.day() })
}

/// Relies on chrono's `NaiveDate::checked_sub_days`: `None` for an
/// invalid date or one out of chrono's range.
#[verifier::external_body]
pub(crate) fn days_before(date: Date, n: u32) -> (r: Option<Date>)
    ensures
        r == match days_earlier(date.year as int, date.month as int, date.day as int, n as int) {
            Some((y, m, d)) => Some(Date { year: y, month: m, day: d }),
            None => None::<Date>,
        },
{
    let d = chrono::NaiveDate::from_ymd_opt(date.year, date.month, date.day)?;
    let e = d.checked_sub_days(chrono::Days::new(n as u64))?;
    Some(Date { year: e.year(), month: e.month(), day: e.day() })
}

/// `a` is on or before `b`.
pub open spec fn date_le(a: Date, b: Date) -> bool {
    a.year < b.year || (a.year == b.year && (a.month < b.month || (a.month == b.month && a.day
        <= b.day)))
}

/// Whether `a` is on or before `b`.
pub fn on_or_before(a: Date, b: Date) -> (r: bool)
    ensures
        r == date_le(a, b),
{
    a.year < b.year || (a.year == b.year && (a.month < b.month || (a.month == b.month && a.day
        <= b.day)))
}

/// The range widened to take in `d`.
pub open spec fn widen(range: Option<(Date, Date)>, d: Date) -> Option<(Date, Date)> {
    match range {
        None => Some((d, d)),
        Some((lo, hi)) => Some(
            (if date_le(lo, d) {
                lo
            } else {
                d
            }, if date_le(d, hi) {
                hi
            } else {
                d
            }),
        ),
    }
}

/// The range after one line of a date listing: blank lines and `-` (no
/// date) change nothing, nor does text that is not a date.
pub open spec fn range_line(range: Option<(Date, Date)>, line: Seq<char>) -> Option<(Date, Date)> {
    let l = trim(line);
    if l.len() == 0 || l == seq!['-'] {
        range
    } else {
        match parsed_date(l) {
            Some(d) => widen(range, d),
            None => range,
        }
    }
}

/// The range after the lines of `out` that start at or after `pos`.
pub open spec fn range_lines(out: Seq<char>, pos: int, range: Option<(Date, Date)>) -> Option<
    (Date, Date),
>
    decreases out.len() + 1 - pos,
{
    if pos < 0 || pos > out.len() {
        range
    } else {
        let e = find_from(out, '\n', pos);
        if e < pos || e > out.len() {
            range
        } else {
            range_lines(out, e + 1, range_line(range, out.subrange(pos, e)))
        }
    }
}

/// Widens `range` to take in every capture date of a listing with one
/// `YYYY-MM-DD` date (or `-`) per line.
pub fn date_range_of(listing: &str, range: Option<(Date, Date)>) -> (r: Option<(Date, Date)>)
    ensures
        r == range_lines(listing@, 0, range),
{
    let out = chars_of(listing);
    let mut acc = range;
    let mut pos: usize = 0;
    loop
        invariant
            out@ == listing@,
            pos <= out@.len(),
            range_lines(out@, 0, range) == range_lines(out@, pos as int, acc),
        ensures
            range_lines(out@, 0, range) == acc,
        decreases out@.len() + 1 - pos,
    {
        let e = find_char(&out, '\n', pos);
        let l = trimmed_chars(&slice_chars(&out, pos, e));
        if l.len() != 0 && !(l.len() == 1 && l[0] == '-') {
            assert(l@ != seq!['-']);
            match parse_ymd(string_of(&l).as_str()) {
                Some(d) => {
                    acc = match acc {
                        None => Some((d, d)),
                        Some((lo, hi)) => Some(
                            (if on_or_before(lo, d) {
                                lo
                            } else {
                                d
                            }, if on_or_before(d, hi) {
                                hi
                            } else {
                                d
                            }),
                        ),
                    };
                },
                None => {},
            }
        } else {
            assert(l@.len() == 1 && l@[0] == '-' ==> l@ =~= seq!['-']);
        }
        if e >= out.len() {
            assert(range_lines(out@, e + 1, acc) == acc);
            break;
        }
        pos = e + 1;
    }
    acc
}

} // verus!
