//! Reading the camera's clock offset out of the metadata tool's grouped,
//! short-form tag listing (`[Group] Tag : Value` per line).

use crate::error::PhotoError;
use crate::offset::{format_offset, offset_text, offset_value, parse_offset};
use crate::text::{
    chars_eq, chars_of, find_char, find_from, rfind, rfind_char, slice_chars, string_of, trim,
    trimmed_chars, views,
};
use vstd::prelude::*;

verus! {

/// What the listing has shown so far: the daylight-saving flag, the last
/// `OffsetTimeOriginal` value and the last `TimeZone` value.
pub type ProbeTags = (bool, Option<Seq<char>>, Option<Seq<char>>);

/// The tag name of a key: the text after its last space, or the whole key.
pub open spec fn tag_of(key: Seq<char>) -> Seq<char> {
    key.subrange(rfind(key, ' ') + 1, key.len() as int)
}

/// The tags after reading one line of the listing.
pub open spec fn read_line(st: ProbeTags, line: Seq<char>) -> ProbeTags {
    let l = trim(line);
    let i = find_from(l, ':', 0);
    if l.len() == 0 || i >= l.len() {
        st
    } else {
        let tag = tag_of(trim(l.subrange(0, i)));
        let value = trim(l.subrange(i + 1, l.len() as int));
        if tag == "DaylightSavings"@ {
            (st.0 || value == "On"@, st.1, st.2)
        } else if tag == "OffsetTimeOriginal"@ {
            (st.0, Some(value), st.2)
        } else if tag == "TimeZone"@ {
            (st.0, st.1, Some(value))
        } else {
            st
        }
    }
}

/// The tags after reading the lines of `out` that start at or after `pos`.
pub open spec fn read_lines(out: Seq<char>, pos: int, st: ProbeTags) -> ProbeTags
    decreases out.len() + 1 - pos,
{
    if pos < 0 || pos > out.len() {
        st
    } else {
        let e = find_from(out, '\n', pos);
        if e < pos || e > out.len() {
            st
        } else {
            read_lines(out, e + 1, read_line(st, out.subrange(pos, e)))
        }
    }
}

/// The offset and daylight-saving flag that a listing shows: an
/// `OffsetTimeOriginal` value is taken as it stands; else a `TimeZone` value
/// is parsed, an hour is added when daylight saving is on, and the result
/// is written back as `±HH:MM`; else there is no offset.
pub open spec fn probe_result(out: Seq<char>) -> Result<(Seq<char>, bool), PhotoError> {
    let st = read_lines(out, 0, (false, None, None));
    match st.1 {
        Some(o) => Ok((o, st.0)),
        None => match st.2 {
            Some(z) => match offset_value(z) {
                Some(v) => {
                    let w = if st.0 {
                        v + 60
                    } else {
                        v
                    };
                    if i32::MIN <= v <= i32::MAX && i32::MIN <= w <= i32::MAX {
                        Ok((offset_text(w), st.0))
                    } else {
                        Err(PhotoError::InvalidFormat)
                    }
                },
                None => Err(PhotoError::InvalidFormat),
            },
            None => Err(PhotoError::NoOffsetFound),
        },
    }
}

fn tag_name(key: &Vec<char>) -> (r: Vec<char>)
    ensures
        r@ == tag_of(key@),
{
    let n = key.len();
    match rfind_char(key, ' ') {
        Some(k) => slice_chars(key, k + 1, n),
        None => slice_chars(key, 0, n),
    }
}

fn apply_line(
    line: &Vec<char>,
    dst: &mut bool,
    oto: &mut Option<Vec<char>>,
    tz: &mut Option<Vec<char>>,
)
    ensures
        ({
            let st = read_line(
                (*old(dst), opt_view(*old(oto)), opt_view(*old(tz))),
                line@,
            );
            &&& *final(dst) == st.0
            &&& opt_view(*final(oto)) == st.1
            &&& opt_view(*final(tz)) == st.2
        }),
{
    let l = trimmed_chars(line);
    if l.len() == 0 {
        return ;
    }
    let i = find_char(&l, ':', 0);
    if i >= l.len() {
        return ;
    }
    let key = trimmed_chars(&slice_chars(&l, 0, i));
    let value = trimmed_chars(&slice_chars(&l, i + 1, l.len()));
    let tag = tag_name(&key);
    if chars_eq(&tag, &chars_of("DaylightSavings")) {
        if chars_eq(&value, &chars_of("On")) {
            *dst = true;
        }
    } else if chars_eq(&tag, &chars_of("OffsetTimeOriginal")) {
        *oto = Some(value);
    } else if chars_eq(&tag, &chars_of("TimeZone")) {
        *tz = Some(value);
    }
}

/// The view of an optional character vector.
pub open spec fn opt_view(v: Option<Vec<char>>) -> Option<Seq<char>> {
    match v {
        Some(x) => Some(x@),
        None => None,
    }
}

/// Reads the offset the camera was set to, and whether daylight saving was
/// on, from the metadata tool's listing of one file.
pub fn get_image_offset(output: &str) -> (r: Result<(String, bool), PhotoError>)
    ensures
        match r {
            Ok((t, d)) => probe_result(output@) == Ok::<(Seq<char>, bool), PhotoError>((t@, d)),
            Err(e) => probe_result(output@) == Err::<(Seq<char>, bool), PhotoError>(e),
        },
{
    let out = chars_of(output);
    let mut dst = false;
    let mut oto: Option<Vec<char>> = None;
    let mut tz: Option<Vec<char>> = None;
    let mut pos: usize = 0;
    loop
        invariant
            out@ == output@,
            pos <= out@.len(),
            read_lines(out@, 0, (false, None, None)) == read_lines(
                out@,
                pos as int,
                (dst, opt_view(oto), opt_view(tz)),
            ),
        ensures
            read_lines(out@, 0, (false, None, None)) == (dst, opt_view(oto), opt_view(tz)),
        decreases out@.len() + 1 - pos,
    {
        let e = find_char(&out, '\n', pos);
        let line = slice_chars(&out, pos, e);
        apply_line(&line, &mut dst, &mut oto, &mut tz);
        if e >= out.len() {
            assert(read_lines(out@, e + 1, (dst, opt_view(oto), opt_view(tz))) == (
                dst,
                opt_view(oto),
                opt_view(tz),
            ));
            break;
        }
        pos = e + 1;
    }
    match oto {
        Some(o) => Ok((string_of(&o), dst)),
        None => match tz {
            Some(z) => {
                let v = match parse_offset(string_of(&z).as_str()) {
                    Ok(v) => v,
                    Err(e) => {
                        return Err(e);
                    },
                };
                if dst {
                    if v > i32::MAX - 60 {
                        return Err(PhotoError::InvalidFormat);
                    }
                    Ok((format_offset(v + 60), dst))
                } else {
                    Ok((format_offset(v), dst))
                }
            },
            None => Err(PhotoError::NoOffsetFound),
        },
    }
}

/// The options of the metadata tool's read of one file: grouped, short tag
/// names for the capture time, the DST flag and the two offset tags.
pub open spec fn probe_args(file: Seq<char>) -> Seq<Seq<char>> {
    seq![
        "-G1"@,
        "-a"@,
        "-s"@,
        "-DateTimeOriginal"@,
        "-DaylightSavings"@,
        "-TimeZone"@,
        "-OffsetTimeOriginal"@,
        file,
    ]
}

/// The metadata tool's arguments for reading the offset tags of `file`.
pub fn probe_call_args(file: &str) -> (r: Vec<String>)
    ensures
        views(r@) == probe_args(file@),
{
    let mut v: Vec<String> = Vec::new();
    v.push(string_of(&chars_of("-G1")));
    v.push(string_of(&chars_of("-a")));
    v.push(string_of(&chars_of("-s")));
    v.push(string_of(&chars_of("-DateTimeOriginal")));
    v.push(string_of(&chars_of("-DaylightSavings")));
    v.push(string_of(&chars_of("-TimeZone")));
    v.push(string_of(&chars_of("-OffsetTimeOriginal")));
    v.push(string_of(&chars_of(file)));
    assert(views(v@) =~= probe_args(file@));
    v
}

/// The metadata tool's arguments for listing the capture date of every
/// file under `dir`, one `YYYY-MM-DD` per line.
pub fn date_listing_args(dir: &str) -> (r: Vec<String>)
    ensures
        views(r@) == seq!["-T"@, "-d"@, "%Y-%m-%d"@, "-DateTimeOriginal"@, "-r"@, dir@],
{
    let mut v: Vec<String> = Vec::new();
    v.push(string_of(&chars_of("-T")));
    v.push(string_of(&chars_of("-d")));
    v.push(string_of(&chars_of("%Y-%m-%d")));
    v.push(string_of(&chars_of("-DateTimeOriginal")));
    v.push(string_of(&chars_of("-r")));
    v.push(string_of(&chars_of(dir)));
    assert(views(v@) =~= seq!["-T"@, "-d"@, "%Y-%m-%d"@, "-DateTimeOriginal"@, "-r"@, dir@]);
    v
}

} // verus!
