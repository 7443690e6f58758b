//! The outside tools' invocations: each mutating step of the pipeline is a
//! `ToolCall` value, built here and run (or, in a dry run, only shown) by
//! the caller.

use crate::error::PhotoError;
use crate::offset::{decimal, push_decimal};
use crate::scan::{extension_of, file_name_of, lower_of, lowercase, AppConfig};
use crate::text::{chars_eq, chars_of, lemma_rfind, slice_chars, string_of, trim, trimmed_chars, views};
use vstd::prelude::*;

verus! {

/// One invocation of an outside program: options first, then the files.
#[derive(Debug, Clone)]
pub struct ToolCall {
    pub program: String,
    pub args: Vec<String>,
    pub files: Vec<String>,
}

impl ToolCall {
    /// The arguments as character sequences.
    pub open spec fn arg_views(&self) -> Seq<Seq<char>> {
        views(self.args@)
    }

    /// The files as character sequences.
    pub open spec fn file_views(&self) -> Seq<Seq<char>> {
        views(self.files@)
    }
}

/// The words of `s` separated by single spaces.
pub open spec fn join_spaced(s: Seq<Seq<char>>) -> Seq<char>
    decreases s.len(),
{
    if s.len() == 0 {
        Seq::empty()
    } else if s.len() == 1 {
        s[0]
    } else {
        join_spaced(s.drop_last()) + seq![' '] + s.last()
    }
}

/// How a call is shown: the program and its options, then the first file and
/// how many more follow.
pub open spec fn call_text(program: Seq<char>, args: Seq<Seq<char>>, files: Seq<Seq<char>>) -> Seq<
    char,
> {
    let head = program + seq![' '] + join_spaced(args);
    if files.len() == 0 {
        head
    } else if files.len() == 1 {
        head + seq![' '] + files[0]
    } else {
        head + seq![' '] + files[0] + " ... (and "@ + decimal((files.len() - 1) as nat)
            + " more files)"@
    }
}

/// Copies the characters of a string slice onto the end of `out`.
pub(crate) fn push_str(out: &mut Vec<char>, s: &str)
    ensures
        final(out)@ == old(out)@ + s@,
{
    let mut cs = chars_of(s);
    out.append(&mut cs);
}

fn join_words(words: &Vec<String>) -> (r: Vec<char>)
    ensures
        r@ == join_spaced(views(words@)),
{
    let mut out: Vec<char> = Vec::new();
    let mut i: usize = 0;
    while i < words.len()
        invariant
            i <= words@.len(),
            out@ == join_spaced(views(words@.subrange(0, i as int))),
        decreases words@.len() - i,
    {
        let ghost before = out@;
        if i > 0 {
            out.push(' ');
        }
        push_str(&mut out, words[i].as_str());
        proof {
            let w = views(words@.subrange(0, i + 1));
            assert(w.drop_last() =~= views(words@.subrange(0, i as int)));
            assert(w.last() == words@[i as int]@);
            if i == 0 {
                assert(out@ =~= w[0]);
            } else {
                assert(out@ =~= before + seq![' '] + w.last());
            }
        }
        i = i + 1;
    }
    assert(words@.subrange(0, words@.len() as int) =~= words@);
    out
}

/// The line that shows `call`: `program args... first-file ... (and N more files)`.
pub fn command_line(call: &ToolCall) -> (r: String)
    ensures
        r@ == call_text(call.program@, call.arg_views(), call.file_views()),
{
    let mut out = chars_of(call.program.as_str());
    out.push(' ');
    let mut words = join_words(&call.args);
    out.append(&mut words);
    let n = call.files.len();
    if n > 0 {
        out.push(' ');
        push_str(&mut out, call.files[0].as_str());
        if n > 1 {
            push_str(&mut out, " ... (and ");
            push_decimal(&mut out, (n - 1) as u64);
            push_str(&mut out, " more files)");
        }
    }
    string_of(&out)
}

/// The line that a dry run shows in place of running `call`.
pub fn dry_run_line(call: &ToolCall) -> (r: String)
    ensures
        r@ == "DRY-RUN: "@ + call_text(call.program@, call.arg_views(), call.file_views()),
{
    let mut out = chars_of("DRY-RUN: ");
    push_str(&mut out, command_line(call).as_str());
    string_of(&out)
}

/// Sign and magnitude of a shift amount: a leading `+` or `-` is the sign,
/// else the sign is `+` and the whole text is the magnitude.
pub open spec fn split_sign(t: Seq<char>) -> (Seq<char>, Seq<char>) {
    if t.len() > 0 && (t[0] == '+' || t[0] == '-') {
        (seq![t[0]], t.drop_first())
    } else {
        (seq!['+'], t)
    }
}

/// The directive that moves every capture date by `sign` `magnitude`
/// (hours and minutes).
pub open spec fn all_dates_arg(t: Seq<char>) -> Seq<char> {
    "-AllDates"@ + split_sign(t).0 + "=0:0:0 "@ + split_sign(t).1 + ":0"@
}

/// The directives that clear the offset and timezone tags.
pub open spec fn reset_tz_args() -> Seq<Seq<char>> {
    seq![
        "-OffSetTime="@,
        "-OffSetTimeOriginal="@,
        "-OffSetTimeDigitized="@,
        "-Timezone="@,
        "-TimezoneCity="@,
    ]
}

/// The options of a shift by `by`.
pub open spec fn shift_args(by: Seq<char>, reset_tz: bool) -> Seq<Seq<char>> {
    seq![all_dates_arg(trim(by)), "-overwrite_original"@] + if reset_tz {
        reset_tz_args()
    } else {
        Seq::empty()
    }
}

fn push_arg(args: &mut Vec<String>, s: &str)
    ensures
        views(final(args)@) == views(old(args)@).push(s@),
{
    let a = string_of(&chars_of(s));
    args.push(a);
    assert(views(args@) =~= views(old(args)@).push(s@));
}

pub(crate) fn push_chars_arg(args: &mut Vec<String>, s: &Vec<char>)
    ensures
        views(final(args)@) == views(old(args)@).push(s@),
{
    let a = string_of(s);
    args.push(a);
    assert(views(args@) =~= views(old(args)@).push(s@));
}

pub(crate) fn copy_strings(v: &Vec<String>) -> (r: Vec<String>)
    ensures
        views(r@) == views(v@),
{
    let mut out: Vec<String> = Vec::new();
    let mut i: usize = 0;
    while i < v.len()
        invariant
            i <= v@.len(),
            views(out@) == views(v@.subrange(0, i as int)),
        decreases v@.len() - i,
    {
        push_chars_arg(&mut out, &chars_of(v[i].as_str()));
        assert(views(v@.subrange(0, i + 1)) =~= views(v@.subrange(0, i as int)).push(v@[i as int]@));
        i = i + 1;
    }
    assert(v@.subrange(0, v@.len() as int) =~= v@);
    out
}

fn all_dates_chars(t: &Vec<char>) -> (r: Vec<char>)
    ensures
        r@ == all_dates_arg(t@),
{
    let mut a = chars_of("-AllDates");
    let n = t.len();
    let rest = if n > 0 && (t[0] == '+' || t[0] == '-') {
        a.push(t[0]);
        slice_chars(t, 1, n)
    } else {
        a.push('+');
        slice_chars(t, 0, n)
    };
    assert(n > 0 && (t@[0] == '+' || t@[0] == '-') ==> rest@ == t@.drop_first());
    push_str(&mut a, "=0:0:0 ");
    let mut rest = rest;
    a.append(&mut rest);
    push_str(&mut a, ":0");
    a
}

/// The metadata tool's call that shifts every capture date of `images` by
/// `by` (`±H:M`), clearing the timezone tags when `reset_tz` is set.
pub fn cmd_shift(config: &AppConfig, reset_tz: bool, by: &str, images: &Vec<String>) -> (r:
    Result<ToolCall, PhotoError>)
    ensures
        match r {
            Ok(call) => trim(by@).len() > 0 && call.program@ == "exiftool"@ && call.arg_views()
                == shift_args(by@, reset_tz) && call.file_views() == views(images@),
            Err(e) => e == PhotoError::EmptyShiftPattern && trim(by@).len() == 0,
        },
{
    let t = trimmed_chars(&chars_of(by));
    if t.len() == 0 {
        return Err(PhotoError::EmptyShiftPattern);
    }
    let mut args: Vec<String> = Vec::new();
    push_chars_arg(&mut args, &all_dates_chars(&t));
    push_arg(&mut args, "-overwrite_original");
    if reset_tz {
        push_arg(&mut args, "-OffSetTime=");
        push_arg(&mut args, "-OffSetTimeOriginal=");
        push_arg(&mut args, "-OffSetTimeDigitized=");
        push_arg(&mut args, "-Timezone=");
        push_arg(&mut args, "-TimezoneCity=");
    }
    assert(views(args@) =~= shift_args(by@, reset_tz));
    Ok(ToolCall { program: string_of(&chars_of("exiftool")), args, files: copy_strings(images) })
}

/// A signed integer in decimal.
pub open spec fn signed_decimal(v: int) -> Seq<char> {
    if v < 0 {
        seq!['-'] + decimal((-v) as nat)
    } else {
        decimal(v as nat)
    }
}

/// The options that retime files from UTC to the offset `tz` (`±HH:MM`) and
/// annotate them with that offset, the city identifier and the DST flag.
pub open spec fn set_time_args(tz: Seq<char>, id: int, dst: bool) -> Seq<Seq<char>> {
    seq![
        "-AllDates"@ + seq![tz[0]] + "=0:0:0 "@ + tz.drop_first() + ":0"@,
        "-TimeZone="@ + tz,
        "-TimeZoneCity#="@ + signed_decimal(id),
        "-OffSetTime="@ + tz,
        "-OffSetTimeOriginal="@ + tz,
        "-OffSetTimeDigitized="@ + tz,
        "-DaylightSavings#="@ + if dst {
            "60"@
        } else {
            "0"@
        },
        "-overwrite_original"@,
    ]
}

fn prefixed(prefix: &str, s: &Vec<char>) -> (r: Vec<char>)
    ensures
        r@ == prefix@ + s@,
{
    let mut a = chars_of(prefix);
    let mut b = slice_chars(s, 0, s.len());
    a.append(&mut b);
    a
}

/// The metadata tool's call that moves `images` from UTC to the timezone
/// `timezone` and writes its tags. Empty timezone text is refused.
pub fn cmd_set_time(
    config: &AppConfig,
    images: &Vec<String>,
    _set_gps: bool,
    timezone: &str,
    timezone_id: i32,
    dst: bool,
) -> (r: Result<ToolCall, PhotoError>)
    ensures
        match r {
            Ok(call) => timezone@.len() > 0 && call.program@ == "exiftool"@ && call.arg_views()
                == set_time_args(timezone@, timezone_id as int, dst) && call.file_views() == views(
                images@,
            ),
            Err(e) => e == PhotoError::InvalidFormat && timezone@.len() == 0,
        },
{
    let tz = chars_of(timezone);
    let n = tz.len();
    if n == 0 {
        return Err(PhotoError::InvalidFormat);
    }
    let mut args: Vec<String> = Vec::new();
    let mut a = chars_of("-AllDates");
    a.push(tz[0]);
    push_str(&mut a, "=0:0:0 ");
    let mut rest = slice_chars(&tz, 1, n);
    let ghost rest_view = rest@;
    a.append(&mut rest);
    push_str(&mut a, ":0");
    push_chars_arg(&mut args, &a);
    push_chars_arg(&mut args, &prefixed("-TimeZone=", &tz));
    let mut id = chars_of("-TimeZoneCity#=");
    let wide = timezone_id as i64;
    if wide < 0 {
        id.push('-');
        push_decimal(&mut id, (-wide) as u64);
    } else {
        push_decimal(&mut id, wide as u64);
    }
    push_chars_arg(&mut args, &id);
    push_chars_arg(&mut args, &prefixed("-OffSetTime=", &tz));
    push_chars_arg(&mut args, &prefixed("-OffSetTimeOriginal=", &tz));
    push_chars_arg(&mut args, &prefixed("-OffSetTimeDigitized=", &tz));
    let mut d = chars_of("-DaylightSavings#=");
    if dst {
        push_str(&mut d, "60");
    } else {
        push_str(&mut d, "0");
    }
    push_chars_arg(&mut args, &d);
    push_arg(&mut args, "-overwrite_original");
    assert(rest_view == tz@.drop_first());
    assert(a@ == "-AllDates"@ + seq![tz@[0]] + "=0:0:0 "@ + tz@.drop_first() + ":0"@);
    assert(id@ == "-TimeZoneCity#="@ + signed_decimal(timezone_id as int));
    assert(d@ == "-DaylightSavings#="@ + if dst {
        "60"@
    } else {
        "0"@
    });
    assert(views(args@) =~= set_time_args(timezone@, timezone_id as int, dst));
    Ok(ToolCall { program: string_of(&chars_of("exiftool")), args, files: copy_strings(images) })
}

/// The options of the rename to `<date> <time>[<dup-counter>].<ext>`.
pub open spec fn rename_args() -> Seq<Seq<char>> {
    seq!["-FileName<DateTimeOriginal"@, "-d"@, "%Y-%m-%d %H.%M.%S%%-c.%%e"@, "-overwrite_original"@]
}

/// The two calls of a rename: owner read/write and read for everyone else,
/// then the metadata tool's rename from the capture date and time.
pub fn cmd_rename(config: &AppConfig, images: &Vec<String>) -> (r: Vec<ToolCall>)
    ensures
        r@.len() == 2,
        r@[0].program@ == "chmod"@,
        r@[0].arg_views() == seq!["0644"@],
        r@[0].file_views() == views(images@),
        r@[1].program@ == "exiftool"@,
        r@[1].arg_views() == rename_args(),
        r@[1].file_views() == views(images@),
{
    let mut chmod_args: Vec<String> = Vec::new();
    push_arg(&mut chmod_args, "0644");
    assert(views(chmod_args@) =~= seq!["0644"@]);
    let mut args: Vec<String> = Vec::new();
    push_arg(&mut args, "-FileName<DateTimeOriginal");
    push_arg(&mut args, "-d");
    push_arg(&mut args, "%Y-%m-%d %H.%M.%S%%-c.%%e");
    push_arg(&mut args, "-overwrite_original");
    assert(views(args@) =~= rename_args());
    let chmod = ToolCall {
        program: string_of(&chars_of("chmod")),
        args: chmod_args,
        files: copy_strings(images),
    };
    let rename = ToolCall {
        program: string_of(&chars_of("exiftool")),
        args,
        files: copy_strings(images),
    };
    vec![chmod, rename]
}

/// The backup that the metadata tool leaves beside `path`.
pub open spec fn backup_of(path: Seq<char>) -> Seq<char> {
    path + "_original"@
}

/// The backup files to delete after a mutation of `files`: one beside each
/// file, none at all in a dry run.
pub fn clean(files: &Vec<String>, dry_run: bool) -> (r: Vec<String>)
    ensures
        dry_run ==> r@.len() == 0,
        !dry_run ==> views(r@) == views(files@).map_values(|p: Seq<char>| backup_of(p)),
{
    let mut out: Vec<String> = Vec::new();
    if dry_run {
        return out;
    }
    let mut i: usize = 0;
    while i < files.len()
        invariant
            i <= files@.len(),
            views(out@) == views(files@.subrange(0, i as int)).map_values(|p: Seq<char>| backup_of(p)),
        decreases files@.len() - i,
    {
        let mut b = chars_of(files[i].as_str());
        push_str(&mut b, "_original");
        push_chars_arg(&mut out, &b);
        assert(views(files@.subrange(0, i + 1)).map_values(|p: Seq<char>| backup_of(p)) =~= views(
            files@.subrange(0, i as int),
        ).map_values(|p: Seq<char>| backup_of(p)).push(backup_of(files@[i as int]@)));
        i = i + 1;
    }
    assert(files@.subrange(0, files@.len() as int) =~= files@);
    out
}

/// Where a media file goes when its extension is folded to lower case:
/// `None` when the folded extension is no configured suffix or already
/// equals the extension.
pub open spec fn lowered_path(path: Seq<char>, suffixes: Seq<Seq<char>>) -> Option<Seq<char>> {
    let ext = extension_of(file_name_of(path));
    let low = lower_of(ext);
    if suffixes.contains(low) && low != ext {
        Some(path.subrange(0, path.len() - ext.len()) + low)
    } else {
        None
    }
}

/// The new name of a media file whose extension is not in lower case.
pub fn lowercase_extension_target(config: &AppConfig, path: &str) -> (r: Option<String>)
    ensures
        match r {
            Some(p) => lowered_path(path@, config.suffix_views()) == Some(p@),
            None => lowered_path(path@, config.suffix_views()) is None,
        },
{
    let ext = crate::scan::path_extension(path);
    let low = lowercase(ext.as_str());
    let e = chars_of(ext.as_str());
    let l = chars_of(low.as_str());
    if !crate::scan::is_media_suffix(config, low.as_str()) || chars_eq(&e, &l) {
        return None;
    }
    let p = chars_of(path);
    proof {
        lemma_rfind(path@, '/');
        lemma_rfind(file_name_of(path@), '.');
    }
    let mut out = slice_chars(&p, 0, p.len() - e.len());
    let mut low_chars = l;
    out.append(&mut low_chars);
    Some(string_of(&out))
}

/// The call that moves every image under `dir` (absolute) into a
/// `YYYY-MM-DD` subdirectory of it named by the capture date; `None` when
/// there are no images.
pub fn cmd_organize(config: &AppConfig, dir: &str, images: &Vec<String>) -> (r: Option<ToolCall>)
    ensures
        images@.len() == 0 ==> r is None,
        images@.len() > 0 ==> r is Some && r->Some_0.program@ == "exiftool"@
            && r->Some_0.arg_views() == seq![
            "-d"@,
            "%Y-%m-%d"@,
            "-Directory<"@ + dir@ + "/$DateTimeOriginal"@,
        ] && r->Some_0.file_views() == views(images@),
{
    if images.len() == 0 {
        return None;
    }
    let mut args: Vec<String> = Vec::new();
    push_arg(&mut args, "-d");
    push_arg(&mut args, "%Y-%m-%d");
    let mut target = chars_of("-Directory<");
    push_str(&mut target, dir);
    push_str(&mut target, "/$DateTimeOriginal");
    push_chars_arg(&mut args, &target);
    assert(views(args@) =~= seq![
        "-d"@,
        "%Y-%m-%d"@,
        "-Directory<"@ + dir@ + "/$DateTimeOriginal"@,
    ]);
    Some(ToolCall { program: string_of(&chars_of("exiftool")), args, files: copy_strings(images) })
}

/// The correlation tool's call that geotags the files in `dir` from the
/// track `gpx`, with times in UTC and the configured time range.
pub fn geotag_images_dir(config: &AppConfig, gpx: &str, dir: &str) -> (r: ToolCall)
    ensures
        r.program@ == "gpicsync"@,
        r.arg_views() == seq![
            "-g"@,
            gpx@,
            "-z"@,
            "UTC"@,
            "-d"@,
            dir@,
            "--time-range"@,
            decimal(config.timerange as nat),
        ],
        r.files@.len() == 0,
{
    let mut args: Vec<String> = Vec::new();
    push_arg(&mut args, "-g");
    push_arg(&mut args, gpx);
    push_arg(&mut args, "-z");
    push_arg(&mut args, "UTC");
    push_arg(&mut args, "-d");
    push_arg(&mut args, dir);
    push_arg(&mut args, "--time-range");
    let mut range: Vec<char> = Vec::new();
    push_decimal(&mut range, config.timerange);
    push_chars_arg(&mut args, &range);
    assert(views(args@) =~= seq![
        "-g"@,
        gpx@,
        "-z"@,
        "UTC"@,
        "-d"@,
        dir@,
        "--time-range"@,
        decimal(config.timerange as nat),
    ]);
    ToolCall { program: string_of(&chars_of("gpicsync")), args, files: Vec::new() }
}

} // verus!
