//! Decisions of the track download from the activity service: the date
//! window, the login check, and which activities of each listed page to
//! fetch and whether to ask for the next page.

use crate::command::ToolCall;
use crate::dates::{date_le, days_before, on_or_before, parse_ymd, parsed_date, Date};
use crate::error::PhotoError;
use crate::offset::{decimal, push_decimal};
use crate::text::{
    chars_of, contains_chars, contains_text, find_char, find_from, find_space, find_space_char,
    slice_chars, string_of, trim, trimmed_chars, views,
};
use vstd::prelude::*;

verus! {

/// The number of activities asked for per page.
pub const PAGE_SIZE: u64 = 100;

/// How many days before the end date the window starts by default.
pub const DEFAULT_WINDOW_DAYS: u32 = 20;

/// The date that optional text names, or `None` when there is no text.
pub open spec fn given_date(s: Option<Seq<char>>) -> Option<Option<Date>> {
    match s {
        None => Some(None),
        Some(t) => match parsed_date(t) {
            Some(d) => Some(Some(d)),
            None => None,
        },
    }
}

/// The view of optional text.
pub open spec fn opt_text(s: Option<&String>) -> Option<Seq<char>> {
    match s {
        Some(t) => Some(t@),
        None => None,
    }
}

/// The download window: the end date is the given one or `today`; the
/// start date is the given one or the default number of days before the end.
/// Text that is no date is refused.
pub fn download_window(start_date: Option<&String>, end_date: Option<&String>, today: Date) -> (r:
    Result<(Date, Date), PhotoError>)
    ensures
        match r {
            Ok((start, end)) => {
                &&& given_date(opt_text(end_date)) is Some
                &&& given_date(opt_text(start_date)) is Some
                &&& end == match given_date(opt_text(end_date))->Some_0 {
                    Some(d) => d,
                    None => today,
                }
                &&& match given_date(opt_text(start_date))->Some_0 {
                    Some(d) => start == d,
                    None => days_before_spec(end, DEFAULT_WINDOW_DAYS) == Some(start),
                }
            },
            Err(e) => e == PhotoError::InvalidFormat && (given_date(opt_text(end_date)) is None
                || given_date(opt_text(start_date)) is None || (given_date(
                opt_text(start_date),
            ) == Some(None::<Date>) && days_before_spec(
                match given_date(opt_text(end_date))->Some_0 {
                    Some(d) => d,
                    None => today,
                },
                DEFAULT_WINDOW_DAYS,
            ) is None)),
        },
{
    let end = match end_date {
        Some(s) => match parse_ymd(s.as_str()) {
            Some(d) => d,
            None => {
                return Err(PhotoError::InvalidFormat);
            },
        },
        None => today,
    };
    let start = match start_date {
        Some(s) => match parse_ymd(s.as_str()) {
            Some(d) => d,
            None => {
                return Err(PhotoError::InvalidFormat);
            },
        },
        None => match days_before(end, DEFAULT_WINDOW_DAYS) {
            Some(d) => d,
            None => {
                return Err(PhotoError::InvalidFormat);
            },
        },
    };
    Ok((start, end))
}

/// The date `n` days before `d`, as chrono computes it.
pub open spec fn days_before_spec(d: Date, n: u32) -> Option<Date> {
    match crate::dates::days_earlier(d.year as int, d.month as int, d.day as int, n as int) {
        Some((y, m, dd)) => Some(Date { year: y, month: m, day: dd }),
        None => None,
    }
}

/// What the login check leads to.
#[derive(Debug, Clone, Copy, PartialEq, Eq, Structural)]
pub enum LoginCheck {
    /// Logged in: go on.
    LoggedIn,
    /// Not logged in, in a dry run: warn and go on.
    Warn,
}

/// The login check on the service's status text: logged in when it holds
/// `Status: Logged in`; otherwise a warning in a dry run and an error else.
pub fn check_login(status: &str, dry_run: bool) -> (r: Result<LoginCheck, PhotoError>)
    ensures
        contains_text(status@, "Status: Logged in"@) ==> r == Ok::<LoginCheck, PhotoError>(
            LoginCheck::LoggedIn,
        ),
        !contains_text(status@, "Status: Logged in"@) && dry_run ==> r == Ok::<
            LoginCheck,
            PhotoError,
        >(LoginCheck::Warn),
        !contains_text(status@, "Status: Logged in"@) && !dry_run ==> r == Err::<
            LoginCheck,
            PhotoError,
        >(PhotoError::NotLoggedIn),
{
    if contains_chars(&chars_of(status), &chars_of("Status: Logged in")) {
        Ok(LoginCheck::LoggedIn)
    } else if dry_run {
        Ok(LoginCheck::Warn)
    } else {
        Err(PhotoError::NotLoggedIn)
    }
}

/// The first two white-space separated words of a trimmed line, if it has two.
pub open spec fn two_words(l: Seq<char>) -> Option<(Seq<char>, Seq<char>)> {
    let e = find_space(l, 0);
    let rest = trim(l.subrange(e, l.len() as int));
    if rest.len() == 0 {
        None
    } else {
        Some((l.subrange(0, e), rest.subrange(0, find_space(rest, 0))))
    }
}

/// What a page has shown so far: whether any activity row was seen, whether
/// every dated row was older than the window, and the activities to fetch
/// (identifier and date text).
pub type PageState = (bool, bool, Seq<(Seq<char>, Seq<char>)>);

/// The page state after one line of an activity listing. Blank lines, the
/// header (`ID...`) and rules (`-...`) are skipped, as are rows with fewer
/// than two words; a row whose date does not parse counts as seen only.
pub open spec fn page_line(st: PageState, line: Seq<char>, start: Date, end: Date) -> PageState {
    let l = trim(line);
    if l.len() == 0 || (l.len() >= 2 && l[0] == 'I' && l[1] == 'D') || l[0] == '-' {
        st
    } else {
        match two_words(l) {
            None => st,
            Some((id, ds)) => match parsed_date(ds) {
                None => (true, st.1, st.2),
                Some(d) => if !date_le(start, d) {
                    (true, st.1, st.2)
                } else if date_le(d, end) {
                    (true, false, st.2.push((id, ds)))
                } else {
                    (true, false, st.2)
                },
            },
        }
    }
}

/// The page state after the lines of `out` that start at or after `pos`.
pub open spec fn page_lines(out: Seq<char>, pos: int, st: PageState, start: Date, end: Date) -> PageState
    decreases out.len() + 1 - pos,
{
    if pos < 0 || pos > out.len() {
        st
    } else {
        let e = find_from(out, '\n', pos);
        if e < pos || e > out.len() {
            st
        } else {
            page_lines(out, e + 1, page_line(st, out.subrange(pos, e), start, end), start, end)
        }
    }
}

/// One activity to fetch.
pub struct Activity {
    pub id: String,
    pub date: String,
}

/// What one page of the activity listing leads to.
pub struct PagePlan {
    /// The activities of the page dated inside the window, in order.
    pub activities: Vec<Activity>,
    /// No further page is needed: the page showed no activity, or every
    /// dated activity on it was older than the window.
    pub last_page: bool,
}

/// The views of a list of activities.
pub open spec fn activity_views(v: Seq<Activity>) -> Seq<(Seq<char>, Seq<char>)> {
    v.map_values(|a: Activity| (a.id@, a.date@))
}

fn read_page_line(
    l: &Vec<char>,
    start: Date,
    end: Date,
    found: &mut bool,
    all_older: &mut bool,
    acts: &mut Vec<Activity>,
)
    ensures
        ({
            let st = page_line((*old(found), *old(all_older), activity_views(old(acts)@)), l@, start, end);
            &&& *final(found) == st.0
            &&& *final(all_older) == st.1
            &&& activity_views(final(acts)@) == st.2
        }),
{
    let t = trimmed_chars(l);
    let n = t.len();
    if n == 0 || (n >= 2 && t[0] == 'I' && t[1] == 'D') || t[0] == '-' {
        return ;
    }
    let e = find_space_char(&t, 0);
    let rest = trimmed_chars(&slice_chars(&t, e, n));
    if rest.len() == 0 {
        return ;
    }
    let e2 = find_space_char(&rest, 0);
    let id = slice_chars(&t, 0, e);
    let ds = slice_chars(&rest, 0, e2);
    *found = true;
    match parse_ymd(string_of(&ds).as_str()) {
        None => {},
        Some(d) => {
            if on_or_before(start, d) {
                *all_older = false;
                if on_or_before(d, end) {
                    let a = Activity { id: string_of(&id), date: string_of(&ds) };
                    let ghost av = (a.id@, a.date@);
                    acts.push(a);
                    assert(activity_views(acts@) =~= activity_views(old(acts)@).push(av));
                }
            }
        },
    }
}

/// Reads one page of the activity listing (`ID  DATE  ...` rows) against
/// the window from `start` to `end`, both included.
pub fn plan_page(listing: &str, start: Date, end: Date) -> (r: PagePlan)
    ensures
        ({
            let st = page_lines(listing@, 0, (false, true, Seq::empty()), start, end);
            &&& activity_views(r.activities@) == st.2
            &&& r.last_page == (!st.0 || st.1)
        }),
{
    let out = chars_of(listing);
    let mut found = false;
    let mut all_older = true;
    let mut acts: Vec<Activity> = Vec::new();
    let mut pos: usize = 0;
    assert(activity_views(acts@) =~= Seq::empty());
    loop
        invariant_except_break
            page_lines(out@, 0, (false, true, Seq::empty()), start, end) == page_lines(
                out@,
                pos as int,
                (found, all_older, activity_views(acts@)),
                start,
                end,
            ),
        invariant
            out@ == listing@,
            pos <= out@.len(),
        ensures
            page_lines(out@, 0, (false, true, Seq::empty()), start, end) == (
                found,
                all_older,
                activity_views(acts@),
            ),
        decreases out@.len() + 1 - pos,
    {
        let e = find_char(&out, '\n', pos);
        let line = slice_chars(&out, pos, e);
        read_page_line(&line, start, end, &mut found, &mut all_older, &mut acts);
        if e >= out.len() {
            assert(page_lines(out@, e + 1, (found, all_older, activity_views(acts@)), start, end) == (
                found,
                all_older,
                activity_views(acts@),
            ));
            break;
        }
        pos = e + 1;
    }
    PagePlan { activities: acts, last_page: !found || all_older }
}

/// The service's call that lists one page of activities from `offset` on.
pub fn list_page_args(offset: u64) -> (r: Vec<String>)
    ensures
        views(r@) == seq![
            "activities"@,
            "list"@,
            "--limit"@,
            decimal(PAGE_SIZE as nat),
            "--start"@,
            decimal(offset as nat),
        ],
{
    let mut v: Vec<String> = Vec::new();
    let mut limit: Vec<char> = Vec::new();
    push_decimal(&mut limit, PAGE_SIZE);
    let mut start: Vec<char> = Vec::new();
    push_decimal(&mut start, offset);
    v.push(string_of(&chars_of("activities")));
    v.push(string_of(&chars_of("list")));
    v.push(string_of(&chars_of("--limit")));
    v.push(string_of(&limit));
    v.push(string_of(&chars_of("--start")));
    v.push(string_of(&start));
    assert(views(v@) =~= seq![
        "activities"@,
        "list"@,
        "--limit"@,
        decimal(PAGE_SIZE as nat),
        "--start"@,
        decimal(offset as nat),
    ]);
    v
}

/// The offset of the page after the one at `offset`; `None` past the
/// largest offset.
pub fn next_page_offset(offset: u64) -> (r: Option<u64>)
    ensures
        offset + PAGE_SIZE <= u64::MAX ==> r == Some((offset + PAGE_SIZE) as u64),
        offset + PAGE_SIZE > u64::MAX ==> r is None,
{
    offset.checked_add(PAGE_SIZE)
}

/// The service's call that fetches activity `id` as a GPX file at `path`.
pub fn download_call(path: &str, id: &str) -> (r: ToolCall)
    ensures
        r.program@ == "garmin"@,
        r.arg_views() == seq!["activities"@, "download"@, "-t"@, "gpx"@, "-o"@, path@, id@],
        r.files@.len() == 0,
{
    let mut v: Vec<String> = Vec::new();
    v.push(string_of(&chars_of("activities")));
    v.push(string_of(&chars_of("download")));
    v.push(string_of(&chars_of("-t")));
    v.push(string_of(&chars_of("gpx")));
    v.push(string_of(&chars_of("-o")));
    v.push(string_of(&chars_of(path)));
    v.push(string_of(&chars_of(id)));
    assert(views(v@) =~= seq!["activities"@, "download"@, "-t"@, "gpx"@, "-o"@, path@, id@]);
    ToolCall { program: string_of(&chars_of("garmin")), args: v, files: Vec::new() }
}

} // verus!
