use photo_process::dates::{date_range_of, Date};
use photo_process::download::{
    check_login, download_call, download_window, list_page_args, next_page_offset, plan_page,
    LoginCheck,
};
use photo_process::error::PhotoError;

fn d(year: i32, month: u32, day: u32) -> Date {
    Date { year, month, day }
}

#[test]
fn date_range_spans_all_listed_dates() {
    let r = date_range_of("2024-05-03\n-\n\n2024-04-30\nnot a date\n2024-05-10\n", None);
    assert_eq!(r, Some((d(2024, 4, 30), d(2024, 5, 10))));
    let r = date_range_of("2024-06-01", r);
    assert_eq!(r, Some((d(2024, 4, 30), d(2024, 6, 1))));
    assert_eq!(date_range_of("-\n", None), None);
}

#[test]
fn window_defaults_to_twenty_days_before_the_end() {
    let today = d(2024, 3, 10);
    assert_eq!(download_window(None, None, today), Ok((d(2024, 2, 19), today)));
    let s = "2024-01-01".to_string();
    let e = "2024-01-31".to_string();
    assert_eq!(download_window(Some(&s), Some(&e), today), Ok((d(2024, 1, 1), d(2024, 1, 31))));
    let bad = "31/01/2024".to_string();
    assert_eq!(download_window(None, Some(&bad), today), Err(PhotoError::InvalidFormat));
}

#[test]
fn login_is_required_unless_dry_run() {
    assert_eq!(check_login("Account: me\nStatus: Logged in\n", false), Ok(LoginCheck::LoggedIn));
    assert_eq!(check_login("Status: Logged out", true), Ok(LoginCheck::Warn));
    assert_eq!(check_login("Status: Logged out", false), Err(PhotoError::NotLoggedIn));
}

#[test]
fn page_keeps_activities_inside_the_window() {
    let page = "ID        DATE        NAME\n\
                --------------------------\n\
                111  2024-05-12  Run\n\
                222  2024-05-05  Ride\n\
                333  2024-04-20  Walk\n\
                444\n";
    let plan = plan_page(page, d(2024, 5, 1), d(2024, 5, 10));
    assert_eq!(plan.activities.len(), 1);
    assert_eq!(plan.activities[0].id, "222");
    assert_eq!(plan.activities[0].date, "2024-05-05");
    assert!(!plan.last_page);
}

#[test]
fn page_of_older_or_no_activities_is_the_last() {
    let plan = plan_page("ID DATE\n1 2023-01-01 x\n", d(2024, 5, 1), d(2024, 5, 10));
    assert!(plan.activities.is_empty());
    assert!(plan.last_page);
    let plan = plan_page("", d(2024, 5, 1), d(2024, 5, 10));
    assert!(plan.last_page);
}

#[test]
fn service_calls_carry_paging_and_target() {
    assert_eq!(list_page_args(200), vec!["activities", "list", "--limit", "100", "--start", "200"]);
    assert_eq!(next_page_offset(0), Some(100));
    assert_eq!(next_page_offset(u64::MAX), None);
    let call = download_call("/D/7.gpx", "7");
    assert_eq!(call.program, "garmin");
    assert_eq!(call.args, vec!["activities", "download", "-t", "gpx", "-o", "/D/7.gpx", "7"]);
}
