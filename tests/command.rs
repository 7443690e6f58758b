use photo_process::command::{
    clean, cmd_organize, cmd_rename, cmd_set_time, cmd_shift, command_line, dry_run_line,
    geotag_images_dir, lowercase_extension_target, ToolCall,
};
use photo_process::error::PhotoError;
use photo_process::scan::AppConfig;

fn config(dry_run: bool) -> AppConfig {
    AppConfig::new(&vec!["jpg".to_string(), "mp4".to_string()], 30, dry_run)
}

fn files(v: &[&str]) -> Vec<String> {
    v.iter().map(|s| s.to_string()).collect()
}

#[test]
fn shift_builds_one_batched_directive() {
    let c = config(false);
    let call = cmd_shift(&c, false, "-02:00", &files(&["/d/a.jpg", "/d/b.jpg"])).unwrap();
    assert_eq!(call.program, "exiftool");
    assert_eq!(call.args, vec!["-AllDates-=0:0:0 02:00:0", "-overwrite_original"]);
    assert_eq!(call.files, files(&["/d/a.jpg", "/d/b.jpg"]));
}

#[test]
fn shift_without_sign_is_positive_and_reset_clears_tags() {
    let c = config(false);
    let call = cmd_shift(&c, true, " 1:30 ", &files(&["x.jpg"])).unwrap();
    assert_eq!(
        call.args,
        vec![
            "-AllDates+=0:0:0 1:30:0",
            "-overwrite_original",
            "-OffSetTime=",
            "-OffSetTimeOriginal=",
            "-OffSetTimeDigitized=",
            "-Timezone=",
            "-TimezoneCity="
        ]
    );
}

#[test]
fn empty_shift_pattern_fails() {
    let c = config(false);
    assert!(matches!(cmd_shift(&c, false, "", &vec![]), Err(PhotoError::EmptyShiftPattern)));
    assert!(matches!(cmd_shift(&c, false, "  ", &vec![]), Err(PhotoError::EmptyShiftPattern)));
}

#[test]
fn set_time_writes_target_offset_and_tags() {
    let c = config(false);
    let call = cmd_set_time(&c, &files(&["/d/a.jpg"]), true, "+05:30", 12, true).unwrap();
    assert_eq!(call.program, "exiftool");
    assert_eq!(
        call.args,
        vec![
            "-AllDates+=0:0:0 05:30:0",
            "-TimeZone=+05:30",
            "-TimeZoneCity#=12",
            "-OffSetTime=+05:30",
            "-OffSetTimeOriginal=+05:30",
            "-OffSetTimeDigitized=+05:30",
            "-DaylightSavings#=60",
            "-overwrite_original"
        ]
    );
    let call = cmd_set_time(&c, &files(&["/d/a.jpg"]), true, "-03:00", -4, false).unwrap();
    assert_eq!(call.args[2], "-TimeZoneCity#=-4");
    assert_eq!(call.args[6], "-DaylightSavings#=0");
    assert!(matches!(cmd_set_time(&c, &vec![], true, "", 1, false), Err(PhotoError::InvalidFormat)));
}

#[test]
fn rename_sets_mode_then_renames_from_capture_time() {
    let c = config(false);
    let calls = cmd_rename(&c, &files(&["/d/a.jpg"]));
    assert_eq!(calls.len(), 2);
    assert_eq!(calls[0].program, "chmod");
    assert_eq!(calls[0].args, vec!["0644"]);
    assert_eq!(calls[1].program, "exiftool");
    assert_eq!(
        calls[1].args,
        vec!["-FileName<DateTimeOriginal", "-d", "%Y-%m-%d %H.%M.%S%%-c.%%e", "-overwrite_original"]
    );
    assert_eq!(calls[1].files, files(&["/d/a.jpg"]));
}

#[test]
fn backups_are_listed_only_in_a_real_run() {
    let f = files(&["/d/a.jpg", "/d/b.jpg"]);
    assert_eq!(clean(&f, false), files(&["/d/a.jpg_original", "/d/b.jpg_original"]));
    assert!(clean(&f, true).is_empty());
}

#[test]
fn extension_case_is_normalised_for_configured_suffixes() {
    let c = config(false);
    assert_eq!(lowercase_extension_target(&c, "/d/IMG.JPG"), Some("/d/IMG.jpg".to_string()));
    assert_eq!(lowercase_extension_target(&c, "/d/IMG.jpg"), None);
    assert_eq!(lowercase_extension_target(&c, "/d/notes.TXT"), None);
}

#[test]
fn organize_moves_into_dated_directories() {
    let c = config(false);
    let call = cmd_organize(&c, "/abs/d", &files(&["/abs/d/a.jpg"])).unwrap();
    assert_eq!(call.args, vec!["-d", "%Y-%m-%d", "-Directory</abs/d/$DateTimeOriginal"]);
    assert!(cmd_organize(&c, "/abs/d", &vec![]).is_none());
}

#[test]
fn geotag_call_uses_utc_and_time_range() {
    let c = config(false);
    let call = geotag_images_dir(&c, "/d/t.gpx", "/d");
    assert_eq!(call.program, "gpicsync");
    assert_eq!(call.args, vec!["-g", "/d/t.gpx", "-z", "UTC", "-d", "/d", "--time-range", "30"]);
    assert!(call.files.is_empty());
}

#[test]
fn command_line_shows_first_file_and_count() {
    let call = ToolCall {
        program: "exiftool".to_string(),
        args: files(&["-a", "-b"]),
        files: files(&["/x/1.jpg", "/x/2.jpg", "/x/3.jpg"]),
    };
    assert_eq!(command_line(&call), "exiftool -a -b /x/1.jpg ... (and 2 more files)");
    assert_eq!(dry_run_line(&call), "DRY-RUN: exiftool -a -b /x/1.jpg ... (and 2 more files)");
    let one = ToolCall { program: "chmod".to_string(), args: files(&["0644"]), files: files(&["f"]) };
    assert_eq!(command_line(&one), "chmod 0644 f");
}

#[test]
fn dry_run_output_is_the_same_twice_and_deletes_nothing() {
    let c = config(true);
    let f = files(&["/d/a.jpg", "/d/b.jpg"]);
    let first = cmd_shift(&c, false, "-02:00", &f).unwrap();
    let second = cmd_shift(&c, false, "-02:00", &f).unwrap();
    assert_eq!(dry_run_line(&first), dry_run_line(&second));
    assert!(clean(&f, c.dry_run).is_empty());
    assert!(clean(&f, c.dry_run).is_empty());
}
