use photo_process::command::{cmd_rename, cmd_set_time};
use photo_process::error::PhotoError;
use photo_process::pipeline::{
    cmd_shift_to_utc, detect_timezones, next_stage, representative, utc_steps, RunFacts,
    ScannedPath, Stage, TzDetectionResult, UtcStep,
};
use photo_process::scan::AppConfig;
use photo_process::tz::get_tz_info;

fn files(v: &[&str]) -> Vec<String> {
    v.iter().map(|s| s.to_string()).collect()
}

#[test]
fn detection_reads_the_first_file_listing() {
    let r = TzDetectionResult::from_scan(
        files(&["/d/a.jpg", "/d/b.jpg"]),
        Ok("[ExifIFD] OffsetTimeOriginal : +02:00".to_string()),
    );
    assert_eq!(r.offset, Ok(("+02:00".to_string(), false)));
    let r = TzDetectionResult::from_scan(vec![], Ok(String::new()));
    assert_eq!(r.offset, Err(PhotoError::NoImages));
    let r = TzDetectionResult::from_scan(files(&["/d/a.jpg"]), Err(PhotoError::ExternalToolFailure));
    assert_eq!(r.offset, Err(PhotoError::ExternalToolFailure));
    assert_eq!(representative(&files(&["/d/a.jpg", "/d/b.jpg"])), Some(0));
    assert_eq!(representative(&vec![]), None);
}

#[test]
fn failed_detections_are_skipped_not_fatal() {
    let c = AppConfig::new(&vec!["jpg".to_string()], 10, false);
    let results = detect_timezones(vec![
        ScannedPath { path: "/a".to_string(), images: vec![], listing: Ok(String::new()) },
        ScannedPath {
            path: "/b".to_string(),
            images: files(&["/b/x.jpg"]),
            listing: Ok("[Canon] TimeZone : -05:00".to_string()),
        },
    ]);
    let steps = cmd_shift_to_utc(&c, &results);
    assert_eq!(steps.len(), 2);
    assert!(matches!(steps[0], UtcStep::Failed(PhotoError::NoImages)));
    match &steps[1] {
        UtcStep::Shift { by, call } => {
            assert_eq!(by, "+05:00");
            assert_eq!(call.args[0], "-AllDates+=0:0:0 05:00:0");
            assert_eq!(call.args.len(), 7);
        }
        _ => panic!("expected a shift"),
    }
}

#[test]
fn stages_follow_the_flags() {
    let facts = RunFacts {
        organize: true,
        dry_run: false,
        detected: true,
        range_found: false,
        images_found: true,
        tracks_found: true,
    };
    let mut s = Stage::Detect;
    let mut seen = vec![s];
    while s != Stage::Finished {
        s = next_stage(s, &facts);
        seen.push(s);
    }
    assert_eq!(
        seen,
        vec![
            Stage::Detect,
            Stage::ShiftToUtc,
            Stage::Organize,
            Stage::DateRange,
            Stage::Rescan,
            Stage::Geotag,
            Stage::Retime,
            Stage::Rename,
            Stage::Finished
        ]
    );
    let none = RunFacts { detected: false, ..facts };
    assert_eq!(next_stage(Stage::Detect, &none), Stage::Finished);
    let dry = RunFacts { dry_run: true, range_found: true, tracks_found: false, ..facts };
    assert_eq!(next_stage(Stage::Rescan, &dry), Stage::GeotagDryRun);
    let real = RunFacts { range_found: true, tracks_found: false, ..facts };
    assert_eq!(next_stage(Stage::Rescan, &real), Stage::SkipGeotag);
    let empty = RunFacts { images_found: false, ..facts };
    assert_eq!(next_stage(Stage::Rescan, &empty), Stage::Finished);
}

#[test]
fn process_without_organize_shifts_retimes_and_renames() {
    let c = AppConfig::new(&vec!["jpg".to_string()], 10, false);
    let imgs = files(&["/D/1.jpg", "/D/2.jpg", "/D/3.jpg"]);
    let results = detect_timezones(vec![ScannedPath {
        path: "/D".to_string(),
        images: imgs.clone(),
        listing: Ok("[ExifIFD] OffsetTimeOriginal : +02:00\n[Canon] DaylightSavings : Off".to_string()),
    }]);
    assert_eq!(results.len(), 1);
    let facts = RunFacts {
        organize: false,
        dry_run: false,
        detected: !results.is_empty(),
        range_found: false,
        images_found: true,
        tracks_found: false,
    };
    let mut stage = next_stage(Stage::Detect, &facts);
    assert_eq!(stage, Stage::ShiftToUtc);
    let steps = utc_steps(&c, &results, false);
    match &steps[0] {
        UtcStep::Shift { by, call } => {
            assert_eq!(by, "-02:00");
            assert_eq!(call.args, vec!["-AllDates-=0:0:0 02:00:0", "-overwrite_original"]);
            assert_eq!(call.files, imgs);
        }
        _ => panic!("expected a shift"),
    }
    stage = next_stage(stage, &facts);
    assert_eq!(stage, Stage::Rescan);
    stage = next_stage(stage, &facts);
    assert_eq!(stage, Stage::SkipGeotag);
    stage = next_stage(stage, &facts);
    assert_eq!(stage, Stage::Retime);
    let (id, tz) = get_tz_info("Dublin").unwrap();
    let retime = cmd_set_time(&c, &imgs, true, &tz, id, false).unwrap();
    assert_eq!(retime.args[0], "-AllDates+=0:0:0 00:00:0");
    assert_eq!(retime.args[2], "-TimeZoneCity#=20");
    assert_eq!(retime.files, imgs);
    stage = next_stage(stage, &facts);
    assert_eq!(stage, Stage::Rename);
    let renames = cmd_rename(&c, &imgs);
    assert_eq!(renames[1].args[0], "-FileName<DateTimeOriginal");
    assert_eq!(renames[1].files, imgs);
    assert_eq!(next_stage(stage, &facts), Stage::Finished);
}
