use photo_process::error::PhotoError;
use photo_process::tracks::{
    ensure_gpx, gpx_file_stem, gpx_name, is_merged_track, merge_gpx, merge_inputs, merge_target,
};

fn doc(track: &str, time: Option<&str>) -> Vec<u8> {
    let meta = match time {
        Some(t) => format!("<metadata><time>{}</time></metadata>", t),
        None => String::new(),
    };
    format!(
        "<?xml version=\"1.0\" encoding=\"UTF-8\"?>\
         <gpx version=\"1.1\" creator=\"test\" xmlns=\"http://www.topografix.com/GPX/1/1\">\
         {}<trk><name>{}</name><trkseg><trkpt lat=\"1.0\" lon=\"2.0\"></trkpt></trkseg></trk></gpx>",
        meta, track
    )
    .into_bytes()
}

fn track_names(bytes: &[u8]) -> Vec<String> {
    let g = gpx::read(bytes).unwrap();
    g.tracks.iter().map(|t| t.name.clone().unwrap_or_default()).collect()
}

#[test]
fn merged_track_is_never_an_input() {
    let files: Vec<String> =
        vec!["/D/a.gpx".to_string(), "/D/all_activities.gpx".to_string(), "/D/b.gpx".to_string()];
    let inputs = merge_inputs(&files);
    assert_eq!(inputs, vec!["/D/a.gpx".to_string(), "/D/b.gpx".to_string()]);
    let docs = vec![doc("a", None), doc("b", None)];
    let merged = merge_gpx(&docs).unwrap();
    assert_eq!(track_names(&merged), vec!["a".to_string(), "b".to_string()]);
    assert_eq!(merge_target("/D"), "/D/all_activities.gpx");
    assert_eq!(merge_target("/D/"), "/D/all_activities.gpx");
    assert!(is_merged_track("/D/all_activities.gpx"));
    assert!(!is_merged_track("/D/all_activities.gpx.bak"));
}

#[test]
fn merge_fails_on_a_document_that_does_not_parse() {
    let docs = vec![doc("a", None), b"not xml at all".to_vec()];
    assert_eq!(merge_gpx(&docs), Err(PhotoError::InvalidFormat));
    let empty = merge_gpx(&vec![]).unwrap();
    assert!(track_names(&empty).is_empty());
}

#[test]
fn track_stem_uses_time_and_name_without_slashes() {
    assert_eq!(
        gpx_file_stem(Some("2024-05-01.10.00.00".to_string()), Some("Ride a/b".to_string())),
        "2024-05-01.10.00.00_Ride a-b"
    );
    assert_eq!(gpx_file_stem(None, None), "no_time_track");
}

#[test]
fn gpx_name_reads_track_name_and_time() {
    let bytes = doc("Morning Ride", Some("2024-05-01T10:00:00Z"));
    assert_eq!(
        gpx_name("/D/123.gpx", &bytes),
        Ok("/D/2024-05-01.10.00.00_Morning Ride.gpx".to_string())
    );
    let bytes = doc("Walk", None);
    assert_eq!(gpx_name("/D/9.gpx", &bytes), Ok("/D/no_time_Walk.gpx".to_string()));
    assert_eq!(gpx_name("/D/all_activities.gpx", &vec![]), Ok("/D/all_activities.gpx".to_string()));
    assert_eq!(gpx_name("/D/route.fit", &vec![]), Ok("/D/route.gpx".to_string()));
    assert_eq!(gpx_name("/D/bad.gpx", &b"junk".to_vec()), Err(PhotoError::InvalidFormat));
}

#[test]
fn ensure_gpx_checks_existence_and_format() {
    assert_eq!(ensure_gpx("/D/1.gpx", None, true), Ok(("/D/1.gpx".to_string(), false)));
    assert_eq!(ensure_gpx("/D/1.gpx", None, false), Err(PhotoError::NotFound));
    assert_eq!(ensure_gpx("/D/1.fit", Some(&vec![]), false), Err(PhotoError::UnsupportedTrackFormat));
    let bytes = doc("Walk", None);
    assert_eq!(
        ensure_gpx("/D/1.gpx", Some(&bytes), false),
        Ok(("/D/no_time_Walk.gpx".to_string(), true))
    );
    assert_eq!(
        ensure_gpx("/D/no_time_Walk.gpx", Some(&bytes), false),
        Ok(("/D/no_time_Walk.gpx".to_string(), false))
    );
}

#[test]
fn merge_keeps_routes_and_waypoints_in_input_order() {
    let with_extras = |name: &str| {
        format!(
            "<?xml version=\"1.0\" encoding=\"UTF-8\"?>\
             <gpx version=\"1.1\" creator=\"test\" xmlns=\"http://www.topografix.com/GPX/1/1\">\
             <wpt lat=\"1.0\" lon=\"2.0\"><name>{0}-w</name></wpt>\
             <rte><name>{0}-r</name></rte></gpx>",
            name
        )
        .into_bytes()
    };
    let merged = merge_gpx(&vec![with_extras("a"), with_extras("b")]).unwrap();
    let g = gpx::read(merged.as_slice()).unwrap();
    let wpts: Vec<String> = g.waypoints.iter().map(|w| w.name.clone().unwrap_or_default()).collect();
    let rtes: Vec<String> = g.routes.iter().map(|r| r.name.clone().unwrap_or_default()).collect();
    assert_eq!(wpts, vec!["a-w".to_string(), "b-w".to_string()]);
    assert_eq!(rtes, vec!["a-r".to_string(), "b-r".to_string()]);
}
