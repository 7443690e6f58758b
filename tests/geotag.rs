use photo_process::error::PhotoError;
use photo_process::geotag::{cmd_geotag, group_by_parent, parent_dir};
use photo_process::scan::AppConfig;

fn files(v: &[&str]) -> Vec<String> {
    v.iter().map(|s| s.to_string()).collect()
}

#[test]
fn files_are_grouped_by_directory_in_first_seen_order() {
    let (dirs, groups) = group_by_parent(&files(&["/b/1.jpg", "/a/2.jpg", "/b/3.jpg", "4.jpg"]));
    assert_eq!(dirs, files(&["/b", "/a", ""]));
    assert_eq!(groups, vec![files(&["/b/1.jpg", "/b/3.jpg"]), files(&["/a/2.jpg"]), files(&["4.jpg"])]);
    assert_eq!(parent_dir("/x.jpg"), "/");
}

#[test]
fn one_track_is_used_as_is() {
    let c = AppConfig::new(&vec!["jpg".to_string()], 15, false);
    let plan = cmd_geotag(&c, &files(&["/t/one.gpx"]), &files(&["/p/a.jpg"])).unwrap();
    assert_eq!(plan.steps.len(), 1);
    assert!(!plan.steps[0].merge);
    assert_eq!(plan.steps[0].track, "/t/one.gpx");
    assert!(!plan.steps[0].remove_track);
    assert_eq!(plan.steps[0].call.args[1], "/t/one.gpx");
    assert_eq!(plan.backups, files(&["/p/a.jpg_original"]));
}

#[test]
fn several_tracks_are_merged_per_directory() {
    let c = AppConfig::new(&vec!["jpg".to_string()], 15, false);
    let plan = cmd_geotag(&c, &files(&["/t/1.gpx", "/t/2.gpx"]), &files(&["/p/a.jpg", "/q/b.jpg"])).unwrap();
    assert_eq!(plan.steps.len(), 2);
    assert!(plan.steps[0].merge);
    assert_eq!(plan.steps[0].track, "/p/all_activities.gpx");
    assert!(plan.steps[0].remove_track);
    assert_eq!(plan.steps[1].call.args, vec!["-g", "/q/all_activities.gpx", "-z", "UTC", "-d", "/q", "--time-range", "15"]);
    let dry = AppConfig::new(&vec!["jpg".to_string()], 15, true);
    let plan = cmd_geotag(&dry, &files(&["/t/1.gpx", "/t/2.gpx"]), &files(&["/p/a.jpg"])).unwrap();
    assert!(!plan.steps[0].remove_track);
    assert!(plan.backups.is_empty());
}

#[test]
fn geotag_without_tracks_fails() {
    let c = AppConfig::new(&vec!["jpg".to_string()], 15, false);
    assert!(matches!(cmd_geotag(&c, &vec![], &files(&["/p/a.jpg"])), Err(PhotoError::NoTracks)));
}
