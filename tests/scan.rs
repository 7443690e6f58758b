use photo_process::cli::{is_dry_run, Cli, Commands};
use photo_process::scan::{classify_extension, classify_file, path_extension, AppConfig, FileKind};

fn config() -> AppConfig {
    AppConfig::new(&vec!["jpg".to_string(), "MP4".to_string()], 10, false)
}

#[test]
fn suffixes_are_folded_to_lower_case() {
    let c = config();
    assert_eq!(c.suffixes, vec!["jpg".to_string(), "mp4".to_string()]);
    assert_eq!(c.timerange, 10);
    assert!(!c.dry_run);
}

#[test]
fn media_match_ignores_case() {
    let c = config();
    assert_eq!(classify_file(&c, "IMG_1.JPG"), FileKind::Media);
    assert_eq!(classify_file(&c, "/photos/2024/clip.Mp4"), FileKind::Media);
}

#[test]
fn gpx_is_a_track_whatever_the_suffixes() {
    let c = config();
    assert_eq!(classify_file(&c, "track.GPX"), FileKind::Track);
    let none = AppConfig::new(&vec![], 10, false);
    assert_eq!(classify_file(&none, "/x/track.gpx"), FileKind::Track);
}

#[test]
fn other_files_are_ignored() {
    let c = config();
    assert_eq!(classify_file(&c, "notes.txt"), FileKind::Ignored);
    assert_eq!(classify_file(&c, ".jpg"), FileKind::Ignored);
    assert_eq!(classify_file(&c, "README"), FileKind::Ignored);
    assert_eq!(classify_extension(&c, "JPG"), FileKind::Ignored);
}

#[test]
fn extension_follows_the_last_dot_of_the_name() {
    assert_eq!(path_extension("/a.b/c.tar.gz"), "gz");
    assert_eq!(path_extension("/a.b/c"), "");
    assert_eq!(path_extension(".hidden"), "");
    assert_eq!(path_extension("name."), "");
}

#[test]
fn dry_run_only_for_process_without_force() {
    let process = |force| Commands::Process {
        force,
        dirs: vec!["/d".to_string()],
        timezone: "Dublin".to_string(),
        dst: false,
        organize: false,
    };
    assert!(is_dry_run(&process(false)));
    assert!(!is_dry_run(&process(true)));
    assert!(!is_dry_run(&Commands::Rename { paths: vec![] }));
    let cli = Cli { timerange: 7, suffix: vec!["JPG".to_string()], command: process(false) };
    let c = cli.config();
    assert_eq!(c.suffixes, vec!["jpg".to_string()]);
    assert_eq!(c.timerange, 7);
    assert!(c.dry_run);
}
