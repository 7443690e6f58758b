use photo_process::error::PhotoError;
use photo_process::probe::{date_listing_args, get_image_offset, probe_call_args};

#[test]
fn explicit_offset_tag_wins_and_is_taken_verbatim() {
    let out = "[ExifIFD] DateTimeOriginal : 2024:05:01 10:00:00\n\
               [MakerNotes] DaylightSavings : On\n\
               [MakerNotes] TimeZone : +01:00\n\
               [ExifIFD] OffsetTimeOriginal : +02:00\n";
    assert_eq!(get_image_offset(out), Ok(("+02:00".to_string(), true)));
}

#[test]
fn timezone_tag_gets_an_hour_for_daylight_saving() {
    let out = "[Canon] TimeZone : +01:00\r\n[Canon] DaylightSavings : On";
    assert_eq!(get_image_offset(out), Ok(("+02:00".to_string(), true)));
    let out = "[Canon] TimeZone : -05:00\n[Canon] DaylightSavings : Off";
    assert_eq!(get_image_offset(out), Ok(("-05:00".to_string(), false)));
}

#[test]
fn tags_without_a_group_are_read_too() {
    assert_eq!(get_image_offset("TimeZone : +09:30"), Ok(("+09:30".to_string(), false)));
}

#[test]
fn missing_offset_tags_fail() {
    assert_eq!(get_image_offset(""), Err(PhotoError::NoOffsetFound));
    assert_eq!(
        get_image_offset("[ExifIFD] DateTimeOriginal : 2024:05:01 10:00:00"),
        Err(PhotoError::NoOffsetFound)
    );
}

#[test]
fn unreadable_timezone_tag_fails_with_invalid_format() {
    assert_eq!(get_image_offset("[Canon] TimeZone : n/a"), Err(PhotoError::InvalidFormat));
}

#[test]
fn probe_arguments_name_the_four_tags() {
    let args = probe_call_args("/p/a.jpg");
    assert_eq!(
        args,
        vec![
            "-G1", "-a", "-s", "-DateTimeOriginal", "-DaylightSavings", "-TimeZone",
            "-OffsetTimeOriginal", "/p/a.jpg"
        ]
    );
    assert_eq!(
        date_listing_args("/d"),
        vec!["-T", "-d", "%Y-%m-%d", "-DateTimeOriginal", "-r", "/d"]
    );
}
