use photo_process::error::PhotoError;
use photo_process::offset::{format_offset, invert_offset, parse_offset};

#[test]
fn test_parse_offset() {
    assert_eq!(parse_offset("+01:00").unwrap(), 60);
    assert_eq!(parse_offset("-05:00").unwrap(), -300);
    assert_eq!(parse_offset("+00:00").unwrap(), 0);
    assert_eq!(parse_offset("+05:30").unwrap(), 330);
}

#[test]
fn test_format_offset() {
    assert_eq!(format_offset(60), "+01:00");
    assert_eq!(format_offset(-300), "-05:00");
    assert_eq!(format_offset(0), "+00:00");
    assert_eq!(format_offset(330), "+05:30");
}

#[test]
fn parse_offset_rejects_empty_and_malformed_text() {
    assert_eq!(parse_offset(""), Err(PhotoError::InvalidFormat));
    assert_eq!(parse_offset("   "), Err(PhotoError::InvalidFormat));
    assert_eq!(parse_offset("+0100"), Err(PhotoError::InvalidFormat));
    assert_eq!(parse_offset("+ab:00"), Err(PhotoError::InvalidFormat));
    assert_eq!(parse_offset("+01:"), Err(PhotoError::InvalidFormat));
}

#[test]
fn parse_offset_trims_and_defaults_to_positive() {
    assert_eq!(parse_offset("  -03:30 \n"), Ok(-210));
    assert_eq!(parse_offset("02:15"), Ok(135));
    assert_eq!(parse_offset("+01:30:45"), Ok(90));
}

#[test]
fn parse_offset_refuses_values_beyond_i32() {
    assert_eq!(parse_offset("+2147483647:00"), Err(PhotoError::InvalidFormat));
}

#[test]
fn format_offset_pads_and_handles_extremes() {
    assert_eq!(format_offset(5), "+00:05");
    assert_eq!(format_offset(-1439), "-23:59");
    assert_eq!(format_offset(6000), "+100:00");
    assert_eq!(format_offset(i32::MIN), "-35791394:08");
}

#[test]
fn round_trip_over_a_day_of_offsets() {
    for m in -1439..=1439 {
        assert_eq!(parse_offset(&format_offset(m)), Ok(m));
    }
}

#[test]
fn invert_flips_the_sign() {
    assert_eq!(invert_offset("+02:00"), Some("-02:00".to_string()));
    assert_eq!(invert_offset("-05:30"), Some("+05:30".to_string()));
    assert_eq!(invert_offset("01:00"), Some("-01:00".to_string()));
    assert_eq!(invert_offset("+01:00:30"), Some("-01:00".to_string()));
    assert_eq!(invert_offset("+0200"), None);
}

#[test]
fn two_stage_shift_equals_one_shift() {
    let detected = "+02:00";
    let target = "-05:00";
    let inverted = invert_offset(detected).unwrap();
    let two_stage = parse_offset(&inverted).unwrap() + parse_offset(target).unwrap();
    let single = parse_offset(target).unwrap() - parse_offset(detected).unwrap();
    assert_eq!(two_stage, single);
    assert_eq!(two_stage, -420);
}
