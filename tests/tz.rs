use photo_process::error::PhotoError;
use photo_process::tz::{get_cities_by_offset, get_reverse_timezone_index, get_tz_info, tz_cities};

#[test]
fn known_cities_give_identifier_and_offset() {
    assert_eq!(get_tz_info("Dublin"), Ok((20, "+00:00".to_string())));
    assert_eq!(get_tz_info("Kathmandu"), Ok((11, "+05:45".to_string())));
    assert_eq!(get_tz_info("Newfoundland"), Ok((24, "-03:30".to_string())));
}

#[test]
fn unknown_city_fails() {
    assert_eq!(get_tz_info("Atlantis"), Err(PhotoError::UnknownCity));
    assert_eq!(get_tz_info("dublin"), Err(PhotoError::UnknownCity));
}

#[test]
fn cities_by_offset_keep_table_order() {
    assert_eq!(get_cities_by_offset("+00:00"), vec!["Dublin".to_string(), "London".to_string()]);
    assert_eq!(get_cities_by_offset("+05:30"), vec!["Delhi".to_string()]);
    assert!(get_cities_by_offset("+14:00").is_empty());
    assert_eq!(tz_cities().len(), 47);
}

#[test]
fn reverse_index_groups_cities_by_offset() {
    let index = get_reverse_timezone_index();
    assert_eq!(index[0].0, "+09:30");
    assert_eq!(index[0].1, vec!["Adelaide".to_string()]);
    let central = index.iter().find(|(o, _)| o == "-06:00").unwrap();
    assert_eq!(
        central.1,
        vec!["Austin", "Chicago", "Galapagos", "Mexico City", "US/Central"]
            .into_iter()
            .map(String::from)
            .collect::<Vec<_>>()
    );
    let total: usize = index.iter().map(|(_, c)| c.len()).sum();
    assert_eq!(total, 47);
    for (i, (a, _)) in index.iter().enumerate() {
        assert!(index.iter().skip(i + 1).all(|(b, _)| a != b));
    }
}
