//! The table of city names that the metadata tool knows, with each one's
//! numeric timezone identifier and canonical offset.

use crate::error::PhotoError;
use crate::text::{chars_eq, chars_of, string_of, views};
use vstd::prelude::*;

verus! {

/// The table's rows: city name, timezone identifier, offset text.
pub open spec fn city_table() -> Seq<(&'static str, i32, &'static str)> {
    seq![
        ("Adelaide", 5, "+09:30"),
        ("Anchorage", 31, "-09:00"),
        ("Austin", 28, "-06:00"),
        ("Azores", 21, "-01:00"),
        ("Bangkok", 8, "+07:00"),
        ("Buenos Aires", 25, "-04:00"),
        ("Cairo", 18, "+02:00"),
        ("Caracas", 26, "-04:30"),
        ("Chatham Islands", 1, "+12:45"),
        ("Chicago", 28, "-06:00"),
        ("Delhi", 12, "+05:30"),
        ("Denver", 29, "-07:00"),
        ("Dhaka", 10, "+06:00"),
        ("Dubai", 15, "+04:00"),
        ("Dublin", 20, "+00:00"),
        ("Fernando de Noronha", 22, "-02:00"),
        ("Galapagos", 28, "-06:00"),
        ("Hong Kong", 7, "+08:00"),
        ("Honolulu", 32, "-10:00"),
        ("Kabul", 14, "+04:30"),
        ("Karachi", 13, "+05:00"),
        ("Kathmandu", 11, "+05:45"),
        ("Kiev", 17, "+02:00"),
        ("London", 20, "+00:00"),
        ("Los Angeles", 30, "-08:00"),
        ("Mexico City", 28, "-06:00"),
        ("Moscow", 17, "+04:00"),
        ("New York", 27, "-05:00"),
        ("Newfoundland", 24, "-03:30"),
        ("Paris", 19, "+01:00"),
        ("Quintana Roo", 27, "-05:00"),
        ("Quito", 27, "-05:00"),
        ("Rome", 19, "+01:00"),
        ("Samoa", 33, "+13:00"),
        ("San Francisco", 30, "-08:00"),
        ("Santiago", 25, "-04:00"),
        ("Sao Paulo", 23, "-03:00"),
        ("Singapore", 7, "+08:00"),
        ("Solomon Islands", 3, "+11:00"),
        ("Sydney", 4, "+10:00"),
        ("Tehran", 16, "+03:30"),
        ("Tokyo", 6, "+09:00"),
        ("US/Central", 28, "-06:00"),
        ("US/Eastern", 27, "-05:00"),
        ("US/Pacific", 30, "-08:00"),
        ("Wellington", 2, "+12:00"),
        ("Yangon", 9, "+06:30"),
    ]
}

/// The rows of the table.
pub fn tz_cities() -> (r: Vec<(&'static str, i32, &'static str)>)
    ensures
        r@ == city_table(),
{
    vec![
        ("Adelaide", 5, "+09:30"),
        ("Anchorage", 31, "-09:00"),
        ("Austin", 28, "-06:00"),
        ("Azores", 21, "-01:00"),
        ("Bangkok", 8, "+07:00"),
        ("Buenos Aires", 25, "-04:00"),
        ("Cairo", 18, "+02:00"),
        ("Caracas", 26, "-04:30"),
        ("Chatham Islands", 1, "+12:45"),
        ("Chicago", 28, "-06:00"),
        ("Delhi", 12, "+05:30"),
        ("Denver", 29, "-07:00"),
        ("Dhaka", 10, "+06:00"),
        ("Dubai", 15, "+04:00"),
        ("Dublin", 20, "+00:00"),
        ("Fernando de Noronha", 22, "-02:00"),
        ("Galapagos", 28, "-06:00"),
        ("Hong Kong", 7, "+08:00"),
        ("Honolulu", 32, "-10:00"),
        ("Kabul", 14, "+04:30"),
        ("Karachi", 13, "+05:00"),
        ("Kathmandu", 11, "+05:45"),
        ("Kiev", 17, "+02:00"),
        ("London", 20, "+00:00"),
        ("Los Angeles", 30, "-08:00"),
        ("Mexico City", 28, "-06:00"),
        ("Moscow", 17, "+04:00"),
        ("New York", 27, "-05:00"),
        ("Newfoundland", 24, "-03:30"),
        ("Paris", 19, "+01:00"),
        ("Quintana Roo", 27, "-05:00"),
        ("Quito", 27, "-05:00"),
        ("Rome", 19, "+01:00"),
        ("Samoa", 33, "+13:00"),
        ("San Francisco", 30, "-08:00"),
        ("Santiago", 25, "-04:00"),
        ("Sao Paulo", 23, "-03:00"),
        ("Singapore", 7, "+08:00"),
        ("Solomon Islands", 3, "+11:00"),
        ("Sydney", 4, "+10:00"),
        ("Tehran", 16, "+03:30"),
        ("Tokyo", 6, "+09:00"),
        ("US/Central", 28, "-06:00"),
        ("US/Eastern", 27, "-05:00"),
        ("US/Pacific", 30, "-08:00"),
        ("Wellington", 2, "+12:00"),
        ("Yangon", 9, "+06:30"),
    ]
}

/// The first row at or after `i` whose name is `city`: its identifier and offset.
pub open spec fn lookup_from(city: Seq<char>, i: int) -> Option<(i32, Seq<char>)>
    decreases city_table().len() - i,
{
    if i < 0 || i >= city_table().len() {
        None
    } else if city_table()[i].0@ == city {
        Some((city_table()[i].1, city_table()[i].2@))
    } else {
        lookup_from(city, i + 1)
    }
}

/// The names of the first `n` rows whose offset is `offset`, in table order.
pub open spec fn cities_with_offset(offset: Seq<char>, n: int) -> Seq<Seq<char>>
    decreases n,
{
    if n <= 0 || n > city_table().len() {
        Seq::empty()
    } else if city_table()[n - 1].2@ == offset {
        cities_with_offset(offset, n - 1).push(city_table()[n - 1].0@)
    } else {
        cities_with_offset(offset, n - 1)
    }
}

/// The timezone identifier and offset of a city of the table.
pub fn get_tz_info(city: &str) -> (r: Result<(i32, String), PhotoError>)
    ensures
        match r {
            Ok((id, off)) => lookup_from(city@, 0) == Some((id, off@)),
            Err(e) => e == PhotoError::UnknownCity && lookup_from(city@, 0) is None,
        },
{
    let rows = tz_cities();
    let want = chars_of(city);
    let mut i: usize = 0;
    while i < rows.len()
        invariant
            rows@ == city_table(),
            want@ == city@,
            i <= rows@.len(),
            lookup_from(city@, 0) == lookup_from(city@, i as int),
        decreases rows@.len() - i,
    {
        let (name, id, offset) = rows[i];
        if chars_eq(&chars_of(name), &want) {
            return Ok((id, string_of(&chars_of(offset))));
        }
        i = i + 1;
    }
    Err(PhotoError::UnknownCity)
}

/// The cities of the table whose offset is `offset`, in table order.
pub fn get_cities_by_offset(offset: &str) -> (r: Vec<String>)
    ensures
        views(r@) == cities_with_offset(offset@, city_table().len() as int),
{
    let rows = tz_cities();
    let want = chars_of(offset);
    let mut out: Vec<String> = Vec::new();
    let mut i: usize = 0;
    while i < rows.len()
        invariant
            rows@ == city_table(),
            want@ == offset@,
            i <= rows@.len(),
            views(out@) == cities_with_offset(offset@, i as int),
        decreases rows@.len() - i,
    {
        let (name, _, off) = rows[i];
        if chars_eq(&chars_of(off), &want) {
            let s = string_of(&chars_of(name));
            out.push(s);
            assert(views(out@) =~= views(out@.drop_last()).push(s@));
        }
        i = i + 1;
    }
    out
}

/// The offsets of the first `n` rows, each once, in the order they first appear.
pub open spec fn offsets_upto(n: int) -> Seq<Seq<char>>
    decreases n,
{
    if n <= 0 || n > city_table().len() {
        Seq::empty()
    } else if offsets_upto(n - 1).contains(city_table()[n - 1].2@) {
        offsets_upto(n - 1)
    } else {
        offsets_upto(n - 1).push(city_table()[n - 1].2@)
    }
}

/// Every offset of the table, each once in order of first appearance, with
/// the cities that have it in table order.
pub fn get_reverse_timezone_index() -> (r: Vec<(String, Vec<String>)>)
    ensures
        r@.map_values(|e: (String, Vec<String>)| e.0@) == offsets_upto(city_table().len() as int),
        forall|j: int| 0 <= j < r@.len() ==> views(#[trigger] r@[j].1@) == cities_with_offset(
            r@[j].0@,
            city_table().len() as int,
        ),
{
    let rows = tz_cities();
    let mut index: Vec<(String, Vec<String>)> = Vec::new();
    let mut i: usize = 0;
    while i < rows.len()
        invariant
            rows@ == city_table(),
            i <= rows@.len(),
            index@.map_values(|e: (String, Vec<String>)| e.0@) == offsets_upto(i as int),
            forall|j: int| 0 <= j < index@.len() ==> views(#[trigger] index@[j].1@) == cities_with_offset(
                index@[j].0@,
                city_table().len() as int,
            ),
        decreases rows@.len() - i,
    {
        let ghost keys = index@.map_values(|e: (String, Vec<String>)| e.0@);
        let (_, _, offset) = rows[i];
        let want = chars_of(offset);
        let mut j: usize = 0;
        let mut seen = false;
        while j < index.len()
            invariant
                j <= index@.len(),
                want@ == offset@,
                keys == index@.map_values(|e: (String, Vec<String>)| e.0@),
                seen == keys.subrange(0, j as int).contains(offset@),
            decreases index@.len() - j,
        {
            let ghost before = keys.subrange(0, j as int);
            let ghost after = keys.subrange(0, j + 1);
            assert(after =~= before.push(keys[j as int]));
            assert(keys[j as int] == index@[j as int].0@);
            if chars_eq(&chars_of(index[j].0.as_str()), &want) {
                seen = true;
                assert(after[j as int] == offset@);
            } else {
                assert forall|k: int| 0 <= k < after.len() && after[k] == offset@ implies before.contains(offset@) by {
                    assert(before[k] == after[k]);
                }
            }
            j = j + 1;
        }
        assert(keys.subrange(0, index@.len() as int) =~= keys);
        if !seen {
            let key = string_of(&want);
            let cities = get_cities_by_offset(offset);
            index.push((key, cities));
            assert(index@.map_values(|e: (String, Vec<String>)| e.0@) =~= keys.push(offset@));
        }
        i = i + 1;
    }
    index
}

} // verus!
