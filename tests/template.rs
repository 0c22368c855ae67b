use down_on_spot::template::{
    decimal_string, decimal_string2, fill_template, join_names, parent_dir, path_stem, path_tags,
    replace_all, with_extension, TrackInfo,
};

fn info() -> TrackInfo {
    TrackInfo {
        name: "Back: In <Black>".to_string(),
        artists: vec!["AC/DC".to_string(), "Guest".to_string()],
        album: "Back in Black".to_string(),
        album_artists: vec![],
        track_number: 7,
        disc_number: 12,
    }
}

#[test]
fn decimals() {
    assert_eq!(decimal_string(0), "0");
    assert_eq!(decimal_string(1234567), "1234567");
    assert_eq!(decimal_string(u64::MAX), "18446744073709551615");
    assert_eq!(decimal_string2(7), "07");
    assert_eq!(decimal_string2(12), "12");
    assert_eq!(decimal_string2(123), "123");
}

#[test]
fn replace_is_left_to_right_and_non_overlapping() {
    assert_eq!(replace_all("aaa", "aa", "b"), "ba");
    assert_eq!(replace_all("%t% and %t%", "%t%", "x"), "x and x");
    assert_eq!(replace_all("none", "%t%", "x"), "none");
    assert_eq!(replace_all("", "a", "b"), "");
    assert_eq!(replace_all("héllo", "é", "e"), "hello");
    assert_eq!(replace_all("abc", "", "x"), "abc");
}

#[test]
fn names_joined() {
    assert_eq!(join_names(&vec!["a".to_string(), "b".to_string(), "c".to_string()], ", "), "a, b, c");
    assert_eq!(join_names(&vec![], ", "), "");
    assert_eq!(join_names(&vec!["solo".to_string()], ", "), "solo");
}

#[test]
fn tags_are_sanitized_and_numbered() {
    let tags = path_tags(&info(), "id42");
    let get = |k: &str| tags.iter().find(|(n, _)| n == k).unwrap().1.clone();
    assert_eq!(tags.len(), 11);
    assert_eq!(get("%title%"), "Back In Black");
    assert_eq!(get("%artist%"), "ACDC");
    assert_eq!(get("%artists%"), "ACDC, Guest");
    assert_eq!(get("%track%"), "7");
    assert_eq!(get("%0track%"), "07");
    assert_eq!(get("%disc%"), "12");
    assert_eq!(get("%0disc%"), "12");
    assert_eq!(get("%id%"), "id42");
    assert_eq!(get("%album%"), "Back in Black");
    assert_eq!(get("%albumArtist%"), "");
    assert_eq!(get("%albumArtists%"), "");
}

#[test]
fn templates_filled_in_order() {
    let tags = path_tags(&info(), "id42");
    assert_eq!(fill_template("%artist% - %title%", &tags), "ACDC - Back In Black");
    assert_eq!(fill_template("%0disc%-%0track% %artists%", &tags), "12-07 ACDC, Guest");
    assert_eq!(path_stem("music/%album%", "%track% %title%", &tags), "music/Back in Black/7 Back In Black");
}

#[test]
fn parent_and_extension() {
    assert_eq!(parent_dir("music/Album/7 Title"), "music/Album");
    assert_eq!(parent_dir("no slash"), "");
    assert_eq!(with_extension("music/x", "ogg"), "music/x.ogg");
    assert_eq!(with_extension("music/x", ""), "music/x.");
}
