use down_on_spot::error::SpotifyError;
use down_on_spot::uri::{parse_uri, split_colons, starts_with_scheme, uri_from_link, uri_target_of};

#[test]
fn uri_kept_as_is() {
    assert_eq!(parse_uri("spotify:track:4uLU6hMCjMI75M1A2tKUQC"), Ok("spotify:track:4uLU6hMCjMI75M1A2tKUQC".to_string()));
    assert_eq!(parse_uri("spotify:user:x:playlist:y"), Ok("spotify:user:x:playlist:y".to_string()));
}

#[test]
fn short_uri_is_invalid() {
    assert_eq!(parse_uri("spotify:track"), Err(SpotifyError::InvalidUri));
    assert_eq!(parse_uri("spotify:"), Err(SpotifyError::InvalidUri));
}

#[test]
fn web_player_link_becomes_uri() {
    assert_eq!(
        parse_uri("https://open.spotify.com/album/1DFixLWuPkv3KT3TnV35m3?si=abc"),
        Ok("spotify:album:1DFixLWuPkv3KT3TnV35m3".to_string())
    );
}

#[test]
fn other_links_are_invalid() {
    assert_eq!(parse_uri("https://example.com/album/1"), Err(SpotifyError::InvalidUri));
    assert_eq!(parse_uri("https://open.spotify.com/album"), Err(SpotifyError::InvalidUri));
    assert_eq!(parse_uri("never gonna give you up"), Err(SpotifyError::InvalidUri));
    assert_eq!(parse_uri(""), Err(SpotifyError::InvalidUri));
}

#[test]
fn link_parts_to_uri() {
    let parts = Some((Some("open.spotify.com".to_string()), Some(vec!["track".to_string(), "id1".to_string()])));
    assert_eq!(uri_from_link(parts), Ok("spotify:track:id1".to_string()));
    let no_path = Some((Some("open.spotify.com".to_string()), None));
    assert!(matches!(uri_from_link(no_path), Err(SpotifyError::Error(_))));
    assert_eq!(uri_from_link(None), Err(SpotifyError::InvalidUri));
    let other_host = Some((None, Some(vec!["a".to_string(), "b".to_string()])));
    assert_eq!(uri_from_link(other_host), Err(SpotifyError::InvalidUri));
}

#[test]
fn colon_fields() {
    assert_eq!(split_colons("a:b::c"), vec!["a", "b", "", "c"]);
    assert_eq!(split_colons(""), vec![""]);
    assert_eq!(split_colons(":"), vec!["", ""]);
}

#[test]
fn scheme_prefix() {
    assert!(starts_with_scheme("spotify:x"));
    assert!(!starts_with_scheme("spotify"));
    assert!(!starts_with_scheme("Spotify:x"));
}

#[test]
fn uri_target() {
    assert_eq!(uri_target_of("spotify:playlist:37i9"), Some(("playlist".to_string(), "37i9".to_string())));
    assert_eq!(uri_target_of("spotify:artist"), None);
}
