use down_on_spot::error::SpotifyError;
use down_on_spot::lrc::{format_stamp, lrc_text, LyricLine, LyricSyllable, LyricsKind};

fn syl(ms: u64, t: &str, part: bool) -> LyricSyllable {
    LyricSyllable { start_ms: ms, text: t.to_string(), part_of_word: part }
}

#[test]
fn stamps() {
    assert_eq!(format_stamp(0), "00:00.00");
    assert_eq!(format_stamp(83_456), "01:23.45");
    assert_eq!(format_stamp(6_000_000), "100:00.00");
}

#[test]
fn line_timed() {
    let lines = vec![
        LyricLine { start_ms: 1_000, text: "Hello".to_string(), syllables: vec![] },
        LyricLine { start_ms: 61_250, text: "World".to_string(), syllables: vec![] },
    ];
    assert_eq!(lrc_text(&LyricsKind::Line, &lines, true), Ok("[00:01.00]Hello\n[01:01.25]World\n".to_string()));
}

#[test]
fn syllable_timed() {
    let lines = vec![LyricLine {
        start_ms: 500,
        text: String::new(),
        syllables: vec![syl(500, "Hel", true), syl(750, "lo", false), syl(1_020, "you", false)],
    }];
    assert_eq!(lrc_text(&LyricsKind::Syllable, &lines, false), Ok("[00:00.50]Hello you \n".to_string()));
    assert_eq!(
        lrc_text(&LyricsKind::Syllable, &lines, true),
        Ok("[00:00.50]<00:00.50>Hel<00:00.75>lo <00:01.02>you \n".to_string())
    );
}

#[test]
fn untimed() {
    let lines = vec![LyricLine { start_ms: 9, text: "plain".to_string(), syllables: vec![] }];
    assert_eq!(lrc_text(&LyricsKind::Static, &lines, true), Ok("plain\n".to_string()));
    assert_eq!(lrc_text(&LyricsKind::Static, &vec![], true), Ok(String::new()));
}

#[test]
fn unknown_kind() {
    assert_eq!(
        lrc_text(&LyricsKind::Other("Karaoke".to_string()), &vec![], true),
        Err(SpotifyError::Error("Unknown lyric type Karaoke".to_string()))
    );
}
