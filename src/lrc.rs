use vstd::prelude::*;

use crate::error::SpotifyError;
use crate::template::{decimal2, decimal_string2};

verus! {

/// How a lyrics document is timed.
#[derive(Debug, Clone)]
pub enum LyricsKind {
    /// Each word has its own start time.
    Syllable,
    /// Each line has a start time.
    Line,
    /// No timing.
    Static,
    /// A kind this library does not know, by name.
    Other(String),
}

/// A timed word of a line.
#[derive(Debug, Clone)]
pub struct LyricSyllable {
    pub start_ms: u64,
    pub text: String,
    pub part_of_word: bool,
}

/// A line of lyrics; syllables only for syllable-timed lyrics.
#[derive(Debug, Clone)]
pub struct LyricLine {
    pub start_ms: u64,
    pub text: String,
    pub syllables: Vec<LyricSyllable>,
}

/// `mm:ss.hh` of a time in milliseconds, each field at least two digits.
pub open spec fn stamp(ms: nat) -> Seq<char> {
    decimal2(ms / 60000) + seq![':'] + decimal2((ms % 60000) / 1000) + seq!['.'] + decimal2((ms % 1000) / 10)
}

/// A syllable in a line: its time in angle brackets when enhanced, its text, and a
/// space unless it runs on into the next syllable.
pub open spec fn syllable_lrc(s: LyricSyllable, enhanced: bool) -> Seq<char> {
    (if enhanced { seq!['<'] + stamp(s.start_ms as nat) + seq!['>'] } else { Seq::empty() }) + s.text@ + (if s.part_of_word {
        Seq::empty()
    } else {
        seq![' ']
    })
}

/// The syllables of a line, one after another.
pub open spec fn syllables_lrc(ss: Seq<LyricSyllable>, enhanced: bool) -> Seq<char>
    decreases ss.len(),
{
    if ss.len() == 0 {
        Seq::empty()
    } else {
        syllables_lrc(ss.drop_last(), enhanced) + syllable_lrc(ss.last(), enhanced)
    }
}

/// One line of the sidecar for a lyrics kind.
pub open spec fn line_lrc(kind: LyricsKind, l: LyricLine, enhanced: bool) -> Seq<char> {
    match kind {
        LyricsKind::Syllable => seq!['['] + stamp(l.start_ms as nat) + seq![']'] + syllables_lrc(l.syllables@, enhanced) + seq!['\n'],
        LyricsKind::Line => seq!['['] + stamp(l.start_ms as nat) + seq![']'] + l.text@ + seq!['\n'],
        _ => l.text@ + seq!['\n'],
    }
}

/// All lines of the sidecar.
pub open spec fn lines_lrc(kind: LyricsKind, ls: Seq<LyricLine>, enhanced: bool) -> Seq<char>
    decreases ls.len(),
{
    if ls.len() == 0 {
        Seq::empty()
    } else {
        lines_lrc(kind, ls.drop_last(), enhanced) + line_lrc(kind, ls.last(), enhanced)
    }
}

/// `mm:ss.hh` of a time in milliseconds.
pub fn format_stamp(ms: u64) -> (r: String)
    ensures
        r@ == stamp(ms as nat),
{
    let mut r = decimal_string2(ms / 60000);
    r.append(":");
    let sec = decimal_string2((ms % 60000) / 1000);
    r.append(sec.as_str());
    r.append(".");
    let hundredths = decimal_string2((ms % 1000) / 10);
    r.append(hundredths.as_str());
    proof {
        reveal_strlit(":");
        reveal_strlit(".");
    }
    r
}

fn append_syllables(out: &mut String, ss: &Vec<LyricSyllable>, enhanced: bool)
    ensures
        final(out)@ == old(out)@ + syllables_lrc(ss@, enhanced),
{
    let ghost start = out@;
    let mut i: usize = 0;
    proof {
        reveal_strlit("<");
        reveal_strlit(">");
        reveal_strlit(" ");
    }
    assert(ss@.subrange(0, 0) =~= Seq::<LyricSyllable>::empty());
    assert(start + Seq::<char>::empty() =~= start);
    while i < ss.len()
        invariant
            i <= ss.len(),
            out@ == start + syllables_lrc(ss@.subrange(0, i as int), enhanced),
            "<"@ == seq!['<'],
            ">"@ == seq!['>'],
            " "@ == seq![' '],
        decreases ss.len() - i,
    {
        assert(ss@.subrange(0, i + 1).drop_last() =~= ss@.subrange(0, i as int));
        let ghost before = out@;
        let s = &ss[i];
        if enhanced {
            out.append("<");
            let st = format_stamp(s.start_ms);
            out.append(st.as_str());
            out.append(">");
        }
        out.append(s.text.as_str());
        if !s.part_of_word {
            out.append(" ");
        }
        assert(out@ =~= before + syllable_lrc(ss@[i as int], enhanced));
        i = i + 1;
    }
    assert(ss@.subrange(0, ss@.len() as int) =~= ss@);
}

/// The text of a timed-lyrics sidecar: per line, its time stamp in brackets and its text
/// (for syllable timing, each syllable, with its own stamp when `enhanced`); untimed
/// lyrics give their lines only. An unknown kind is an error that names it.
pub fn lrc_text(kind: &LyricsKind, lines: &Vec<LyricLine>, enhanced: bool) -> (r: Result<String, SpotifyError>)
    ensures
        match kind {
            LyricsKind::Other(name) => r matches Err(SpotifyError::Error(m)) && m@ == "Unknown lyric type "@ + name@,
            _ => r matches Ok(t) && t@ == lines_lrc(*kind, lines@, enhanced),
        },
{
    if let LyricsKind::Other(name) = kind {
        let mut m = String::from_str("Unknown lyric type ");
        m.append(name.as_str());
        return Err(SpotifyError::Error(m));
    }
    proof {
        reveal_strlit("[");
        reveal_strlit("]");
        reveal_strlit("\n");
    }
    let mut out = String::new();
    let mut i: usize = 0;
    assert(lines@.subrange(0, 0) =~= Seq::<LyricLine>::empty());
    while i < lines.len()
        invariant
            i <= lines.len(),
            !(kind is Other),
            out@ == lines_lrc(*kind, lines@.subrange(0, i as int), enhanced),
            "["@ == seq!['['],
            "]"@ == seq![']'],
            "\n"@ == seq!['\n'],
        decreases lines.len() - i,
    {
        assert(lines@.subrange(0, i + 1).drop_last() =~= lines@.subrange(0, i as int));
        let ghost before = out@;
        let l = &lines[i];
        match kind {
            LyricsKind::Syllable => {
                out.append("[");
                let st = format_stamp(l.start_ms);
                out.append(st.as_str());
                out.append("]");
                append_syllables(&mut out, &l.syllables, enhanced);
                out.append("\n");
            },
            LyricsKind::Line => {
                out.append("[");
                let st = format_stamp(l.start_ms);
                out.append(st.as_str());
                out.append("]");
                out.append(l.text.as_str());
                out.append("\n");
            },
            _ => {
                out.append(l.text.as_str());
                out.append("\n");
            },
        }
        assert(out@ =~= before + line_lrc(*kind, lines@[i as int], enhanced));
        i = i + 1;
    }
    assert(lines@.subrange(0, lines@.len() as int) =~= lines@);
    Ok(out)
}

} // verus!
