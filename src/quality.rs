use vstd::prelude::*;

verus! {

/// An encoded variant of a track as the catalog offers it.
#[derive(Debug, Clone, Copy, PartialEq, Eq, Structural)]
pub enum FileFormat {
    OggVorbis96,
    OggVorbis160,
    OggVorbis320,
    Mp3_256,
    Mp3_320,
    Mp3_160,
    Mp3_96,
    Mp3_160Enc,
    Mp4_128Dual,
    Other3,
    Aac160,
    Aac320,
    Mp4_128,
    Other5,
}

/// The container a downloaded file ends up in.
#[derive(Debug, Clone, Copy, PartialEq, Eq, Structural)]
pub enum AudioFormat {
    Ogg,
    Aac,
    Mp3,
    Mp4,
    Unknown,
}

/// Bitrate tier of a download, best first.
#[derive(Debug, Clone, Copy, PartialEq, Eq, Structural)]
pub enum Quality {
    Q320,
    Q256,
    Q160,
    Q96,
}

/// Container of each encoded variant.
pub open spec fn audio_format_of(f: FileFormat) -> AudioFormat {
    match f {
        FileFormat::OggVorbis96 | FileFormat::OggVorbis160 | FileFormat::OggVorbis320 => AudioFormat::Ogg,
        FileFormat::Mp3_256 | FileFormat::Mp3_320 | FileFormat::Mp3_160 | FileFormat::Mp3_96
        | FileFormat::Mp3_160Enc => AudioFormat::Mp3,
        FileFormat::Mp4_128Dual | FileFormat::Mp4_128 => AudioFormat::Mp4,
        FileFormat::Aac160 | FileFormat::Aac320 => AudioFormat::Aac,
        FileFormat::Other3 | FileFormat::Other5 => AudioFormat::Unknown,
    }
}

/// File extension of each container, without the dot.
pub open spec fn extension_of(a: AudioFormat) -> Seq<char> {
    match a {
        AudioFormat::Ogg => seq!['o', 'g', 'g'],
        AudioFormat::Aac => seq!['m', '4', 'a'],
        AudioFormat::Mp3 => seq!['m', 'p', '3'],
        AudioFormat::Mp4 => seq!['m', 'p', '4'],
        AudioFormat::Unknown => Seq::empty(),
    }
}

impl AudioFormat {
    /// File extension of the container, without the dot.
    pub fn extension(&self) -> (r: String)
        ensures
            r@ == extension_of(*self),
    {
        let s: &str = match self {
            AudioFormat::Ogg => "ogg",
            AudioFormat::Aac => "m4a",
            AudioFormat::Mp3 => "mp3",
            AudioFormat::Mp4 => "mp4",
            AudioFormat::Unknown => "",
        };
        proof {
            reveal_strlit("ogg");
            reveal_strlit("m4a");
            reveal_strlit("mp3");
            reveal_strlit("mp4");
            reveal_strlit("");
        }
        String::from_str(s)
    }
}

impl From<FileFormat> for AudioFormat {
    fn from(f: FileFormat) -> (r: AudioFormat) {
        match f {
            FileFormat::OggVorbis96 => AudioFormat::Ogg,
            FileFormat::OggVorbis160 => AudioFormat::Ogg,
            FileFormat::OggVorbis320 => AudioFormat::Ogg,
            FileFormat::Mp3_256 => AudioFormat::Mp3,
            FileFormat::Mp3_320 => AudioFormat::Mp3,
            FileFormat::Mp3_160 => AudioFormat::Mp3,
            FileFormat::Mp3_96 => AudioFormat::Mp3,
            FileFormat::Mp3_160Enc => AudioFormat::Mp3,
            FileFormat::Mp4_128Dual => AudioFormat::Mp4,
            FileFormat::Other3 => AudioFormat::Unknown,
            FileFormat::Aac160 => AudioFormat::Aac,
            FileFormat::Aac320 => AudioFormat::Aac,
            FileFormat::Mp4_128 => AudioFormat::Mp4,
            FileFormat::Other5 => AudioFormat::Unknown,
        }
    }
}

impl vstd::std_specs::convert::FromSpecImpl<FileFormat> for AudioFormat {
    open spec fn obeys_from_spec() -> bool {
        true
    }

    open spec fn from_spec(f: FileFormat) -> AudioFormat {
        audio_format_of(f)
    }
}

/// Accepted encoded variants of each tier, in order of preference.
pub open spec fn tier_formats(q: Quality) -> Seq<FileFormat> {
    match q {
        Quality::Q320 => seq![FileFormat::OggVorbis320, FileFormat::Aac320, FileFormat::Mp3_320],
        Quality::Q256 => seq![FileFormat::Mp3_256],
        Quality::Q160 => seq![FileFormat::OggVorbis160, FileFormat::Aac160, FileFormat::Mp3_160],
        Quality::Q96 => seq![FileFormat::OggVorbis96, FileFormat::Mp3_96],
    }
}

/// The next lower tier, if any.
pub open spec fn tier_below(q: Quality) -> Option<Quality> {
    match q {
        Quality::Q320 => Some(Quality::Q256),
        Quality::Q256 => Some(Quality::Q160),
        Quality::Q160 => Some(Quality::Q96),
        Quality::Q96 => None,
    }
}

/// How many tiers lie below `q`.
pub open spec fn tier_rank(q: Quality) -> nat {
    match q {
        Quality::Q320 => 3,
        Quality::Q256 => 2,
        Quality::Q160 => 1,
        Quality::Q96 => 0,
    }
}

/// Text shown for each tier.
pub open spec fn quality_label(q: Quality) -> Seq<char> {
    match q {
        Quality::Q320 => seq!['3', '2', '0', 'k', 'b', 'p', 's'],
        Quality::Q256 => seq!['2', '5', '6', 'k', 'b', 'p', 's'],
        Quality::Q160 => seq!['1', '6', '0', 'k', 'b', 'p', 's'],
        Quality::Q96 => seq!['9', '6', 'k', 'b', 'p', 's'],
    }
}

/// The first of `wanted` that `offered` holds.
pub open spec fn first_offered(wanted: Seq<FileFormat>, offered: Seq<FileFormat>) -> Option<FileFormat>
    decreases wanted.len(),
{
    if wanted.len() == 0 {
        None
    } else if offered.contains(wanted[0]) {
        Some(wanted[0])
    } else {
        first_offered(wanted.drop_first(), offered)
    }
}

/// The ladder search: from tier `q` downwards, the first tier that offers one of its
/// formats, with the first such format in that tier's order of preference.
pub open spec fn ladder_match(q: Quality, offered: Seq<FileFormat>) -> Option<(Quality, FileFormat)>
    decreases tier_rank(q),
{
    match first_offered(tier_formats(q), offered) {
        Some(f) => Some((q, f)),
        None => match tier_below(q) {
            Some(lower) => ladder_match(lower, offered),
            None => None,
        },
    }
}

impl Quality {
    /// Accepted encoded variants of this tier, in order of preference.
    pub fn get_file_formats(&self) -> (r: Vec<FileFormat>)
        ensures
            r@ == tier_formats(*self),
    {
        match self {
            Quality::Q320 => vec![FileFormat::OggVorbis320, FileFormat::Aac320, FileFormat::Mp3_320],
            Quality::Q256 => vec![FileFormat::Mp3_256],
            Quality::Q160 => vec![FileFormat::OggVorbis160, FileFormat::Aac160, FileFormat::Mp3_160],
            Quality::Q96 => vec![FileFormat::OggVorbis96, FileFormat::Mp3_96],
        }
    }

    /// Falls back to the next lower tier; none below the lowest.
    pub fn fallback(&self) -> (r: Option<Quality>)
        ensures
            r == tier_below(*self),
    {
        match self {
            Quality::Q320 => Some(Quality::Q256),
            Quality::Q256 => Some(Quality::Q160),
            Quality::Q160 => Some(Quality::Q96),
            Quality::Q96 => None,
        }
    }

    /// Text shown for the tier, such as `320kbps`.
    pub fn to_string(&self) -> (r: String)
        ensures
            r@ == quality_label(*self),
    {
        let s: &str = match self {
            Quality::Q320 => "320kbps",
            Quality::Q256 => "256kbps",
            Quality::Q160 => "160kbps",
            Quality::Q96 => "96kbps",
        };
        proof {
            reveal_strlit("320kbps");
            reveal_strlit("256kbps");
            reveal_strlit("160kbps");
            reveal_strlit("96kbps");
        }
        String::from_str(s)
    }
}

/// Whether `offered` holds `f`.
pub fn offers(offered: &Vec<FileFormat>, f: FileFormat) -> (r: bool)
    ensures
        r == offered@.contains(f),
{
    let mut i: usize = 0;
    while i < offered.len()
        invariant
            i <= offered.len(),
            forall|j: int| 0 <= j < i ==> offered@[j] != f,
        decreases offered.len() - i,
    {
        if offered[i] == f {
            return true;
        }
        i = i + 1;
    }
    false
}

/// The first of `wanted` that `offered` holds.
pub fn first_offered_format(wanted: &Vec<FileFormat>, offered: &Vec<FileFormat>) -> (r: Option<FileFormat>)
    ensures
        r == first_offered(wanted@, offered@),
{
    let mut i: usize = 0;
    assert(wanted@.subrange(0, wanted@.len() as int) =~= wanted@);
    while i < wanted.len()
        invariant
            i <= wanted.len(),
            first_offered(wanted@, offered@) == first_offered(wanted@.subrange(i as int, wanted@.len() as int), offered@),
        decreases wanted.len() - i,
    {
        let rest = Ghost(wanted@.subrange(i as int, wanted@.len() as int));
        assert(rest@.drop_first() =~= wanted@.subrange(i + 1, wanted@.len() as int));
        if offers(offered, wanted[i]) {
            return Some(wanted[i]);
        }
        i = i + 1;
    }
    None
}

/// Quality ladder: starting at `quality`, tries each tier's formats in order against what
/// the track offers and falls back one tier at a time. Gives the tier and format used, or
/// `None` when no tier yields a hit.
pub fn best_match(quality: Quality, offered: &Vec<FileFormat>) -> (r: Option<(Quality, FileFormat)>)
    ensures
        r == ladder_match(quality, offered@),
{
    let mut q = quality;
    loop
        invariant
            ladder_match(quality, offered@) == ladder_match(q, offered@),
        decreases tier_rank(q),
    {
        let formats = q.get_file_formats();
        match first_offered_format(&formats, offered) {
            Some(f) => {
                return Some((q, f));
            },
            None => {},
        }
        match q.fallback() {
            Some(lower) => {
                q = lower;
            },
            None => {
                return None;
            },
        }
    }
}

} // verus!
