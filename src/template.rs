use vstd::prelude::*;

verus! {

/// The digit character of `d`.
pub open spec fn digit_char(d: nat) -> char {
    if d == 0 { '0' }
    else if d == 1 { '1' }
    else if d == 2 { '2' }
    else if d == 3 { '3' }
    else if d == 4 { '4' }
    else if d == 5 { '5' }
    else if d == 6 { '6' }
    else if d == 7 { '7' }
    else if d == 8 { '8' }
    else { '9' }
}

/// Decimal text of `n`, without leading zeros.
pub open spec fn decimal(n: nat) -> Seq<char>
    decreases n,
{
    if n < 10 {
        seq![digit_char(n)]
    } else {
        decimal(n / 10).push(digit_char(n % 10))
    }
}

/// Decimal text of `n`, padded with a zero to at least two digits.
pub open spec fn decimal2(n: nat) -> Seq<char> {
    if n < 10 {
        seq!['0'] + decimal(n)
    } else {
        decimal(n)
    }
}

/// `s` with every non-overlapping occurrence of `p`, taken from the left, replaced by `w`.
/// An empty `p` occurs nowhere.
pub open spec fn replaced(s: Seq<char>, p: Seq<char>, w: Seq<char>) -> Seq<char>
    decreases s.len(),
{
    if p.len() == 0 || s.len() < p.len() {
        s
    } else if s.subrange(0, p.len() as int) == p {
        w + replaced(s.subrange(p.len() as int, s.len() as int), p, w)
    } else {
        seq![s[0]] + replaced(s.drop_first(), p, w)
    }
}

/// The names joined with `sep` between them.
pub open spec fn joined(names: Seq<Seq<char>>, sep: Seq<char>) -> Seq<char>
    decreases names.len(),
{
    if names.len() == 0 {
        Seq::empty()
    } else if names.len() == 1 {
        names[0]
    } else {
        joined(names.drop_last(), sep) + sep + names.last()
    }
}

/// Text of one digit.
fn digit_str(d: u64) -> (r: &'static str)
    requires
        d < 10,
    ensures
        r@ == seq![digit_char(d as nat)],
{
    proof {
        reveal_strlit("0");
        reveal_strlit("1");
        reveal_strlit("2");
        reveal_strlit("3");
        reveal_strlit("4");
        reveal_strlit("5");
        reveal_strlit("6");
        reveal_strlit("7");
        reveal_strlit("8");
        reveal_strlit("9");
    }
    if d == 0 { "0" }
    else if d == 1 { "1" }
    else if d == 2 { "2" }
    else if d == 3 { "3" }
    else if d == 4 { "4" }
    else if d == 5 { "5" }
    else if d == 6 { "6" }
    else if d == 7 { "7" }
    else if d == 8 { "8" }
    else { "9" }
}

/// Decimal text of `n`.
pub fn decimal_string(n: u64) -> (r: String)
    ensures
        r@ == decimal(n as nat),
    decreases n,
{
    if n < 10 {
        String::from_str(digit_str(n))
    } else {
        let mut s = decimal_string(n / 10);
        s.append(digit_str(n % 10));
        s
    }
}

/// Decimal text of `n`, zero-padded to two digits.
pub fn decimal_string2(n: u64) -> (r: String)
    ensures
        r@ == decimal2(n as nat),
{
    if n < 10 {
        let mut s = String::from_str("0");
        proof {
            reveal_strlit("0");
        }
        s.append(digit_str(n));
        s
    } else {
        decimal_string(n)
    }
}

/// Whether `p` occurs in `s` at index `i`.
fn occurs_at(s: &str, p: &str, i: usize) -> (r: bool)
    requires
        i + p@.len() <= s@.len(),
        s@.len() <= usize::MAX,
    ensures
        r == (s@.subrange(i as int, i + p@.len()) == p@),
{
    let n = p.unicode_len();
    let mut j: usize = 0;
    while j < n
        invariant
            n == p@.len(),
            j <= n,
            i + n <= s@.len(),
            s@.len() <= usize::MAX,
            forall|k: int| 0 <= k < j ==> s@[i + k] == p@[k],
        decreases n - j,
    {
        if s.get_char(i + j) != p.get_char(j) {
            assert(s@.subrange(i as int, i + p@.len())[j as int] != p@[j as int]);
            return false;
        }
        j = j + 1;
    }
    assert(s@.subrange(i as int, i + p@.len()) =~= p@);
    true
}

/// `s` with every non-overlapping occurrence of `p`, from the left, replaced by `w`; an
/// empty `p` occurs nowhere.
pub fn replace_all(s: &str, p: &str, w: &str) -> (r: String)
    ensures
        r@ == replaced(s@, p@, w@),
{
    let n = s.unicode_len();
    let m = p.unicode_len();
    if m == 0 {
        return String::from_str(s);
    }
    let mut out = String::new();
    let mut i: usize = 0;
    assert(s@.subrange(0, n as int) =~= s@);
    while i < n
        invariant
            n == s@.len(),
            m == p@.len(),
            m > 0,
            i <= n,
            out@ + replaced(s@.subrange(i as int, n as int), p@, w@) == replaced(s@, p@, w@),
        decreases n - i,
    {
        let ghost rest = s@.subrange(i as int, n as int);
        if m <= n - i && occurs_at(s, p, i) {
            assert(rest.subrange(0, m as int) =~= s@.subrange(i as int, i + m));
            assert(rest.subrange(m as int, rest.len() as int) =~= s@.subrange(i + m, n as int));
            out.append(w);
            assert(out@ + replaced(s@.subrange(i + m, n as int), p@, w@) =~= replaced(s@, p@, w@));
            i = i + m;
        } else {
            if m <= n - i {
                assert(rest.subrange(0, m as int) =~= s@.subrange(i as int, i + m));
            }
            assert(rest.drop_first() =~= s@.subrange(i + 1, n as int));
            let c = s.substring_char(i, i + 1);
            assert(c@ =~= seq![rest[0]]);
            out.append(c);
            assert(out@ + replaced(s@.subrange(i + 1, n as int), p@, w@) =~= replaced(s@, p@, w@));
            i = i + 1;
        }
    }
    assert(s@.subrange(n as int, n as int) =~= Seq::<char>::empty());
    assert(out@ + replaced(Seq::<char>::empty(), p@, w@) =~= out@);
    out
}

/// The names joined with `sep` between them.
pub fn join_names(names: &Vec<String>, sep: &str) -> (r: String)
    ensures
        r@ == joined(names@.map_values(|x: String| x@), sep@),
{
    let ghost v = names@.map_values(|x: String| x@);
    let mut out = String::new();
    let mut i: usize = 0;
    while i < names.len()
        invariant
            i <= names.len(),
            v == names@.map_values(|x: String| x@),
            out@ == joined(v.subrange(0, i as int), sep@),
        decreases names.len() - i,
    {
        let ghost pre = v.subrange(0, i as int);
        assert(v.subrange(0, i + 1).drop_last() =~= pre);
        if i > 0 {
            out.append(sep);
        } else {
            assert(out@ + names[0]@ =~= names[0]@);
        }
        out.append(names[i].as_str());
        i = i + 1;
    }
    assert(v.subrange(0, names@.len() as int) =~= v);
    out
}

/// Characters that never survive in a sanitized file name, whatever the platform.
pub open spec fn is_unsafe_filename_char(c: char) -> bool {
    ||| c == '/' || c == '?' || c == '<' || c == '>' || c == '\\'
    ||| c == ':' || c == '*' || c == '|' || c == '"'
    ||| (c as u32) <= 0x1f
    ||| 0x80 <= (c as u32) <= 0x9f
}

/// Whether a text holds no unsafe file-name character.
pub open spec fn is_clean_name(s: Seq<char>) -> bool {
    forall|i: int| 0 <= i < s.len() ==> !is_unsafe_filename_char(#[trigger] s[i])
}

/// Relies on `sanitize_filename::sanitize`: it deletes the characters that
/// `is_unsafe_filename_char` names, then empties a name made of dots only (and on Windows
/// a reserved device name), and cuts the result to 255 bytes; nothing is ever added.
#[verifier::external_body]
fn sanitize(s: &str) -> (r: String)
    ensures
        is_clean_name(r@),
        r@.len() <= s@.len(),
{
    sanitize_filename::sanitize(s)
}

/// What the catalog says of a track that names its output file.
#[derive(Debug, Clone)]
pub struct TrackInfo {
    pub name: String,
    pub artists: Vec<String>,
    pub album: String,
    pub album_artists: Vec<String>,
    pub track_number: u32,
    pub disc_number: u32,
}

/// The views of a list of names.
pub open spec fn names_view(v: Seq<String>) -> Seq<Seq<char>> {
    v.map_values(|x: String| x@)
}

/// The first name, or nothing.
pub open spec fn first_name(names: Seq<Seq<char>>) -> Seq<char> {
    if names.len() > 0 {
        names[0]
    } else {
        Seq::empty()
    }
}

/// The views of placeholder/value pairs.
pub open spec fn pairs_view(v: Seq<(String, String)>) -> Seq<(Seq<char>, Seq<char>)> {
    v.map_values(|p: (String, String)| (p.0@, p.1@))
}

/// The placeholders of the path templates, in the order they are filled.
pub open spec fn placeholder_names() -> Seq<Seq<char>> {
    seq![
        "%title%"@, "%artist%"@, "%artists%"@, "%track%"@, "%0track%"@, "%disc%"@,
        "%0disc%"@, "%id%"@, "%album%"@, "%albumArtist%"@, "%albumArtists%"@,
    ]
}

/// A template with each placeholder replaced, in order, by its value.
pub open spec fn filled(t: Seq<char>, tags: Seq<(Seq<char>, Seq<char>)>) -> Seq<char>
    decreases tags.len(),
{
    if tags.len() == 0 {
        t
    } else {
        replaced(filled(t, tags.drop_last()), tags.last().0, tags.last().1)
    }
}

/// What a name text becomes in a path: sanitized, so clean and no longer than it was.
pub open spec fn is_sanitized_from(r: Seq<char>, s: Seq<char>) -> bool {
    is_clean_name(r) && r.len() <= s.len()
}

fn pair(k: &str, v: String) -> (r: (String, String))
    ensures
        r.0@ == k@,
        r.1 == v,
{
    (String::from_str(k), v)
}

/// The placeholder values of a track: title, first artist, all artists, track and disc
/// numbers (plain and zero-padded), the track id, album, first album artist and all
/// album artists. Names are sanitized; numbers and the id are exact.
pub fn path_tags(info: &TrackInfo, track_id: &str) -> (r: Vec<(String, String)>)
    ensures
        r@.len() == 11,
        forall|k: int| 0 <= k < 11 ==> (#[trigger] r@[k]).0@ == placeholder_names()[k],
        is_sanitized_from(r@[0].1@, info.name@),
        is_sanitized_from(r@[1].1@, first_name(names_view(info.artists@))),
        is_sanitized_from(r@[2].1@, joined(names_view(info.artists@), ", "@)),
        r@[3].1@ == decimal(info.track_number as nat),
        r@[4].1@ == decimal2(info.track_number as nat),
        r@[5].1@ == decimal(info.disc_number as nat),
        r@[6].1@ == decimal2(info.disc_number as nat),
        r@[7].1@ == track_id@,
        is_sanitized_from(r@[8].1@, info.album@),
        is_sanitized_from(r@[9].1@, first_name(names_view(info.album_artists@))),
        is_sanitized_from(r@[10].1@, joined(names_view(info.album_artists@), ", "@)),
{
    let artist: &str = if info.artists.len() > 0 { info.artists[0].as_str() } else { "" };
    let album_artist: &str = if info.album_artists.len() > 0 { info.album_artists[0].as_str() } else { "" };
    proof {
        reveal_strlit("");
    }
    let artists = join_names(&info.artists, ", ");
    let album_artists = join_names(&info.album_artists, ", ");
    let mut r: Vec<(String, String)> = Vec::new();
    r.push(pair("%title%", sanitize(info.name.as_str())));
    r.push(pair("%artist%", sanitize(artist)));
    r.push(pair("%artists%", sanitize(artists.as_str())));
    r.push(pair("%track%", decimal_string(info.track_number as u64)));
    r.push(pair("%0track%", decimal_string2(info.track_number as u64)));
    r.push(pair("%disc%", decimal_string(info.disc_number as u64)));
    r.push(pair("%0disc%", decimal_string2(info.disc_number as u64)));
    r.push(pair("%id%", String::from_str(track_id)));
    r.push(pair("%album%", sanitize(info.album.as_str())));
    r.push(pair("%albumArtist%", sanitize(album_artist)));
    r.push(pair("%albumArtists%", sanitize(album_artists.as_str())));
    r
}

/// The template with each placeholder replaced, in order, by its value.
pub fn fill_template(template: &str, tags: &Vec<(String, String)>) -> (r: String)
    ensures
        r@ == filled(template@, pairs_view(tags@)),
{
    let ghost tv = pairs_view(tags@);
    let mut out = String::from_str(template);
    let mut i: usize = 0;
    assert(tv.subrange(0, 0) =~= Seq::<(Seq<char>, Seq<char>)>::empty());
    while i < tags.len()
        invariant
            i <= tags.len(),
            tv == pairs_view(tags@),
            out@ == filled(template@, tv.subrange(0, i as int)),
        decreases tags.len() - i,
    {
        assert(tv.subrange(0, i + 1).drop_last() =~= tv.subrange(0, i as int));
        let next = replace_all(out.as_str(), tags[i].0.as_str(), tags[i].1.as_str());
        out = next;
        i = i + 1;
    }
    assert(tv.subrange(0, tags@.len() as int) =~= tv);
    out
}

/// The path of the output file without its extension: the directory template and the
/// file-name template, both filled, joined by a slash.
pub open spec fn stem_of(path: Seq<char>, name: Seq<char>, tags: Seq<(Seq<char>, Seq<char>)>) -> Seq<char> {
    filled(path, tags) + seq!['/'] + filled(name, tags)
}

/// The output path without its extension.
pub fn path_stem(path: &str, filename_template: &str, tags: &Vec<(String, String)>) -> (r: String)
    ensures
        r@ == stem_of(path@, filename_template@, pairs_view(tags@)),
{
    let mut r = fill_template(path, tags);
    r.append("/");
    let name = fill_template(filename_template, tags);
    r.append(name.as_str());
    proof {
        reveal_strlit("/");
    }
    r
}

/// Everything before the last slash; empty when there is none.
pub open spec fn parent_of(s: Seq<char>) -> Seq<char>
    decreases s.len(),
{
    if s.len() == 0 {
        s
    } else if s.last() == '/' {
        s.drop_last()
    } else {
        parent_of(s.drop_last())
    }
}

/// The directory that holds a path: everything before its last slash.
pub fn parent_dir(s: &str) -> (r: String)
    ensures
        r@ == parent_of(s@),
{
    let n = s.unicode_len();
    let mut i: usize = n;
    assert(s@.subrange(0, n as int) =~= s@);
    while i > 0
        invariant
            n == s@.len(),
            i <= n,
            parent_of(s@) == parent_of(s@.subrange(0, i as int)),
        decreases i,
    {
        assert(s@.subrange(0, i as int).drop_last() =~= s@.subrange(0, i - 1));
        if s.get_char(i - 1) == '/' {
            return String::from_str(s.substring_char(0, i - 1));
        }
        i = i - 1;
    }
    String::new()
}

/// `stem` followed by a dot and `ext`.
pub fn with_extension(stem: &str, ext: &str) -> (r: String)
    ensures
        r@ == stem@ + seq!['.'] + ext@,
{
    let mut r = String::from_str(stem);
    r.append(".");
    r.append(ext);
    proof {
        reveal_strlit(".");
    }
    r
}

} // verus!
