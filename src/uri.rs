use vstd::prelude::*;

use crate::error::SpotifyError;

verus! {

/// What `url::Url::parse` makes of a text, as read through `Url::host_str` and
/// `Url::path_segments`: `None` when the text does not parse; else the host, if any, and
/// the path split at slashes after its leading slash, if the path has one.
pub uninterp spec fn parsed_link(s: Seq<char>) -> Option<(Option<Seq<char>>, Option<Seq<Seq<char>>>)>;

/// The view of an optional text.
pub open spec fn opt_text(h: Option<String>) -> Option<Seq<char>> {
    match h {
        Some(x) => Some(x@),
        None => None,
    }
}

/// The view of an optional list of texts.
pub open spec fn opt_texts(p: Option<Vec<String>>) -> Option<Seq<Seq<char>>> {
    match p {
        Some(v) => Some(v@.map_values(|x: String| x@)),
        None => None,
    }
}

/// The view of the parts of a link.
pub open spec fn link_view(parts: Option<(Option<String>, Option<Vec<String>>)>) -> Option<(Option<Seq<char>>, Option<Seq<Seq<char>>>)> {
    match parts {
        Some((h, p)) => Some((opt_text(h), opt_texts(p))),
        None => None,
    }
}

/// Relies on `url::Url::parse`, and on `Url::host_str` and `Url::path_segments` of its
/// result: the host and the path segments of a link, or `None` when it does not parse.
#[verifier::external_body]
fn link_parts(s: &str) -> (r: Option<(Option<String>, Option<Vec<String>>)>)
    ensures
        link_view(r) == parsed_link(s@),
{
    match url::Url::parse(s) {
        Ok(u) => Some((
            u.host_str().map(|h| h.to_string()),
            u.path_segments().map(|p| p.map(|x| x.to_string()).collect()),
        )),
        Err(_) => None,
    }
}

/// The text split at each colon.
pub open spec fn colon_fields(s: Seq<char>) -> Seq<Seq<char>>
    decreases s.len(),
{
    if s.len() == 0 {
        seq![Seq::empty()]
    } else {
        let r = colon_fields(s.drop_last());
        if s.last() == ':' {
            r.push(Seq::empty())
        } else {
            r.update(r.len() - 1, r.last().push(s.last()))
        }
    }
}

proof fn lemma_colon_fields_nonempty(s: Seq<char>)
    ensures
        colon_fields(s).len() >= 1,
    decreases s.len(),
{
    if s.len() > 0 {
        lemma_colon_fields_nonempty(s.drop_last());
    }
}

/// The text split at each colon.
pub fn split_colons(s: &str) -> (r: Vec<String>)
    ensures
        r@.map_values(|x: String| x@) == colon_fields(s@),
{
    let n = s.unicode_len();
    let mut out: Vec<String> = Vec::new();
    let mut start: usize = 0;
    let mut i: usize = 0;
    assert(s@.subrange(0, 0) =~= Seq::<char>::empty());
    assert(colon_fields(Seq::<char>::empty()) =~= seq![Seq::<char>::empty()]);
    while i < n
        invariant
            n == s@.len(),
            start <= i <= n,
            out@.map_values(|x: String| x@).push(s@.subrange(start as int, i as int)) == colon_fields(s@.subrange(0, i as int)),
        decreases n - i,
    {
        proof {
            assert(s@.subrange(0, i + 1).drop_last() =~= s@.subrange(0, i as int));
            assert(s@.subrange(0, i + 1).last() == s@[i as int]);
            lemma_colon_fields_nonempty(s@.subrange(0, i as int));
        }
        let c = s.get_char(i);
        if c == ':' {
            let piece = String::from_str(s.substring_char(start, i));
            let ghost before = out@.map_values(|x: String| x@);
            out.push(piece);
            assert(out@.map_values(|x: String| x@) =~= before.push(s@.subrange(start as int, i as int)));
            assert(s@.subrange(i + 1, i + 1) =~= Seq::<char>::empty());
            start = i + 1;
        } else {
            assert(s@.subrange(start as int, i + 1) =~= s@.subrange(start as int, i as int).push(c));
            let ghost v = out@.map_values(|x: String| x@);
            assert(v.push(s@.subrange(start as int, i + 1)) =~= v.push(s@.subrange(start as int, i as int)).update(
                v.len() as int,
                s@.subrange(start as int, i as int).push(c),
            ));
        }
        i = i + 1;
    }
    assert(s@.subrange(0, n as int) =~= s@);
    let piece = String::from_str(s.substring_char(start, n));
    out.push(piece);
    assert(out@.map_values(|x: String| x@) =~= colon_fields(s@));
    out
}

/// The prefix of every URI.
pub open spec fn uri_scheme() -> Seq<char> {
    seq!['s', 'p', 'o', 't', 'i', 'f', 'y', ':']
}

/// The host of web-player links.
pub open spec fn web_player_host() -> Seq<char> {
    "open.spotify.com"@
}

/// Whether `s` starts with `p`.
pub open spec fn has_prefix(s: Seq<char>, p: Seq<char>) -> bool {
    p.len() <= s.len() && s.subrange(0, p.len() as int) == p
}

/// Whether `s` begins with the URI scheme.
pub fn starts_with_scheme(s: &str) -> (r: bool)
    ensures
        r == has_prefix(s@, uri_scheme()),
{
    let p = "spotify:";
    proof {
        reveal_strlit("spotify:");
    }
    let n = s.unicode_len();
    if n < 8 {
        return false;
    }
    let mut i: usize = 0;
    while i < 8
        invariant
            8 <= n == s@.len(),
            p@ == uri_scheme(),
            i <= 8,
            forall|k: int| 0 <= k < i ==> s@[k] == uri_scheme()[k],
        decreases 8 - i,
    {
        if s.get_char(i) != p.get_char(i) {
            assert(s@.subrange(0, 8)[i as int] != uri_scheme()[i as int]);
            return false;
        }
        i = i + 1;
    }
    assert(s@.subrange(0, 8) =~= uri_scheme());
    true
}

/// What `parse_uri` makes of a link that is no URI, from the parts the link parser gave.
pub open spec fn uri_from_link_spec(parts: Option<(Option<Seq<char>>, Option<Seq<Seq<char>>>)>) -> Result<Seq<char>, SpotifyError> {
    match parts {
        None => Err(SpotifyError::InvalidUri),
        Some((host, path)) => if host == Some(web_player_host()) {
            match path {
                None => Err(SpotifyError::Error(arbitrary())),
                Some(segments) => if segments.len() < 2 {
                    Err(SpotifyError::InvalidUri)
                } else {
                    Ok(uri_scheme() + segments[0] + seq![':'] + segments[1])
                },
            }
        } else {
            Err(SpotifyError::InvalidUri)
        },
    }
}

/// Whether a result matches `uri_from_link_spec`: the same success text, or the same
/// error (for the missing-path error, any `Error`).
pub open spec fn uri_result_matches(r: Result<String, SpotifyError>, want: Result<Seq<char>, SpotifyError>) -> bool {
    match want {
        Ok(t) => r matches Ok(x) && x@ == t,
        Err(SpotifyError::Error(_)) => r matches Err(SpotifyError::Error(_)),
        Err(e) => r == Err::<String, SpotifyError>(e),
    }
}

/// Turns the parts of a web-player link into a URI: `spotify:<kind>:<id>` from its first
/// two path segments. Other hosts, unparsed links and short paths are invalid.
pub fn uri_from_link(parts: Option<(Option<String>, Option<Vec<String>>)>) -> (r: Result<String, SpotifyError>)
    ensures
        uri_result_matches(r, uri_from_link_spec(link_view(parts))),
{
    match parts {
        None => Err(SpotifyError::InvalidUri),
        Some((host, path)) => {
            let is_player = match &host {
                Some(h) => {
                    let want = String::from_str("open.spotify.com");
                    *h == want
                },
                None => false,
            };
            if !is_player {
                return Err(SpotifyError::InvalidUri);
            }
            match path {
                None => Err(SpotifyError::Error(String::from_str("Missing URL path"))),
                Some(segments) => {
                    if segments.len() < 2 {
                        Err(SpotifyError::InvalidUri)
                    } else {
                        let mut s = String::from_str("spotify:");
                        proof {
                            reveal_strlit("spotify:");
                            reveal_strlit(":");
                        }
                        let ghost v = segments@.map_values(|x: String| x@);
                        assert(v[0] == segments@[0]@ && v[1] == segments@[1]@);
                        s.append(segments[0].as_str());
                        s.append(":");
                        s.append(segments[1].as_str());
                        assert(":"@ =~= seq![':']);
                        assert("spotify:"@ =~= uri_scheme());
                        assert(s@ =~= uri_scheme() + v[0] + seq![':'] + v[1]);
                        Ok(s)
                    }
                },
            }
        },
    }
}

/// What `parse_uri` gives for a text.
pub open spec fn parse_uri_spec(s: Seq<char>) -> Result<Seq<char>, SpotifyError> {
    if has_prefix(s, uri_scheme()) {
        if colon_fields(s).len() < 3 {
            Err(SpotifyError::InvalidUri)
        } else {
            Ok(s)
        }
    } else {
        uri_from_link_spec(parsed_link(s))
    }
}

/// Parses a URI or a web-player link into a URI. A text that starts with `spotify:` is a
/// URI when it has at least three colon-separated fields, and is kept as it is; any other
/// text must be a link on the web player's host whose path names a kind and an id.
pub fn parse_uri(uri: &str) -> (r: Result<String, SpotifyError>)
    ensures
        uri_result_matches(r, parse_uri_spec(uri@)),
{
    if starts_with_scheme(uri) {
        let fields = split_colons(uri);
        if fields.len() < 3 {
            Err(SpotifyError::InvalidUri)
        } else {
            Ok(String::from_str(uri))
        }
    } else {
        uri_from_link(link_parts(uri))
    }
}

/// What a URI names: the second field is the kind, the third the id.
pub open spec fn uri_target(s: Seq<char>) -> Option<(Seq<char>, Seq<char>)> {
    let f = colon_fields(s);
    if f.len() < 3 {
        None
    } else {
        Some((f[1], f[2]))
    }
}

/// The kind and the id a URI names; `None` when it has fewer than three fields.
pub fn uri_target_of(uri: &str) -> (r: Option<(String, String)>)
    ensures
        match uri_target(uri@) {
            None => r is None,
            Some((k, i)) => r matches Some((kind, id)) && kind@ == k && id@ == i,
        },
{
    let fields = split_colons(uri);
    if fields.len() < 3 {
        None
    } else {
        let ghost v = fields@.map_values(|x: String| x@);
        assert(v[1] == fields@[1]@ && v[2] == fields@[2]@);
        Some((fields[1].clone(), fields[2].clone()))
    }
}

} // verus!
