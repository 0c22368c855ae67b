use vstd::prelude::*;

use crate::queue::{Download, DownloadState};

verus! {

/// A track found by a search.
#[derive(Debug, Clone)]
pub struct SearchResult {
    pub track_id: String,
    pub author: String,
    pub title: String,
}

/// The queue entry made for a catalog track: its id, name and first artist, waiting.
/// A local track cannot be downloaded: it gets an entry that is already in error.
pub fn download_from_track(is_local: bool, track_id: String, name: String, first_artist: Option<String>) -> (r: Download)
    ensures
        r.id == 0,
        !is_local ==> {
            &&& r.track_id == track_id
            &&& r.title == name
            &&& r.subtitle@ == match first_artist {
                Some(a) => a@,
                None => Seq::<char>::empty(),
            }
            &&& r.state is Waiting
        },
        is_local ==> {
            &&& r.track_id@ == "This should not be a valid ID"@
            &&& r.title@ == "Local Track: "@ + name@
            &&& r.subtitle@ == "Invalid Track"@
            &&& r.state matches DownloadState::Error(e) && e@ == "Cannot Download Local Track"@
        },
{
    if !is_local {
        let subtitle = match first_artist {
            Some(a) => a,
            None => String::new(),
        };
        Download { id: 0, track_id, title: name, subtitle, state: DownloadState::Waiting }
    } else {
        let mut title = String::from_str("Local Track: ");
        title.append(name.as_str());
        Download {
            id: 0,
            track_id: String::from_str("This should not be a valid ID"),
            title,
            subtitle: String::from_str("Invalid Track"),
            state: DownloadState::Error(String::from_str("Cannot Download Local Track")),
        }
    }
}

} // verus!
