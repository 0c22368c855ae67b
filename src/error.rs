use vstd::prelude::*;

verus! {

/// Why a request or a job failed.
#[derive(Debug, Clone, PartialEq, Eq)]
pub enum SpotifyError {
    /// The input is not a link or URI that names something.
    InvalidUri,
    /// No playable variant or alternative was found.
    Unavailable,
    /// The output file exists already; not a failure.
    AlreadyDownloaded,
    /// The remote service or the transport failed.
    Network(String),
    /// The file system failed.
    Io(String),
    /// Anything else.
    Error(String),
}

/// The text of an error, as a job's `Error` state shows it.
pub open spec fn error_text(e: SpotifyError) -> Seq<char> {
    match e {
        SpotifyError::InvalidUri => "Invalid URI"@,
        SpotifyError::Unavailable => "Unavailable"@,
        SpotifyError::AlreadyDownloaded => "Already downloaded"@,
        SpotifyError::Network(m) => "Network error: "@ + m@,
        SpotifyError::Io(m) => "IO error: "@ + m@,
        SpotifyError::Error(m) => m@,
    }
}

impl SpotifyError {
    /// The text of the error.
    pub fn message(&self) -> (r: String)
        ensures
            r@ == error_text(*self),
    {
        match self {
            SpotifyError::InvalidUri => String::from_str("Invalid URI"),
            SpotifyError::Unavailable => String::from_str("Unavailable"),
            SpotifyError::AlreadyDownloaded => String::from_str("Already downloaded"),
            SpotifyError::Network(m) => {
                let mut s = String::from_str("Network error: ");
                s.append(m.as_str());
                s
            },
            SpotifyError::Io(m) => {
                let mut s = String::from_str("IO error: ");
                s.append(m.as_str());
                s
            },
            SpotifyError::Error(m) => m.clone(),
        }
    }

    /// An equal copy of the error.
    pub fn duplicate(&self) -> (r: SpotifyError)
        ensures
            r == *self,
    {
        match self {
            SpotifyError::InvalidUri => SpotifyError::InvalidUri,
            SpotifyError::Unavailable => SpotifyError::Unavailable,
            SpotifyError::AlreadyDownloaded => SpotifyError::AlreadyDownloaded,
            SpotifyError::Network(m) => SpotifyError::Network(m.clone()),
            SpotifyError::Io(m) => SpotifyError::Io(m.clone()),
            SpotifyError::Error(m) => SpotifyError::Error(m.clone()),
        }
    }
}

} // verus!
