use vstd::prelude::*;

use crate::config::DownloaderConfig;
use crate::error::{error_text, SpotifyError};
use crate::quality::{
    audio_format_of, best_match, extension_of, ladder_match, AudioFormat, FileFormat,
};
use crate::queue::{DownloadJob, DownloadState};
use crate::template::{
    decimal, decimal2, first_name, is_sanitized_from, joined, names_view, pairs_view, parent_dir,
    parent_of, path_stem, path_tags, placeholder_names, stem_of, with_extension, TrackInfo,
};

verus! {

/// Bytes at the head of an encrypted stream that carry no audio.
pub const HEADER_LEN: usize = 0xa7;

/// Bytes asked for by each read of the streaming loop.
pub const CHUNK_LEN: usize = 65536;

/// Requests per minute that the catalog service allows.
pub const MAX_REQUESTS_PER_MINUTE: u64 = 60;

/// Pause after a failed job, in milliseconds: the time one request may take within the
/// service's budget, times the number of jobs that may fail at once.
pub open spec fn backoff_ms(concurrency: nat) -> int {
    let d = (60000int / MAX_REQUESTS_PER_MINUTE as int) * concurrency;
    if d > u64::MAX {
        u64::MAX as int
    } else {
        d
    }
}

/// Pause after a failed job, in milliseconds (saturating).
pub fn backoff_delay_ms(concurrency: usize) -> (r: u64)
    ensures
        r == backoff_ms(concurrency as nat),
{
    let per_request: u64 = 60000 / MAX_REQUESTS_PER_MINUTE;
    let n = concurrency as u64;
    if n > u64::MAX / per_request {
        u64::MAX
    } else {
        per_request * n
    }
}

/// Where a job stands: which outcome it waits for.
#[derive(Debug, Clone, Copy, PartialEq, Eq, Structural)]
pub enum JobPhase {
    Start,
    AwaitMetadata,
    AwaitDir,
    AwaitFiles,
    /// Looking at alternative `k` of `n`.
    AwaitAlternative(usize, usize),
    AwaitExisting,
    AwaitSkipReport,
    AwaitStream,
    AwaitFile,
    AwaitHeader,
    AwaitChunk,
    /// Writing the `n` bytes just read.
    AwaitWrite(usize),
    AwaitProgress,
    AwaitPost,
    AwaitTags,
    AwaitLyrics,
    AwaitDoneReport,
    AwaitRemoval,
    AwaitBackoff,
    AwaitErrorReport,
    Finished,
}

/// The outcome of the last action.
#[derive(Debug, Clone)]
pub enum JobEvent {
    /// The action completed.
    Completed,
    /// The action failed.
    Failed(SpotifyError),
    /// The catalog's data on the track.
    Metadata(TrackInfo),
    /// Whether the track (or the alternative looked at) can be played, the variants it
    /// offers, and how many alternatives it names.
    Files(bool, Vec<FileFormat>, usize),
    /// Whether the output file exists.
    Exists(bool),
    /// The encrypted stream is open; its length in bytes.
    StreamOpened(usize),
    /// Bytes read by the last read; zero at the end of the stream.
    Read(usize),
}

/// What the driver of a job does next.
#[derive(Debug)]
pub enum JobAction {
    /// Resolve the track's metadata in the catalog.
    FetchMetadata,
    /// Create the output directory, `dir()`, with its parents.
    CreateDir,
    /// Look up the playable variants of the track.
    FetchFiles,
    /// Look up alternative `k` of the track.
    FetchAlternative(usize),
    /// Tell whether a file exists at `output_path()`.
    CheckExisting,
    /// Get the key and open the encrypted stream of this variant.
    OpenStream(FileFormat),
    /// Create (or truncate) the output file.
    CreateFile,
    /// Read and drop exactly this many bytes of the decrypted stream.
    SkipHeader(usize),
    /// Read at most this many bytes of the decrypted stream.
    ReadChunk(usize),
    /// Write the first this-many bytes just read to the output file.
    WriteChunk(usize),
    /// Send this state of the job to the queue.
    Report(DownloadState),
    /// Write the tags into the output file, which holds this container.
    WriteTags(AudioFormat),
    /// Fetch the lyrics and write them next to the output file (best effort).
    FetchLyrics,
    /// Delete the output file.
    RemoveFile,
    /// Wait this many milliseconds.
    Sleep(u64),
    /// The job is over.
    Finish(Result<(), SpotifyError>),
}

/// Runs one job: its decisions, one step per outcome of the previous action. The driver
/// performs each action and hands back its outcome.
pub struct JobRunner {
    /// The job run.
    pub job: DownloadJob,
    /// The settings it runs with.
    pub config: DownloaderConfig,
    /// Which outcome it waits for.
    pub phase: JobPhase,
    /// Placeholder values, once the metadata is in.
    pub tags: Vec<(String, String)>,
    /// Output path without extension, once the metadata is in.
    pub stem: String,
    /// Output directory, once the metadata is in.
    pub dir: String,
    /// Output path, once a variant is chosen.
    pub path: String,
    /// The chosen variant.
    pub variant: FileFormat,
    /// The container of the output file.
    pub format: AudioFormat,
    /// Bytes written so far.
    pub read: usize,
    /// Length of the encrypted stream.
    pub total: usize,
    /// Why the job fails, on the failure path; `AlreadyDownloaded` when it is skipped.
    pub failure: Option<SpotifyError>,
}

/// Phases that wait on the output file, or on the stream written into it.
pub open spec fn is_streaming(p: JobPhase) -> bool {
    ||| p is AwaitFile
    ||| p is AwaitHeader
    ||| p is AwaitChunk
    ||| p is AwaitWrite
}

/// Phases of the failure path, and the end.
pub open spec fn is_failing(p: JobPhase) -> bool {
    ||| p is AwaitRemoval
    ||| p is AwaitBackoff
    ||| p is AwaitErrorReport
}

/// Whether a track id is well formed, as `rspotify`'s `TrackId::from_id` checks it: ASCII
/// letters and digits only.
pub open spec fn is_track_id(s: Seq<char>) -> bool {
    forall|i: int| 0 <= i < s.len() ==> is_base62_char(#[trigger] s[i])
}

/// ASCII letters and digits.
pub open spec fn is_base62_char(c: char) -> bool {
    ('0' <= c <= '9') || ('a' <= c <= 'z') || ('A' <= c <= 'Z')
}

/// Whether `s` is a well-formed track id.
pub fn valid_track_id(s: &str) -> (r: bool)
    ensures
        r == is_track_id(s@),
{
    let n = s.unicode_len();
    let mut i: usize = 0;
    while i < n
        invariant
            n == s@.len(),
            i <= n,
            forall|k: int| 0 <= k < i ==> is_base62_char(#[trigger] s@[k]),
        decreases n - i,
    {
        let c = s.get_char(i);
        if !(('0' <= c && c <= '9') || ('a' <= c && c <= 'z') || ('A' <= c && c <= 'Z')) {
            return false;
        }
        i = i + 1;
    }
    true
}

/// The extension of the output file: `mp3` when converting, else that of the variant's
/// container.
pub open spec fn output_extension(convert: bool, f: FileFormat) -> Seq<char> {
    if convert {
        extension_of(AudioFormat::Mp3)
    } else {
        extension_of(audio_format_of(f))
    }
}

/// The container the output file holds: the conversion target when converting.
pub open spec fn output_format(convert: bool, f: FileFormat) -> AudioFormat {
    if convert {
        AudioFormat::Mp3
    } else {
        audio_format_of(f)
    }
}

impl JobRunner {
    /// A job about to start.
    pub fn new(job: DownloadJob, config: DownloaderConfig) -> (r: JobRunner)
        ensures
            r.phase == JobPhase::Start,
            r.job == job,
            r.config == config,
            r.read == 0,
            r.failure is None,
            r.wf(),
    {
        JobRunner {
            job,
            config,
            phase: JobPhase::Start,
            tags: Vec::new(),
            stem: String::new(),
            dir: String::new(),
            path: String::new(),
            variant: FileFormat::Other3,
            format: AudioFormat::Unknown,
            read: 0,
            total: 0,
            failure: None,
        }
    }

    fn fail(&mut self, e: SpotifyError) -> (r: JobAction)
        ensures
            final(self).phase == JobPhase::AwaitBackoff,
            final(self).failure == Some(e),
            r == JobAction::Sleep(backoff_ms(old(self).config.concurrent_downloads as nat) as u64),
            final(self).job == old(self).job,
            final(self).config == old(self).config,
            final(self).tags == old(self).tags,
            final(self).stem == old(self).stem,
            final(self).dir == old(self).dir,
            final(self).path == old(self).path,
            final(self).read == old(self).read,
            final(self).total == old(self).total,
            final(self).variant == old(self).variant,
            final(self).format == old(self).format,
    {
        self.failure = Some(e);
        self.phase = JobPhase::AwaitBackoff;
        JobAction::Sleep(backoff_delay_ms(self.config.concurrent_downloads))
    }

    fn fail_streaming(&mut self, e: SpotifyError) -> (r: JobAction)
        ensures
            final(self).phase == JobPhase::AwaitRemoval,
            final(self).failure == Some(e),
            r == JobAction::RemoveFile,
            final(self).job == old(self).job,
            final(self).config == old(self).config,
            final(self).tags == old(self).tags,
            final(self).stem == old(self).stem,
            final(self).dir == old(self).dir,
            final(self).path == old(self).path,
            final(self).read == old(self).read,
            final(self).total == old(self).total,
            final(self).variant == old(self).variant,
            final(self).format == old(self).format,
    {
        self.failure = Some(e);
        self.phase = JobPhase::AwaitRemoval;
        JobAction::RemoveFile
    }

    /// Picks the variant by the quality ladder and fixes the output path; goes on to the
    /// existence check when existing files are skipped, else to the stream.
    fn choose_variant(&mut self, offered: &Vec<FileFormat>) -> (r: JobAction)
        ensures
            final(self).job == old(self).job,
            final(self).config == old(self).config,
            final(self).tags == old(self).tags,
            final(self).stem == old(self).stem,
            final(self).dir == old(self).dir,
            final(self).read == old(self).read,
            final(self).total == old(self).total,
            match ladder_match(old(self).config.quality, offered@) {
                None => final(self).phase == JobPhase::AwaitBackoff && final(self).failure
                    == Some(SpotifyError::Unavailable) && r == JobAction::Sleep(
                    backoff_ms(old(self).config.concurrent_downloads as nat) as u64,
                ),
                Some((_, f)) => {
                    &&& final(self).variant == f
                    &&& final(self).format == output_format(old(self).config.convert_to_mp3, f)
                    &&& final(self).path@ == old(self).stem@ + seq!['.'] + output_extension(
                        old(self).config.convert_to_mp3,
                        f,
                    )
                    &&& final(self).failure == old(self).failure
                    &&& if old(self).config.skip_existing {
                        final(self).phase == JobPhase::AwaitExisting && r == JobAction::CheckExisting
                    } else {
                        final(self).phase == JobPhase::AwaitStream && r == JobAction::OpenStream(f)
                    }
                },
            },
    {
        match best_match(self.config.quality, offered) {
            None => self.fail(SpotifyError::Unavailable),
            Some((_, f)) => {
                let native = AudioFormat::from(f);
                let format = if self.config.convert_to_mp3 {
                    AudioFormat::Mp3
                } else {
                    native
                };
                let ext = format.extension();
                self.path = with_extension(self.stem.as_str(), ext.as_str());
                self.variant = f;
                self.format = format;
                if self.config.skip_existing {
                    self.phase = JobPhase::AwaitExisting;
                    JobAction::CheckExisting
                } else {
                    self.phase = JobPhase::AwaitStream;
                    JobAction::OpenStream(f)
                }
            },
        }
    }

    /// On the failure path, and after a skip, the failure is known.
    pub open spec fn wf(&self) -> bool {
        if is_failing(self.phase) || self.phase is AwaitSkipReport {
            self.failure is Some
        } else if self.phase is Finished {
            true
        } else {
            self.failure is None
        }
    }

    /// Takes the outcome of the last action (anything, for the first step) and says what
    /// to do next.
    ///
    /// A failure is handled where it happens: the variant ladder and the alternatives are
    /// tried first, and only when all are exhausted does the job fail `Unavailable`. A
    /// failure while the output file is being written deletes the file first. Every
    /// failure then pauses for the back-off delay, reports `Error` with the failure's text,
    /// and ends with that failure. An output file that exists already, when existing files
    /// are skipped, ends the job as `Done` with `AlreadyDownloaded` before any stream is
    /// opened. A failure to fetch lyrics does not fail the job.
    pub fn step(&mut self, ev: JobEvent) -> (r: JobAction)
        requires
            old(self).wf(),
        ensures
            final(self).wf(),
            final(self).job == old(self).job,
            final(self).config == old(self).config,
            // A failure while the output file is written deletes the file first.
            (is_streaming(old(self).phase) && ev is Failed) ==> (final(self).phase == JobPhase::AwaitRemoval
                && r is RemoveFile),
            // A skipped download ends without opening any stream.
            (old(self).phase is AwaitExisting && ev == JobEvent::Exists(true)) ==> (r == JobAction::Report(
                DownloadState::Done,
            ) && final(self).phase == JobPhase::AwaitSkipReport),
            ({
                let o = *old(self);
                let f = *final(self);
                let b = JobAction::Sleep(backoff_ms(o.config.concurrent_downloads as nat) as u64);
                match o.phase {
                    JobPhase::Start => if is_track_id(o.job.track_id@) {
                        f.phase == JobPhase::AwaitMetadata && r == JobAction::FetchMetadata
                    } else {
                        f.phase == JobPhase::AwaitBackoff && r == b && f.failure == Some(SpotifyError::Unavailable)
                    },
                    JobPhase::AwaitMetadata => match ev {
                        JobEvent::Metadata(info) => {
                            &&& f.phase == JobPhase::AwaitDir && r == JobAction::CreateDir
                            &&& f.tags@.len() == 11
                            &&& forall|k: int| 0 <= k < 11 ==> (#[trigger] f.tags@[k]).0@ == placeholder_names()[k]
                            &&& is_sanitized_from(f.tags@[0].1@, info.name@)
                            &&& is_sanitized_from(f.tags@[1].1@, first_name(names_view(info.artists@)))
                            &&& is_sanitized_from(f.tags@[2].1@, joined(names_view(info.artists@), ", "@))
                            &&& f.tags@[3].1@ == decimal(info.track_number as nat)
                            &&& f.tags@[4].1@ == decimal2(info.track_number as nat)
                            &&& f.tags@[5].1@ == decimal(info.disc_number as nat)
                            &&& f.tags@[6].1@ == decimal2(info.disc_number as nat)
                            &&& f.tags@[7].1@ == o.job.track_id@
                            &&& is_sanitized_from(f.tags@[8].1@, info.album@)
                            &&& is_sanitized_from(f.tags@[9].1@, first_name(names_view(info.album_artists@)))
                            &&& is_sanitized_from(f.tags@[10].1@, joined(names_view(info.album_artists@), ", "@))
                            &&& f.stem@ == stem_of(o.config.path@, o.config.filename_template@, pairs_view(f.tags@))
                            &&& f.dir@ == parent_of(f.stem@)
                        },
                        JobEvent::Failed(e) => f.phase == JobPhase::AwaitBackoff && r == b && f.failure == Some(e),
                        _ => f.phase == JobPhase::AwaitBackoff && r == b && f.failure matches Some(SpotifyError::Error(_)),
                    },
                    JobPhase::AwaitDir => match ev {
                        JobEvent::Completed => f.phase == JobPhase::AwaitFiles && r == JobAction::FetchFiles,
                        JobEvent::Failed(e) => f.phase == JobPhase::AwaitBackoff && r == b && f.failure == Some(e),
                        _ => f.phase == JobPhase::AwaitBackoff && r == b && f.failure matches Some(SpotifyError::Error(_)),
                    },
                    JobPhase::AwaitFiles => match ev {
                        JobEvent::Files(available, offered, n) => if available {
                            chose_variant(o, f, offered@, r)
                        } else if n > 0 {
                            f.phase == JobPhase::AwaitAlternative(0, n) && r == JobAction::FetchAlternative(0)
                        } else {
                            f.phase == JobPhase::AwaitBackoff && r == b && f.failure == Some(SpotifyError::Unavailable)
                        },
                        JobEvent::Failed(e) => f.phase == JobPhase::AwaitBackoff && r == b && f.failure == Some(e),
                        _ => f.phase == JobPhase::AwaitBackoff && r == b && f.failure matches Some(SpotifyError::Error(_)),
                    },
                    JobPhase::AwaitAlternative(k, n) => match ev {
                        JobEvent::Files(available, offered, _) => if available {
                            chose_variant(o, f, offered@, r)
                        } else if k + 1 < n {
                            f.phase == JobPhase::AwaitAlternative((k + 1) as usize, n) && r == JobAction::FetchAlternative((k + 1) as usize)
                        } else {
                            f.phase == JobPhase::AwaitBackoff && r == b && f.failure == Some(SpotifyError::Unavailable)
                        },
                        JobEvent::Failed(e) => f.phase == JobPhase::AwaitBackoff && r == b && f.failure == Some(e),
                        _ => f.phase == JobPhase::AwaitBackoff && r == b && f.failure matches Some(SpotifyError::Error(_)),
                    },
                    JobPhase::AwaitExisting => match ev {
                        JobEvent::Exists(true) => f.phase == JobPhase::AwaitSkipReport && r == JobAction::Report(DownloadState::Done)
                            && f.failure == Some(SpotifyError::AlreadyDownloaded),
                        JobEvent::Exists(false) => f.phase == JobPhase::AwaitStream && r == JobAction::OpenStream(o.variant),
                        JobEvent::Failed(e) => f.phase == JobPhase::AwaitBackoff && r == b && f.failure == Some(e),
                        _ => f.phase == JobPhase::AwaitBackoff && r == b && f.failure matches Some(SpotifyError::Error(_)),
                    },
                    JobPhase::AwaitSkipReport => f.phase == JobPhase::Finished && r == JobAction::Finish(Err(SpotifyError::AlreadyDownloaded)),
                    JobPhase::AwaitStream => match ev {
                        JobEvent::StreamOpened(total) => f.phase == JobPhase::AwaitFile && r == JobAction::CreateFile && f.total == total
                            && f.read == 0,
                        JobEvent::Failed(e) => f.phase == JobPhase::AwaitBackoff && r == b && f.failure == Some(e),
                        _ => f.phase == JobPhase::AwaitBackoff && r == b && f.failure matches Some(SpotifyError::Error(_)),
                    },
                    JobPhase::AwaitFile => match ev {
                        JobEvent::Completed => f.phase == JobPhase::AwaitHeader && r == JobAction::SkipHeader(HEADER_LEN),
                        JobEvent::Failed(e) => f.phase == JobPhase::AwaitRemoval && r == JobAction::RemoveFile && f.failure == Some(e),
                        _ => f.phase == JobPhase::AwaitRemoval && r == JobAction::RemoveFile && f.failure matches Some(SpotifyError::Error(_)),
                    },
                    JobPhase::AwaitHeader => match ev {
                        JobEvent::Completed => f.phase == JobPhase::AwaitChunk && r == JobAction::ReadChunk(CHUNK_LEN),
                        JobEvent::Failed(e) => f.phase == JobPhase::AwaitRemoval && r == JobAction::RemoveFile && f.failure == Some(e),
                        _ => f.phase == JobPhase::AwaitRemoval && r == JobAction::RemoveFile && f.failure matches Some(SpotifyError::Error(_)),
                    },
                    JobPhase::AwaitChunk => match ev {
                        JobEvent::Read(n) => if n == 0 {
                            f.phase == JobPhase::AwaitPost && r == JobAction::Report(DownloadState::Post)
                        } else if n <= CHUNK_LEN {
                            f.phase == JobPhase::AwaitWrite(n) && r == JobAction::WriteChunk(n)
                        } else {
                            f.phase == JobPhase::AwaitRemoval && r == JobAction::RemoveFile && f.failure matches Some(SpotifyError::Error(_))
                        },
                        JobEvent::Failed(e) => f.phase == JobPhase::AwaitRemoval && r == JobAction::RemoveFile && f.failure == Some(e),
                        _ => f.phase == JobPhase::AwaitRemoval && r == JobAction::RemoveFile && f.failure matches Some(SpotifyError::Error(_)),
                    },
                    JobPhase::AwaitWrite(n) => match ev {
                        JobEvent::Completed => {
                            &&& f.phase == JobPhase::AwaitProgress
                            &&& f.read == if o.read + n <= usize::MAX { (o.read + n) as usize } else { usize::MAX }
                            &&& r == JobAction::Report(DownloadState::Downloading(f.read, o.total))
                        },
                        JobEvent::Failed(e) => f.phase == JobPhase::AwaitRemoval && r == JobAction::RemoveFile && f.failure == Some(e),
                        _ => f.phase == JobPhase::AwaitRemoval && r == JobAction::RemoveFile && f.failure matches Some(SpotifyError::Error(_)),
                    },
                    JobPhase::AwaitProgress => f.phase == JobPhase::AwaitChunk && r == JobAction::ReadChunk(CHUNK_LEN),
                    JobPhase::AwaitPost => f.phase == JobPhase::AwaitTags && r == JobAction::WriteTags(o.format),
                    JobPhase::AwaitTags => match ev {
                        JobEvent::Completed => if o.config.download_lrc {
                            f.phase == JobPhase::AwaitLyrics && r == JobAction::FetchLyrics
                        } else {
                            f.phase == JobPhase::AwaitDoneReport && r == JobAction::Report(DownloadState::Done)
                        },
                        JobEvent::Failed(e) => f.phase == JobPhase::AwaitBackoff && r == b && f.failure == Some(e),
                        _ => f.phase == JobPhase::AwaitBackoff && r == b && f.failure matches Some(SpotifyError::Error(_)),
                    },
                    JobPhase::AwaitLyrics => f.phase == JobPhase::AwaitDoneReport && r == JobAction::Report(DownloadState::Done),
                    JobPhase::AwaitDoneReport => f.phase == JobPhase::Finished && r == JobAction::Finish(Ok(())) && f.failure is None,
                    JobPhase::AwaitRemoval => f.phase == JobPhase::AwaitBackoff && r == b && f.failure == o.failure,
                    JobPhase::AwaitBackoff => f.phase == JobPhase::AwaitErrorReport && f.failure == o.failure
                        && (r matches JobAction::Report(DownloadState::Error(text)) && text@ == error_text(o.failure->Some_0)),
                    JobPhase::AwaitErrorReport => f.phase == JobPhase::Finished && f.failure == o.failure
                        && r == JobAction::Finish(Err(o.failure->Some_0)),
                    JobPhase::Finished => f.phase == JobPhase::Finished && f.failure == o.failure
                        && r == match o.failure {
                        Some(e) => JobAction::Finish(Err(e)),
                        None => JobAction::Finish(Ok(())),
                    },
                }
            }),
    {
        match self.phase {
            JobPhase::Start => {
                if valid_track_id(self.job.track_id.as_str()) {
                    self.phase = JobPhase::AwaitMetadata;
                    JobAction::FetchMetadata
                } else {
                    self.fail(SpotifyError::Unavailable)
                }
            },
            JobPhase::AwaitMetadata => match ev {
                JobEvent::Metadata(info) => {
                    let tags = path_tags(&info, self.job.track_id.as_str());
                    let stem = path_stem(self.config.path.as_str(), self.config.filename_template.as_str(), &tags);
                    self.dir = parent_dir(stem.as_str());
                    self.stem = stem;
                    self.tags = tags;
                    self.phase = JobPhase::AwaitDir;
                    JobAction::CreateDir
                },
                JobEvent::Failed(e) => self.fail(e),
                _ => self.fail(SpotifyError::Error(String::from_str("unexpected outcome"))),
            },
            JobPhase::AwaitDir => match ev {
                JobEvent::Completed => {
                    self.phase = JobPhase::AwaitFiles;
                    JobAction::FetchFiles
                },
                JobEvent::Failed(e) => self.fail(e),
                _ => self.fail(SpotifyError::Error(String::from_str("unexpected outcome"))),
            },
            JobPhase::AwaitFiles => match ev {
                JobEvent::Files(available, offered, n) => {
                    if available {
                        self.choose_variant(&offered)
                    } else if n > 0 {
                        self.phase = JobPhase::AwaitAlternative(0, n);
                        JobAction::FetchAlternative(0)
                    } else {
                        self.fail(SpotifyError::Unavailable)
                    }
                },
                JobEvent::Failed(e) => self.fail(e),
                _ => self.fail(SpotifyError::Error(String::from_str("unexpected outcome"))),
            },
            JobPhase::AwaitAlternative(k, n) => match ev {
                JobEvent::Files(available, offered, _) => {
                    if available {
                        self.choose_variant(&offered)
                    } else if k < n && k + 1 < n {
                        self.phase = JobPhase::AwaitAlternative(k + 1, n);
                        JobAction::FetchAlternative(k + 1)
                    } else {
                        self.fail(SpotifyError::Unavailable)
                    }
                },
                JobEvent::Failed(e) => self.fail(e),
                _ => self.fail(SpotifyError::Error(String::from_str("unexpected outcome"))),
            },
            JobPhase::AwaitExisting => match ev {
                JobEvent::Exists(exists) => {
                    if exists {
                        self.failure = Some(SpotifyError::AlreadyDownloaded);
                        self.phase = JobPhase::AwaitSkipReport;
                        JobAction::Report(DownloadState::Done)
                    } else {
                        self.phase = JobPhase::AwaitStream;
                        JobAction::OpenStream(self.variant)
                    }
                },
                JobEvent::Failed(e) => self.fail(e),
                _ => self.fail(SpotifyError::Error(String::from_str("unexpected outcome"))),
            },
            JobPhase::AwaitSkipReport => {
                self.phase = JobPhase::Finished;
                JobAction::Finish(Err(SpotifyError::AlreadyDownloaded))
            },
            JobPhase::AwaitStream => match ev {
                JobEvent::StreamOpened(total) => {
                    self.total = total;
                    self.read = 0;
                    self.phase = JobPhase::AwaitFile;
                    JobAction::CreateFile
                },
                JobEvent::Failed(e) => self.fail(e),
                _ => self.fail(SpotifyError::Error(String::from_str("unexpected outcome"))),
            },
            JobPhase::AwaitFile => match ev {
                JobEvent::Completed => {
                    self.phase = JobPhase::AwaitHeader;
                    JobAction::SkipHeader(HEADER_LEN)
                },
                JobEvent::Failed(e) => self.fail_streaming(e),
                _ => self.fail_streaming(SpotifyError::Error(String::from_str("unexpected outcome"))),
            },
            JobPhase::AwaitHeader => match ev {
                JobEvent::Completed => {
                    self.phase = JobPhase::AwaitChunk;
                    JobAction::ReadChunk(CHUNK_LEN)
                },
                JobEvent::Failed(e) => self.fail_streaming(e),
                _ => self.fail_streaming(SpotifyError::Error(String::from_str("unexpected outcome"))),
            },
            JobPhase::AwaitChunk => match ev {
                JobEvent::Read(n) => {
                    if n == 0 {
                        self.phase = JobPhase::AwaitPost;
                        JobAction::Report(DownloadState::Post)
                    } else if n <= CHUNK_LEN {
                        self.phase = JobPhase::AwaitWrite(n);
                        JobAction::WriteChunk(n)
                    } else {
                        self.fail_streaming(SpotifyError::Error(String::from_str("read past the chunk")))
                    }
                },
                JobEvent::Failed(e) => self.fail_streaming(e),
                _ => self.fail_streaming(SpotifyError::Error(String::from_str("unexpected outcome"))),
            },
            JobPhase::AwaitWrite(n) => match ev {
                JobEvent::Completed => {
                    self.read = if n <= usize::MAX - self.read {
                        self.read + n
                    } else {
                        usize::MAX
                    };
                    self.phase = JobPhase::AwaitProgress;
                    JobAction::Report(DownloadState::Downloading(self.read, self.total))
                },
                JobEvent::Failed(e) => self.fail_streaming(e),
                _ => self.fail_streaming(SpotifyError::Error(String::from_str("unexpected outcome"))),
            },
            JobPhase::AwaitProgress => {
                self.phase = JobPhase::AwaitChunk;
                JobAction::ReadChunk(CHUNK_LEN)
            },
            JobPhase::AwaitPost => {
                self.phase = JobPhase::AwaitTags;
                JobAction::WriteTags(self.format)
            },
            JobPhase::AwaitTags => match ev {
                JobEvent::Completed => {
                    if self.config.download_lrc {
                        self.phase = JobPhase::AwaitLyrics;
                        JobAction::FetchLyrics
                    } else {
                        self.phase = JobPhase::AwaitDoneReport;
                        JobAction::Report(DownloadState::Done)
                    }
                },
                JobEvent::Failed(e) => self.fail(e),
                _ => self.fail(SpotifyError::Error(String::from_str("unexpected outcome"))),
            },
            JobPhase::AwaitLyrics => {
                self.phase = JobPhase::AwaitDoneReport;
                JobAction::Report(DownloadState::Done)
            },
            JobPhase::AwaitDoneReport => {
                self.phase = JobPhase::Finished;
                JobAction::Finish(Ok(()))
            },
            JobPhase::AwaitRemoval => {
                self.phase = JobPhase::AwaitBackoff;
                JobAction::Sleep(backoff_delay_ms(self.config.concurrent_downloads))
            },
            JobPhase::AwaitBackoff => {
                self.phase = JobPhase::AwaitErrorReport;
                let text = match &self.failure {
                    Some(e) => e.message(),
                    None => String::new(),
                };
                JobAction::Report(DownloadState::Error(text))
            },
            JobPhase::AwaitErrorReport => {
                self.phase = JobPhase::Finished;
                match &self.failure {
                    Some(e) => JobAction::Finish(Err(e.duplicate())),
                    None => JobAction::Finish(Ok(())),
                }
            },
            JobPhase::Finished => match &self.failure {
                Some(e) => JobAction::Finish(Err(e.duplicate())),
                None => JobAction::Finish(Ok(())),
            },
        }
    }
}

/// The outcome of choosing a variant from `offered`, as `step` makes it.
pub open spec fn chose_variant(o: JobRunner, f: JobRunner, offered: Seq<FileFormat>, r: JobAction) -> bool {
    match ladder_match(o.config.quality, offered) {
        None => f.phase == JobPhase::AwaitBackoff && f.failure == Some(SpotifyError::Unavailable) && r == JobAction::Sleep(
            backoff_ms(o.config.concurrent_downloads as nat) as u64,
        ),
        Some((_, v)) => {
            &&& f.variant == v
            &&& f.format == output_format(o.config.convert_to_mp3, v)
            &&& f.path@ == o.stem@ + seq!['.'] + output_extension(o.config.convert_to_mp3, v)
            &&& if o.config.skip_existing {
                f.phase == JobPhase::AwaitExisting && r == JobAction::CheckExisting
            } else {
                f.phase == JobPhase::AwaitStream && r == JobAction::OpenStream(v)
            }
        },
    }
}

} // verus!
