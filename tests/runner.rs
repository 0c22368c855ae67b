use down_on_spot::config::DownloaderConfig;
use down_on_spot::error::SpotifyError;
use down_on_spot::quality::{AudioFormat, FileFormat, Quality};
use down_on_spot::queue::{DownloadJob, DownloadState};
use down_on_spot::runner::{
    backoff_delay_ms, valid_track_id, JobAction, JobEvent, JobPhase, JobRunner, CHUNK_LEN, HEADER_LEN,
};
use down_on_spot::template::TrackInfo;
use std::collections::HashMap;

fn info() -> TrackInfo {
    TrackInfo {
        name: "Title".to_string(),
        artists: vec!["Artist".to_string(), "Guest".to_string()],
        album: "Album".to_string(),
        album_artists: vec!["Artist".to_string()],
        track_number: 3,
        disc_number: 1,
    }
}

fn runner(skip: bool, lrc: bool, convert: bool) -> JobRunner {
    let mut c = DownloaderConfig::new();
    c.skip_existing = skip;
    c.download_lrc = lrc;
    c.convert_to_mp3 = convert;
    c.concurrent_downloads = 2;
    JobRunner::new(DownloadJob { id: 5, track_id: "4uLU6hMCjMI75M1A2tKUQC".to_string() }, c)
}

/// Runs the job up to the choice of a variant.
fn to_variant(r: &mut JobRunner, offered: Vec<FileFormat>) -> JobAction {
    assert!(matches!(r.step(JobEvent::Completed), JobAction::FetchMetadata));
    assert!(matches!(r.step(JobEvent::Metadata(info())), JobAction::CreateDir));
    assert!(matches!(r.step(JobEvent::Completed), JobAction::FetchFiles));
    r.step(JobEvent::Files(true, offered, 0))
}

#[test]
fn backoff_scales_with_concurrency() {
    assert_eq!(backoff_delay_ms(4), 4000);
    assert_eq!(backoff_delay_ms(1), 1000);
    assert_eq!(backoff_delay_ms(0), 0);
    assert_eq!(backoff_delay_ms(usize::MAX), u64::MAX);
}

#[test]
fn track_ids_are_base62() {
    assert!(valid_track_id("4uLU6hMCjMI75M1A2tKUQC"));
    assert!(valid_track_id(""));
    assert!(!valid_track_id("bad id!"));
}

#[test]
fn happy_path_reports_progress_post_and_done() {
    let mut r = runner(false, true, false);
    let a = to_variant(&mut r, vec![FileFormat::Mp3_160, FileFormat::OggVorbis160]);
    assert!(matches!(a, JobAction::OpenStream(FileFormat::OggVorbis160)));
    assert_eq!(r.stem, "downloads/Artist - Title");
    assert_eq!(r.dir, "downloads");
    assert_eq!(r.path, "downloads/Artist - Title.ogg");
    assert!(matches!(r.step(JobEvent::StreamOpened(1000)), JobAction::CreateFile));
    assert!(matches!(r.step(JobEvent::Completed), JobAction::SkipHeader(n) if n == HEADER_LEN));
    assert!(matches!(r.step(JobEvent::Completed), JobAction::ReadChunk(n) if n == CHUNK_LEN));
    assert!(matches!(r.step(JobEvent::Read(500)), JobAction::WriteChunk(500)));
    assert!(matches!(r.step(JobEvent::Completed), JobAction::Report(DownloadState::Downloading(500, 1000))));
    assert!(matches!(r.step(JobEvent::Completed), JobAction::ReadChunk(_)));
    assert!(matches!(r.step(JobEvent::Read(333)), JobAction::WriteChunk(333)));
    assert!(matches!(r.step(JobEvent::Completed), JobAction::Report(DownloadState::Downloading(833, 1000))));
    assert!(matches!(r.step(JobEvent::Completed), JobAction::ReadChunk(_)));
    assert!(matches!(r.step(JobEvent::Read(0)), JobAction::Report(DownloadState::Post)));
    assert!(matches!(r.step(JobEvent::Completed), JobAction::WriteTags(AudioFormat::Ogg)));
    assert!(matches!(r.step(JobEvent::Completed), JobAction::FetchLyrics));
    let lyrics_failed = r.step(JobEvent::Failed(SpotifyError::Network("404".to_string())));
    assert!(matches!(lyrics_failed, JobAction::Report(DownloadState::Done)));
    assert!(matches!(r.step(JobEvent::Completed), JobAction::Finish(Ok(()))));
    assert_eq!(r.phase, JobPhase::Finished);
}

#[test]
fn conversion_targets_mp3() {
    let mut r = runner(false, false, true);
    let a = to_variant(&mut r, vec![FileFormat::OggVorbis320]);
    assert!(matches!(a, JobAction::OpenStream(FileFormat::OggVorbis320)));
    assert_eq!(r.path, "downloads/Artist - Title.mp3");
    assert_eq!(r.format, AudioFormat::Mp3);
}

#[test]
fn existing_file_is_skipped_without_any_read() {
    let mut r = runner(true, false, false);
    let mut actions = vec![to_variant(&mut r, vec![FileFormat::Aac320])];
    assert!(matches!(actions[0], JobAction::CheckExisting));
    assert_eq!(r.path, "downloads/Artist - Title.m4a");
    actions.push(r.step(JobEvent::Exists(true)));
    actions.push(r.step(JobEvent::Completed));
    assert!(matches!(actions[1], JobAction::Report(DownloadState::Done)));
    assert!(matches!(actions[2], JobAction::Finish(Err(SpotifyError::AlreadyDownloaded))));
    for a in &actions {
        assert!(!matches!(a, JobAction::OpenStream(_) | JobAction::ReadChunk(_) | JobAction::SkipHeader(_)));
    }
}

#[test]
fn missing_file_is_downloaded_when_skipping() {
    let mut r = runner(true, false, false);
    to_variant(&mut r, vec![FileFormat::Aac320]);
    assert!(matches!(r.step(JobEvent::Exists(false)), JobAction::OpenStream(FileFormat::Aac320)));
}

#[test]
fn failure_mid_stream_removes_the_partial_file() {
    let mut disk: HashMap<String, Vec<u8>> = HashMap::new();
    let mut r = runner(false, false, false);
    to_variant(&mut r, vec![FileFormat::Mp3_320]);
    let mut reports = vec![];
    let mut ev = JobEvent::StreamOpened(1 << 20);
    let mut chunks_left = 3;
    let outcome = loop {
        match r.step(ev) {
            JobAction::CreateFile => {
                disk.insert(r.path.clone(), vec![]);
                ev = JobEvent::Completed;
            }
            JobAction::SkipHeader(_) => ev = JobEvent::Completed,
            JobAction::ReadChunk(n) => {
                ev = if chunks_left > 0 {
                    chunks_left -= 1;
                    JobEvent::Read(n)
                } else {
                    JobEvent::Failed(SpotifyError::Io("connection reset".to_string()))
                };
            }
            JobAction::WriteChunk(n) => {
                disk.get_mut(&r.path).unwrap().extend(std::iter::repeat(1u8).take(n));
                ev = JobEvent::Completed;
            }
            JobAction::RemoveFile => {
                disk.remove(&r.path);
                ev = JobEvent::Completed;
            }
            JobAction::Sleep(ms) => {
                assert_eq!(ms, 2000);
                ev = JobEvent::Completed;
            }
            JobAction::Report(s) => {
                reports.push(s);
                ev = JobEvent::Completed;
            }
            JobAction::Finish(res) => break res,
            other => panic!("unexpected action {:?}", other),
        }
    };
    assert!(disk.is_empty());
    assert_eq!(outcome, Err(SpotifyError::Io("connection reset".to_string())));
    assert!(matches!(reports.last(), Some(DownloadState::Error(e)) if e == "IO error: connection reset"));
    assert!(matches!(reports[2], DownloadState::Downloading(n, _) if n == 3 * CHUNK_LEN));
}

#[test]
fn alternatives_are_tried_in_order() {
    let mut r = runner(false, false, false);
    r.step(JobEvent::Completed);
    r.step(JobEvent::Metadata(info()));
    r.step(JobEvent::Completed);
    assert!(matches!(r.step(JobEvent::Files(false, vec![], 2)), JobAction::FetchAlternative(0)));
    assert!(matches!(r.step(JobEvent::Files(false, vec![], 0)), JobAction::FetchAlternative(1)));
    let a = r.step(JobEvent::Files(true, vec![FileFormat::OggVorbis96], 0));
    assert!(matches!(a, JobAction::OpenStream(FileFormat::OggVorbis96)));
    assert_eq!(r.config.quality, Quality::Q320);
}

#[test]
fn no_playable_alternative_fails_unavailable() {
    let mut r = runner(false, false, false);
    r.step(JobEvent::Completed);
    r.step(JobEvent::Metadata(info()));
    r.step(JobEvent::Completed);
    assert!(matches!(r.step(JobEvent::Files(false, vec![], 1)), JobAction::FetchAlternative(0)));
    assert!(matches!(r.step(JobEvent::Files(false, vec![], 0)), JobAction::Sleep(2000)));
    assert!(matches!(r.step(JobEvent::Completed), JobAction::Report(DownloadState::Error(e)) if e == "Unavailable"));
    assert!(matches!(r.step(JobEvent::Completed), JobAction::Finish(Err(SpotifyError::Unavailable))));
}

#[test]
fn no_tier_matches_fails_unavailable() {
    let mut r = runner(false, false, false);
    let a = to_variant(&mut r, vec![FileFormat::Other3]);
    assert!(matches!(a, JobAction::Sleep(2000)));
    assert_eq!(r.failure, Some(SpotifyError::Unavailable));
}

#[test]
fn malformed_track_id_fails_before_any_request() {
    let mut c = DownloaderConfig::new();
    c.concurrent_downloads = 3;
    let mut r = JobRunner::new(DownloadJob { id: 1, track_id: "not an id".to_string() }, c);
    assert!(matches!(r.step(JobEvent::Completed), JobAction::Sleep(3000)));
    assert!(matches!(r.step(JobEvent::Completed), JobAction::Report(DownloadState::Error(_))));
    assert!(matches!(r.step(JobEvent::Completed), JobAction::Finish(Err(SpotifyError::Unavailable))));
}

#[test]
fn metadata_failure_is_reported() {
    let mut r = runner(false, false, false);
    r.step(JobEvent::Completed);
    assert!(matches!(r.step(JobEvent::Failed(SpotifyError::Network("503".to_string()))), JobAction::Sleep(2000)));
    assert!(matches!(r.step(JobEvent::Completed), JobAction::Report(DownloadState::Error(e)) if e == "Network error: 503"));
}
