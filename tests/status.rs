use down_on_spot::catalog::download_from_track;
use down_on_spot::error::SpotifyError;
use down_on_spot::queue::{Download, DownloadState};
use down_on_spot::status::{all_settled, progress_percent, status_text};

#[test]
fn percentages_clamped() {
    assert_eq!(progress_percent(50, 200), 25);
    assert_eq!(progress_percent(199, 200), 99);
    assert_eq!(progress_percent(300, 200), 100);
    assert_eq!(progress_percent(0, 0), 0);
    assert_eq!(progress_percent(5, 0), 100);
    assert_eq!(progress_percent(usize::MAX, usize::MAX), 100);
}

#[test]
fn status_texts() {
    assert_eq!(status_text(&DownloadState::Downloading(1, 3)), "33%");
    assert_eq!(status_text(&DownloadState::Post), "Postprocessing... ");
    assert_eq!(status_text(&DownloadState::Waiting), "Preparing... ");
    assert_eq!(status_text(&DownloadState::Lock), "Preparing... ");
    assert_eq!(status_text(&DownloadState::Error("Unavailable".to_string())), "Unavailable ");
    assert_eq!(status_text(&DownloadState::Done), "Done.");
}

fn d(state: DownloadState) -> Download {
    Download { id: 0, track_id: "t".to_string(), title: "x".to_string(), subtitle: "y".to_string(), state }
}

#[test]
fn settled_when_only_errors_are_left() {
    assert!(all_settled(&vec![]));
    assert!(all_settled(&vec![d(DownloadState::Error("e".to_string()))]));
    assert!(!all_settled(&vec![d(DownloadState::Error("e".to_string())), d(DownloadState::Post)]));
    assert!(!all_settled(&vec![d(DownloadState::Waiting)]));
}

#[test]
fn error_texts() {
    assert_eq!(SpotifyError::Io("disk full".to_string()).message(), "IO error: disk full");
    assert_eq!(SpotifyError::AlreadyDownloaded.message(), "Already downloaded");
    assert_eq!(SpotifyError::Error("x".to_string()).message(), "x");
}

#[test]
fn catalog_track_entries() {
    let e = download_from_track(false, "id1".to_string(), "Song".to_string(), Some("Band".to_string()));
    assert_eq!((e.id, e.track_id.as_str(), e.title.as_str(), e.subtitle.as_str()), (0, "id1", "Song", "Band"));
    assert!(matches!(e.state, DownloadState::Waiting));
    let e = download_from_track(false, "id2".to_string(), "Song".to_string(), None);
    assert_eq!(e.subtitle, "");
    let l = download_from_track(true, "ignored".to_string(), "Mine".to_string(), None);
    assert_eq!(l.title, "Local Track: Mine");
    assert_eq!(l.subtitle, "Invalid Track");
    assert!(matches!(l.state, DownloadState::Error(ref m) if m == "Cannot Download Local Track"));
}
