use down_on_spot::config::DownloaderConfig;
use down_on_spot::queue::{
    Download, DownloadQueue, DownloadState, DownloaderMessage, Message, QueueOutput, Response,
};

fn entry(track: &str) -> Download {
    Download {
        id: 77,
        track_id: track.to_string(),
        title: format!("title {}", track),
        subtitle: "artist".to_string(),
        state: DownloadState::Error("stale".to_string()),
    }
}

fn config(limit: usize) -> DownloaderConfig {
    let mut c = DownloaderConfig::new();
    c.concurrent_downloads = limit;
    c
}

fn ids(q: &DownloadQueue) -> Vec<i64> {
    q.get_downloads().iter().map(|d| d.id).collect()
}

fn job_id(m: Option<DownloaderMessage>) -> Option<i64> {
    m.map(|DownloaderMessage::Job(j, _)| j.id)
}

#[test]
fn default_config_values() {
    let c = DownloaderConfig::new();
    assert_eq!(c.concurrent_downloads, 4);
    assert_eq!(c.path, "downloads");
    assert_eq!(c.filename_template, "%artist% - %title%");
    assert!(c.skip_existing);
    assert!(!c.convert_to_mp3);
    assert!(!c.download_lrc);
    assert_eq!(c.separator, ", ");
}

#[test]
fn ids_start_at_zero_and_state_resets() {
    let mut q = DownloadQueue::new(config(2));
    assert_eq!(q.add_to_queue(vec![entry("a"), entry("b"), entry("c")]).is_none(), true);
    assert_eq!(ids(&q), vec![0, 1, 2]);
    for d in q.get_downloads() {
        assert!(matches!(d.state, DownloadState::Waiting));
    }
    assert_eq!(q.get_downloads()[1].track_id, "b");
    assert_eq!(q.next_id(), 3);
}

#[test]
fn ids_increase_across_batches_and_purges() {
    let mut q = DownloadQueue::new(config(4));
    q.add_to_queue(vec![entry("a"), entry("b")]);
    assert_eq!(job_id(q.get_job()), Some(0));
    assert_eq!(job_id(q.get_job()), Some(1));
    q.update_state(0, DownloadState::Done);
    q.update_state(1, DownloadState::Done);
    assert!(q.get_downloads().is_empty());
    q.add_to_queue(vec![entry("c")]);
    q.add_to_queue(vec![entry("d"), entry("e")]);
    assert_eq!(ids(&q), vec![2, 3, 4]);
}

#[test]
fn done_removes_and_error_keeps() {
    let mut q = DownloadQueue::new(config(4));
    q.add_to_queue(vec![entry("a"), entry("b")]);
    q.get_job();
    q.get_job();
    q.update_state(0, DownloadState::Done);
    assert_eq!(ids(&q), vec![1]);
    q.update_state(1, DownloadState::Error("boom".to_string()));
    let d = q.get_downloads();
    assert_eq!(d.len(), 1);
    assert!(matches!(&d[0].state, DownloadState::Error(e) if e == "boom"));
}

#[test]
fn three_jobs_two_slots() {
    let mut q = DownloadQueue::new(config(2));
    q.add_to_queue(vec![entry("a"), entry("b"), entry("c")]);
    assert_eq!(job_id(q.get_job()), Some(0));
    assert_eq!(job_id(q.get_job()), Some(1));
    assert_eq!(job_id(q.get_job()), None);
    let d = q.get_downloads();
    assert!(matches!(d[0].state, DownloadState::Lock));
    assert!(matches!(d[1].state, DownloadState::Lock));
    assert!(matches!(d[2].state, DownloadState::Waiting));
    q.update_state(0, DownloadState::Downloading(10, 100));
    assert!(matches!(q.get_downloads()[2].state, DownloadState::Waiting));
    let freed = q.update_state(1, DownloadState::Done);
    assert_eq!(job_id(freed), Some(2));
    let d = q.get_downloads();
    assert!(matches!(d[1].state, DownloadState::Lock));
    assert_eq!(d[1].id, 2);
}

#[test]
fn pending_request_served_by_next_batch() {
    let mut q = DownloadQueue::new(config(1));
    assert!(q.get_job().is_none());
    let m = q.add_to_queue(vec![entry("x")]);
    match m {
        Some(DownloaderMessage::Job(job, cfg)) => {
            assert_eq!(job.id, 0);
            assert_eq!(job.track_id, "x");
            assert_eq!(cfg.concurrent_downloads, 1);
        }
        None => panic!("no job dispatched"),
    }
    assert!(q.add_to_queue(vec![entry("y")]).is_none());
}

#[test]
fn empty_batch_with_pending_request() {
    let mut q = DownloadQueue::new(config(1));
    assert!(q.get_job().is_none());
    assert!(q.add_to_queue(vec![]).is_none());
    assert_eq!(job_id(q.add_to_queue(vec![entry("z")])), Some(0));
}

#[test]
fn update_of_unknown_id_changes_nothing() {
    let mut q = DownloadQueue::new(config(2));
    q.add_to_queue(vec![entry("a")]);
    assert!(q.update_state(42, DownloadState::Done).is_none());
    assert_eq!(ids(&q), vec![0]);
}

#[test]
fn update_cannot_activate_a_waiting_entry() {
    let mut q = DownloadQueue::new(config(1));
    q.add_to_queue(vec![entry("a")]);
    q.update_state(0, DownloadState::Downloading(1, 2));
    assert!(matches!(q.get_downloads()[0].state, DownloadState::Waiting));
}

#[test]
fn zero_limit_dispatches_nothing() {
    let mut q = DownloadQueue::new(config(0));
    q.add_to_queue(vec![entry("a")]);
    assert!(q.get_job().is_none());
}

#[test]
fn handle_routes_messages() {
    let mut q = DownloadQueue::new(config(2));
    assert!(matches!(q.handle(Message::AddToQueue(vec![entry("a")])), QueueOutput::Idle));
    match q.handle(Message::GetJob) {
        QueueOutput::Dispatch(DownloaderMessage::Job(j, _)) => assert_eq!(j.id, 0),
        _ => panic!("expected a job"),
    }
    assert!(matches!(q.handle(Message::UpdateState(0, DownloadState::Post)), QueueOutput::Idle));
    match q.handle(Message::GetDownloads) {
        QueueOutput::Reply(Response::Downloads(d)) => {
            assert_eq!(d.len(), 1);
            assert!(matches!(d[0].state, DownloadState::Post));
        }
        _ => panic!("expected a snapshot"),
    }
}

#[test]
fn can_admit_guards_id_overflow() {
    let q = DownloadQueue::new(config(1));
    assert!(q.can_admit(5));
    assert!(q.can_admit(i64::MAX as usize));
}
