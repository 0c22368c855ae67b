use down_on_spot::config::DownloaderConfig;
use down_on_spot::pool::WorkerPool;
use down_on_spot::queue::{DownloadJob, DownloaderMessage};

fn msg(id: i64, limit: usize) -> DownloaderMessage {
    let mut c = DownloaderConfig::new();
    c.concurrent_downloads = limit;
    DownloaderMessage::Job(DownloadJob { id, track_id: format!("t{}", id) }, c)
}

#[test]
fn jobs_start_until_the_limit_then_wait_in_order() {
    let mut p = WorkerPool::new();
    assert!(p.begin());
    assert!(!p.begin());
    let s = p.on_job(msg(0, 2));
    assert_eq!(s.start.map(|(j, _)| j.id), Some(0));
    assert!(s.request_job);
    assert_eq!(p.on_job(msg(1, 2)).start.map(|(j, _)| j.id), Some(1));
    assert!(p.on_job(msg(2, 2)).start.is_none());
    assert!(p.on_job(msg(3, 2)).start.is_none());
    assert_eq!(p.running(), 2);
    assert_eq!(p.waiting(), 2);
    let s = p.on_finished();
    assert_eq!(s.start.map(|(j, _)| j.id), Some(2));
    assert!(!s.request_job);
    assert_eq!(p.on_finished().start.map(|(j, _)| j.id), Some(3));
    assert_eq!(p.running(), 2);
    assert!(p.on_finished().start.is_none());
    assert_eq!(p.running(), 1);
}
