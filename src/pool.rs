use vstd::prelude::*;

use crate::config::DownloaderConfig;
use crate::queue::{DownloadJob, DownloaderMessage};

verus! {

/// What the worker pool asks its driver to do after an event.
#[derive(Debug, Clone)]
pub struct PoolStep {
    /// A job to start now.
    pub start: Option<(DownloadJob, DownloaderConfig)>,
    /// Whether to ask the queue for the next job.
    pub request_job: bool,
}

/// The worker pool as a mathematical value: how many jobs run, the jobs accepted but
/// not started, oldest first, and whether a request for a job is out.
pub struct PoolModel {
    pub running: nat,
    pub overflow: Seq<(DownloadJob, DownloaderConfig)>,
    pub pending: bool,
}

/// Bounds the number of jobs that run at once. Jobs arrive from the queue one request
/// at a time; one that finds every slot taken waits in an overflow buffer and starts,
/// oldest first, when a running job ends.
pub struct WorkerPool {
    running: usize,
    overflow: Vec<(DownloadJob, DownloaderConfig)>,
    request_pending: bool,
}

impl View for WorkerPool {
    type V = PoolModel;

    closed spec fn view(&self) -> PoolModel {
        PoolModel { running: self.running as nat, overflow: self.overflow@, pending: self.request_pending }
    }
}

impl WorkerPool {
    /// An idle pool with no request out.
    pub fn new() -> (r: WorkerPool)
        ensures
            r@ == (PoolModel { running: 0, overflow: Seq::empty(), pending: false }),
    {
        WorkerPool { running: 0, overflow: Vec::new(), request_pending: false }
    }

    /// Number of running jobs.
    pub fn running(&self) -> (r: usize)
        ensures
            r == self@.running,
    {
        self.running
    }

    /// Number of jobs waiting in the overflow buffer.
    pub fn waiting(&self) -> (r: usize)
        ensures
            r == self@.overflow.len(),
    {
        self.overflow.len()
    }

    /// Starts pulling: asks for a job unless a request is already out.
    pub fn begin(&mut self) -> (r: bool)
        ensures
            r == !old(self)@.pending,
            final(self)@ == (PoolModel { pending: true, ..old(self)@ }),
    {
        let ask = !self.request_pending;
        self.request_pending = true;
        ask
    }

    /// A job arrived from the queue, answering the request that was out. It starts at
    /// once if fewer jobs run than its settings allow, else it joins the end of the
    /// overflow buffer. The next request goes out either way.
    pub fn on_job(&mut self, msg: DownloaderMessage) -> (r: PoolStep)
        ensures
            r.request_job,
            final(self)@.pending,
            ({
                let DownloaderMessage::Job(job, config) = msg;
                if old(self)@.running < config.concurrent_downloads {
                    &&& final(self)@.running == old(self)@.running + 1
                    &&& final(self)@.overflow == old(self)@.overflow
                    &&& r.start == Some((job, config))
                } else {
                    &&& final(self)@.running == old(self)@.running
                    &&& final(self)@.overflow == old(self)@.overflow.push((job, config))
                    &&& r.start is None
                }
            }),
    {
        let DownloaderMessage::Job(job, config) = msg;
        self.request_pending = true;
        if self.running < config.concurrent_downloads {
            self.running = self.running + 1;
            PoolStep { start: Some((job, config)), request_job: true }
        } else {
            self.overflow.push((job, config));
            PoolStep { start: None, request_job: true }
        }
    }

    /// A running job ended. The oldest job of the overflow buffer, if any, starts in the
    /// freed slot. A request goes out unless one already is.
    pub fn on_finished(&mut self) -> (r: PoolStep)
        requires
            old(self)@.running > 0,
        ensures
            r.request_job == !old(self)@.pending,
            final(self)@.pending,
            if old(self)@.overflow.len() > 0 {
                &&& final(self)@.running == old(self)@.running
                &&& final(self)@.overflow == old(self)@.overflow.drop_first()
                &&& r.start == Some(old(self)@.overflow[0])
            } else {
                &&& final(self)@.running == old(self)@.running - 1
                &&& final(self)@.overflow == old(self)@.overflow
                &&& r.start is None
            },
    {
        let ask = !self.request_pending;
        self.request_pending = true;
        if self.overflow.len() > 0 {
            let next = self.overflow.remove(0);
            PoolStep { start: Some(next), request_job: ask }
        } else {
            self.running = self.running - 1;
            PoolStep { start: None, request_job: ask }
        }
    }
}

} // verus!
