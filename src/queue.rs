use vstd::prelude::*;

use crate::config::DownloaderConfig;

verus! {

/// Where a queued download stands.
#[derive(Debug, Clone)]
pub enum DownloadState {
    /// Waiting to be dispatched.
    Waiting,
    /// Claimed by a worker, not yet streaming.
    Lock,
    /// Streaming: bytes read so far, bytes in all.
    Downloading(usize, usize),
    /// Writing tags and sidecars.
    Post,
    /// Finished; the entry leaves the queue.
    Done,
    /// Failed with a reason; the entry stays for inspection.
    Error(String),
}

/// An entry of the queue.
#[derive(Debug, Clone)]
pub struct Download {
    pub id: i64,
    pub track_id: String,
    pub title: String,
    pub subtitle: String,
    pub state: DownloadState,
}

/// What a worker needs of an entry to run it.
#[derive(Debug, Clone)]
pub struct DownloadJob {
    pub id: i64,
    pub track_id: String,
}

/// Requests to the queue.
#[derive(Debug, Clone)]
pub enum Message {
    /// A worker asks for the next job.
    GetJob,
    /// A worker reports the new state of an entry.
    UpdateState(i64, DownloadState),
    /// New entries for the queue.
    AddToQueue(Vec<Download>),
    /// A snapshot of the queue is asked for.
    GetDownloads,
}

/// Answers to snapshot requests.
#[derive(Debug, Clone)]
pub enum Response {
    Downloads(Vec<Download>),
}

/// What the queue hands to the worker pool.
#[derive(Debug, Clone)]
pub enum DownloaderMessage {
    Job(DownloadJob, DownloaderConfig),
}

/// What handling one request produces.
#[derive(Debug, Clone)]
pub enum QueueOutput {
    /// Nothing to send.
    Idle,
    /// A job to hand to the worker pool.
    Dispatch(DownloaderMessage),
    /// An answer to the caller.
    Reply(Response),
}

/// States that hold a worker slot.
pub open spec fn is_active(s: DownloadState) -> bool {
    s is Lock || s is Downloading || s is Post
}

/// Number of entries that hold a worker slot.
pub open spec fn active_count(q: Seq<Download>) -> nat
    decreases q.len(),
{
    if q.len() == 0 {
        0
    } else {
        active_count(q.drop_last()) + if is_active(q.last().state) {
            1nat
        } else {
            0nat
        }
    }
}

/// Index of the first entry that satisfies `p`.
pub open spec fn first_where(q: Seq<Download>, p: spec_fn(Download) -> bool) -> Option<int>
    decreases q.len(),
{
    if q.len() == 0 {
        None
    } else if p(q[0]) {
        Some(0)
    } else {
        match first_where(q.drop_first(), p) {
            Some(i) => Some(i + 1),
            None => None,
        }
    }
}

/// Entries still waiting for dispatch.
pub open spec fn waiting_entry() -> spec_fn(Download) -> bool {
    |d: Download| d.state is Waiting
}

/// Entries with the given id.
pub open spec fn entry_with_id(id: int) -> spec_fn(Download) -> bool {
    |d: Download| d.id == id
}

/// Index of the first entry still waiting for dispatch.
pub open spec fn first_waiting(q: Seq<Download>) -> Option<int> {
    first_where(q, waiting_entry())
}

/// Index of the entry with the given id.
pub open spec fn index_of(q: Seq<Download>, id: int) -> Option<int> {
    first_where(q, entry_with_id(id))
}

/// The entry with its state replaced.
pub open spec fn with_state(d: Download, s: DownloadState) -> Download {
    Download { id: d.id, track_id: d.track_id, title: d.title, subtitle: d.subtitle, state: s }
}

/// The entries of a batch as the queue admits them: ids from `start` on, state reset.
pub open spec fn admitted(batch: Seq<Download>, start: int) -> Seq<Download> {
    Seq::new(
        batch.len(),
        |k: int|
            Download {
                id: (start + k) as i64,
                track_id: batch[k].track_id,
                title: batch[k].title,
                subtitle: batch[k].subtitle,
                state: DownloadState::Waiting,
            },
    )
}

/// The queue as a mathematical value: the entries in order, whether a worker's request
/// is pending, the id the next admitted entry gets, and the concurrency limit.
pub struct QueueModel {
    pub entries: Seq<Download>,
    pub waiting: bool,
    pub next_id: int,
    pub limit: nat,
}

/// One request to the queue, as the model sees it.
pub enum QueueEvent {
    Add(Seq<Download>),
    GetJob,
    Update(int, DownloadState),
}

impl QueueModel {
    /// Ids increase along the queue and lie below `next_id`; no entry is `Done`; the
    /// entries that hold a worker slot are within the limit.
    pub open spec fn wf(self) -> bool {
        &&& 0 <= self.next_id <= i64::MAX
        &&& forall|i: int| 0 <= i < self.entries.len() ==> 0 <= #[trigger] self.entries[i].id < self.next_id
        &&& forall|i: int, j: int| 0 <= i < j < self.entries.len() ==> self.entries[i].id < self.entries[j].id
        &&& forall|i: int| 0 <= i < self.entries.len() ==> !(#[trigger] self.entries[i].state is Done)
        &&& active_count(self.entries) <= self.limit
    }
}

/// The entry a worker may claim now: the first waiting one, if a slot is free.
pub open spec fn claimable(q: Seq<Download>, limit: nat) -> Option<int> {
    if active_count(q) < limit {
        first_waiting(q)
    } else {
        None
    }
}

/// Serves a worker's request: locks the claimable entry, or records that a request is
/// pending. Gives the index of the locked entry.
pub open spec fn model_claim(m: QueueModel) -> (QueueModel, Option<int>) {
    match claimable(m.entries, m.limit) {
        Some(i) => (
            QueueModel {
                entries: m.entries.update(i, with_state(m.entries[i], DownloadState::Lock)),
                waiting: false,
                next_id: m.next_id,
                limit: m.limit,
            },
            Some(i),
        ),
        None => (QueueModel { entries: m.entries, waiting: true, next_id: m.next_id, limit: m.limit }, None),
    }
}

/// The queue with a batch admitted at its end.
pub open spec fn model_admit(m: QueueModel, batch: Seq<Download>) -> QueueModel {
    QueueModel {
        entries: m.entries + admitted(batch, m.next_id),
        waiting: m.waiting,
        next_id: m.next_id + batch.len(),
        limit: m.limit,
    }
}

/// The queue with the state of entry `i` overwritten, or the entry removed on `Done`.
pub open spec fn model_set(m: QueueModel, i: int, s: DownloadState) -> QueueModel {
    let e = if s is Done {
        m.entries.remove(i)
    } else {
        m.entries.update(i, with_state(m.entries[i], s))
    };
    QueueModel { entries: e, waiting: m.waiting, next_id: m.next_id, limit: m.limit }
}

/// Whether an update would give a worker slot to an entry that holds none.
pub open spec fn refused_update(m: QueueModel, i: int, s: DownloadState) -> bool {
    is_active(s) && !is_active(m.entries[i].state)
}

/// Admits a batch at the end of the queue; a pending request is then served.
pub open spec fn model_add(m: QueueModel, batch: Seq<Download>) -> (QueueModel, Option<int>) {
    let m2 = model_admit(m, batch);
    if m.waiting {
        model_claim(m2)
    } else {
        (m2, None)
    }
}

/// Overwrites the state of the entry with id `id`; `Done` removes it. An unknown id, or a
/// state that would give a worker slot to an entry that holds none, changes nothing. When
/// a request is pending it is then served.
pub open spec fn model_update(m: QueueModel, id: int, s: DownloadState) -> (QueueModel, Option<int>) {
    match index_of(m.entries, id) {
        None => (m, None),
        Some(i) => if refused_update(m, i, s) {
            (m, None)
        } else {
            let m2 = model_set(m, i, s);
            if m.waiting {
                model_claim(m2)
            } else {
                (m2, None)
            }
        },
    }
}

/// One request; gives the new queue and the index of the entry dispatched, if any.
pub open spec fn model_step(m: QueueModel, e: QueueEvent) -> (QueueModel, Option<int>) {
    match e {
        QueueEvent::Add(batch) => model_add(m, batch),
        QueueEvent::GetJob => model_claim(m),
        QueueEvent::Update(id, s) => model_update(m, id, s),
    }
}

/// The queue after a sequence of requests.
pub open spec fn model_run(m: QueueModel, events: Seq<QueueEvent>) -> QueueModel
    decreases events.len(),
{
    if events.len() == 0 {
        m
    } else {
        model_step(model_run(m, events.drop_last()), events.last()).0
    }
}

/// The ids handed out by a sequence of requests, in order.
pub open spec fn assigned_ids(m: QueueModel, events: Seq<QueueEvent>) -> Seq<int>
    decreases events.len(),
{
    if events.len() == 0 {
        Seq::empty()
    } else {
        let before = model_run(m, events.drop_last());
        let fresh = match events.last() {
            QueueEvent::Add(batch) => Seq::new(batch.len(), |k: int| before.next_id + k),
            _ => Seq::empty(),
        };
        assigned_ids(m, events.drop_last()) + fresh
    }
}

/// Whether every batch of a sequence of requests still gets ids that fit an `i64`.
pub open spec fn ids_fit(m: QueueModel, events: Seq<QueueEvent>) -> bool
    decreases events.len(),
{
    if events.len() == 0 {
        true
    } else {
        &&& ids_fit(m, events.drop_last())
        &&& match events.last() {
            QueueEvent::Add(batch) => model_run(m, events.drop_last()).next_id + batch.len() <= i64::MAX,
            _ => true,
        }
    }
}

/// The first match of `p` is the first index where `p` holds.
pub proof fn lemma_first_where(q: Seq<Download>, p: spec_fn(Download) -> bool)
    ensures
        match first_where(q, p) {
            Some(i) => 0 <= i < q.len() && p(q[i]) && forall|j: int| 0 <= j < i ==> !p(#[trigger] q[j]),
            None => forall|j: int| 0 <= j < q.len() ==> !p(#[trigger] q[j]),
        },
    decreases q.len(),
{
    if q.len() > 0 {
        lemma_first_where(q.drop_first(), p);
        assert forall|j: int| 1 <= j < q.len() implies q[j] == q.drop_first()[j - 1] by {}
    }
}

proof fn lemma_count_update(q: Seq<Download>, i: int, d: Download)
    requires
        0 <= i < q.len(),
    ensures
        active_count(q.update(i, d)) + (if is_active(q[i].state) { 1int } else { 0int })
            == active_count(q) + (if is_active(d.state) { 1int } else { 0int }),
    decreases q.len(),
{
    if i == q.len() - 1 {
        assert(q.update(i, d).drop_last() =~= q.drop_last());
    } else {
        lemma_count_update(q.drop_last(), i, d);
        assert(q.update(i, d).drop_last() =~= q.drop_last().update(i, d));
    }
}

proof fn lemma_count_remove(q: Seq<Download>, i: int)
    requires
        0 <= i < q.len(),
    ensures
        active_count(q.remove(i)) + (if is_active(q[i].state) { 1int } else { 0int }) == active_count(q),
    decreases q.len(),
{
    if i == q.len() - 1 {
        assert(q.remove(i) =~= q.drop_last());
    } else {
        lemma_count_remove(q.drop_last(), i);
        assert(q.remove(i).drop_last() =~= q.drop_last().remove(i));
        assert(q.remove(i).last() == q.last());
    }
}

proof fn lemma_count_append_idle(q: Seq<Download>, r: Seq<Download>)
    requires
        forall|k: int| 0 <= k < r.len() ==> !is_active(#[trigger] r[k].state),
    ensures
        active_count(q + r) == active_count(q),
    decreases r.len(),
{
    if r.len() == 0 {
        assert(q + r =~= q);
    } else {
        lemma_count_append_idle(q, r.drop_last());
        assert((q + r).drop_last() =~= q + r.drop_last());
    }
}

proof fn lemma_count_prefix(q: Seq<Download>, i: int)
    requires
        0 <= i < q.len(),
    ensures
        active_count(q.subrange(0, i + 1)) == active_count(q.subrange(0, i)) + (if is_active(q[i].state) { 1nat } else { 0nat }),
        active_count(q.subrange(0, i)) <= i,
    decreases i,
{
    assert(q.subrange(0, i + 1).drop_last() =~= q.subrange(0, i));
    if i > 0 {
        lemma_count_prefix(q, i - 1);
    }
}

/// Serving a request keeps the queue well formed, and only a waiting entry is locked.
proof fn lemma_claim_wf(m: QueueModel)
    requires
        m.wf(),
    ensures
        model_claim(m).0.wf(),
        model_claim(m).0.next_id == m.next_id,
        model_claim(m).0.limit == m.limit,
        model_claim(m).0.entries.len() == m.entries.len(),
        match model_claim(m).1 {
            Some(i) => 0 <= i < m.entries.len() && m.entries[i].state is Waiting,
            None => model_claim(m).0.entries == m.entries,
        },
        forall|k: int|
            0 <= k < m.entries.len() && !(m.entries[k].state is Waiting) ==> #[trigger] model_claim(m).0.entries[k] == m.entries[k],
{
    lemma_first_where(m.entries, waiting_entry());
    match claimable(m.entries, m.limit) {
        Some(i) => {
            lemma_count_update(m.entries, i, with_state(m.entries[i], DownloadState::Lock));
        },
        None => {},
    }
}

proof fn lemma_admit_wf(m: QueueModel, batch: Seq<Download>)
    requires
        m.wf(),
        m.next_id + batch.len() <= i64::MAX,
    ensures
        model_admit(m, batch).wf(),
{
    let a = admitted(batch, m.next_id);
    lemma_count_append_idle(m.entries, a);
    let e = m.entries + a;
    assert forall|i: int, j: int| 0 <= i < j < e.len() implies e[i].id < e[j].id by {
        if j >= m.entries.len() && i < m.entries.len() {
            assert(e[i].id < m.next_id);
        }
    }
}

proof fn lemma_set_wf(m: QueueModel, i: int, s: DownloadState)
    requires
        m.wf(),
        0 <= i < m.entries.len(),
        !refused_update(m, i, s),
    ensures
        model_set(m, i, s).wf(),
{
    if s is Done {
        lemma_count_remove(m.entries, i);
        let e = m.entries.remove(i);
        assert forall|a: int, b: int| 0 <= a < b < e.len() implies e[a].id < e[b].id by {
            let a0 = if a < i { a } else { a + 1 };
            let b0 = if b < i { b } else { b + 1 };
            assert(e[a] == m.entries[a0]);
            assert(e[b] == m.entries[b0]);
        }
        assert forall|k: int| 0 <= k < e.len() implies 0 <= #[trigger] e[k].id < m.next_id && !(e[k].state is Done) by {
            let k0 = if k < i { k } else { k + 1 };
            assert(e[k] == m.entries[k0]);
        }
    } else {
        lemma_count_update(m.entries, i, with_state(m.entries[i], s));
    }
}

/// Every request keeps the queue well formed; only `Add` moves `next_id`, by the size of
/// its batch.
pub proof fn lemma_step_wf(m: QueueModel, e: QueueEvent)
    requires
        m.wf(),
        e matches QueueEvent::Add(batch) ==> m.next_id + batch.len() <= i64::MAX,
    ensures
        model_step(m, e).0.wf(),
        model_step(m, e).0.limit == m.limit,
        model_step(m, e).0.next_id == m.next_id + match e {
            QueueEvent::Add(batch) => batch.len() as int,
            _ => 0int,
        },
{
    match e {
        QueueEvent::Add(batch) => {
            lemma_admit_wf(m, batch);
            if m.waiting {
                lemma_claim_wf(model_admit(m, batch));
            }
        },
        QueueEvent::GetJob => {
            lemma_claim_wf(m);
        },
        QueueEvent::Update(id, s) => {
            match index_of(m.entries, id) {
                None => {},
                Some(i) => {
                    lemma_first_where(m.entries, entry_with_id(id));
                    if !refused_update(m, i, s) {
                        lemma_set_wf(m, i, s);
                        if m.waiting {
                            lemma_claim_wf(model_set(m, i, s));
                        }
                    }
                },
            }
        },
    }
}

/// Concurrency bound: from a well-formed queue, after any sequence of requests whose ids
/// fit, the entries in `Lock`, `Downloading` or `Post` never outnumber the limit.
pub proof fn lemma_active_within_limit(m: QueueModel, events: Seq<QueueEvent>)
    requires
        m.wf(),
        ids_fit(m, events),
    ensures
        model_run(m, events).wf(),
        model_run(m, events).limit == m.limit,
        active_count(model_run(m, events).entries) <= m.limit,
        m.next_id <= model_run(m, events).next_id,
    decreases events.len(),
{
    if events.len() > 0 {
        lemma_active_within_limit(m, events.drop_last());
        lemma_step_wf(model_run(m, events.drop_last()), events.last());
    }
}

/// Fresh ids: over any sequence of requests, the ids handed to admitted entries strictly
/// increase, and each lies at or above the `next_id` the queue started with, hence above
/// every id it held then, and below the `next_id` it ends with, hence below every id handed
/// out later. Entries purged on `Done` never see their id reused.
pub proof fn lemma_ids_increase(m: QueueModel, events: Seq<QueueEvent>)
    requires
        m.wf(),
        ids_fit(m, events),
    ensures
        forall|i: int, j: int|
            0 <= i < j < assigned_ids(m, events).len() ==> assigned_ids(m, events)[i] < assigned_ids(m, events)[j],
        forall|i: int|
            0 <= i < assigned_ids(m, events).len() ==> m.next_id <= #[trigger] assigned_ids(m, events)[i] < model_run(m, events).next_id,
    decreases events.len(),
{
    if events.len() > 0 {
        let prev = events.drop_last();
        lemma_ids_increase(m, prev);
        lemma_active_within_limit(m, prev);
        lemma_step_wf(model_run(m, prev), events.last());
        let ids = assigned_ids(m, events);
        let old_ids = assigned_ids(m, prev);
        assert forall|i: int| 0 <= i < old_ids.len() implies ids[i] == old_ids[i] by {}
    }
}

/// Purging: after `Done` is reported for an id, no entry with that id is left.
pub proof fn lemma_done_removes(m: QueueModel, id: int)
    requires
        m.wf(),
    ensures
        index_of(model_update(m, id, DownloadState::Done).0.entries, id) is None,
{
    lemma_first_where(m.entries, entry_with_id(id));
    let r = model_update(m, id, DownloadState::Done).0;
    match index_of(m.entries, id) {
        None => {
            lemma_claim_wf(m);
        },
        Some(i) => {
            let m2 = model_set(m, i, DownloadState::Done);
            lemma_set_wf(m, i, DownloadState::Done);
            lemma_claim_wf(m2);
            assert forall|k: int| 0 <= k < m2.entries.len() implies m2.entries[k].id != id by {
                let k0 = if k < i { k } else { k + 1 };
                assert(m2.entries[k] == m.entries[k0]);
            }
            assert forall|k: int| 0 <= k < r.entries.len() implies r.entries[k].id != id by {
                if m.waiting {
                    assert(r.entries[k].id == m2.entries[k].id);
                }
            }
        },
    }
    lemma_first_where(r.entries, entry_with_id(id));
}

/// Keeping failures: after `Error` is reported for an id the queue holds, the entry is
/// still there, with that error.
pub proof fn lemma_error_keeps(m: QueueModel, id: int, reason: String)
    requires
        m.wf(),
        index_of(m.entries, id) is Some,
    ensures
        match index_of(model_update(m, id, DownloadState::Error(reason)).0.entries, id) {
            Some(k) => model_update(m, id, DownloadState::Error(reason)).0.entries[k].state == DownloadState::Error(reason),
            None => false,
        },
{
    let s = DownloadState::Error(reason);
    lemma_first_where(m.entries, entry_with_id(id));
    let i = index_of(m.entries, id)->Some_0;
    let m2 = model_set(m, i, s);
    lemma_set_wf(m, i, s);
    lemma_claim_wf(m2);
    let r = model_update(m, id, s).0;
    assert(r.entries[i] == m2.entries[i]);
    assert forall|k: int| 0 <= k < i implies r.entries[k].id != id by {
        if m.waiting {
            assert(r.entries[k].id == m2.entries[k].id);
        }
    }
    lemma_first_where(r.entries, entry_with_id(id));
}

/// Whether a dispatch answer carries the entry at `claimed` of `entries` with `cfg`.
pub open spec fn dispatch_matches(
    r: Option<DownloaderMessage>,
    entries: Seq<Download>,
    claimed: Option<int>,
    cfg: DownloaderConfig,
) -> bool {
    match claimed {
        Some(i) => r matches Some(DownloaderMessage::Job(job, c)) && job.id == entries[i].id
            && job.track_id == entries[i].track_id && c == cfg,
        None => r is None,
    }
}

impl DownloadState {
    /// An equal copy of the state.
    pub fn duplicate(&self) -> (r: DownloadState)
        ensures
            r == *self,
    {
        match self {
            DownloadState::Waiting => DownloadState::Waiting,
            DownloadState::Lock => DownloadState::Lock,
            DownloadState::Downloading(read, total) => DownloadState::Downloading(*read, *total),
            DownloadState::Post => DownloadState::Post,
            DownloadState::Done => DownloadState::Done,
            DownloadState::Error(reason) => DownloadState::Error(reason.clone()),
        }
    }

    /// Whether the state holds a worker slot.
    pub fn is_active(&self) -> (r: bool)
        ensures
            r == is_active(*self),
    {
        match self {
            DownloadState::Lock | DownloadState::Downloading(..) | DownloadState::Post => true,
            _ => false,
        }
    }
}

impl Download {
    /// An equal copy of the entry.
    pub fn duplicate(&self) -> (r: Download)
        ensures
            r == *self,
    {
        Download {
            id: self.id,
            track_id: self.track_id.clone(),
            title: self.title.clone(),
            subtitle: self.subtitle.clone(),
            state: self.state.duplicate(),
        }
    }
}

impl From<Download> for DownloadJob {
    fn from(d: Download) -> (r: DownloadJob) {
        DownloadJob { id: d.id, track_id: d.track_id }
    }
}

impl vstd::std_specs::convert::FromSpecImpl<Download> for DownloadJob {
    open spec fn obeys_from_spec() -> bool {
        true
    }

    open spec fn from_spec(d: Download) -> DownloadJob {
        DownloadJob { id: d.id, track_id: d.track_id }
    }
}

/// Number of entries that hold a worker slot.
fn count_active(q: &Vec<Download>) -> (r: usize)
    ensures
        r == active_count(q@),
{
    let mut n: usize = 0;
    let mut i: usize = 0;
    while i < q.len()
        invariant
            i <= q.len(),
            n == active_count(q@.subrange(0, i as int)),
            n <= i,
        decreases q.len() - i,
    {
        proof {
            lemma_count_prefix(q@, i as int);
        }
        if q[i].state.is_active() {
            n = n + 1;
        }
        i = i + 1;
    }
    assert(q@.subrange(0, q@.len() as int) =~= q@);
    n
}

/// Index of the first entry waiting for dispatch.
fn find_waiting(q: &Vec<Download>) -> (r: Option<usize>)
    ensures
        match r {
            Some(i) => first_waiting(q@) == Some(i as int),
            None => first_waiting(q@) is None,
        },
{
    proof {
        lemma_first_where(q@, waiting_entry());
    }
    let mut i: usize = 0;
    while i < q.len()
        invariant
            i <= q.len(),
            forall|j: int| 0 <= j < i ==> !(#[trigger] q@[j].state is Waiting),
        decreases q.len() - i,
    {
        if matches!(q[i].state, DownloadState::Waiting) {
            proof {
                lemma_first_where(q@, waiting_entry());
                assert(waiting_entry()(q@[i as int]));
                assert forall|j: int| 0 <= j < i implies !waiting_entry()(#[trigger] q@[j]) by {}
            }
            return Some(i);
        }
        i = i + 1;
    }
    proof {
        assert forall|j: int| 0 <= j < q@.len() implies !waiting_entry()(#[trigger] q@[j]) by {}
    }
    None
}

/// Index of the entry with the given id.
fn find_id(q: &Vec<Download>, id: i64) -> (r: Option<usize>)
    ensures
        match r {
            Some(i) => index_of(q@, id as int) == Some(i as int),
            None => index_of(q@, id as int) is None,
        },
{
    proof {
        lemma_first_where(q@, entry_with_id(id as int));
    }
    let mut i: usize = 0;
    while i < q.len()
        invariant
            i <= q.len(),
            forall|j: int| 0 <= j < i ==> (#[trigger] q@[j]).id != id,
        decreases q.len() - i,
    {
        if q[i].id == id {
            proof {
                lemma_first_where(q@, entry_with_id(id as int));
                assert(entry_with_id(id as int)(q@[i as int]));
                assert forall|j: int| 0 <= j < i implies !entry_with_id(id as int)(#[trigger] q@[j]) by {}
            }
            return Some(i);
        }
        i = i + 1;
    }
    proof {
        assert forall|j: int| 0 <= j < q@.len() implies !entry_with_id(id as int)(#[trigger] q@[j]) by {}
    }
    None
}

/// The queue: the single owner of the download entries. Requests are handled one at a
/// time; each either changes the entries, hands a job to the worker pool, or answers with
/// a snapshot.
pub struct DownloadQueue {
    config: DownloaderConfig,
    queue: Vec<Download>,
    waiting_for_job: bool,
    next_id: i64,
}

impl View for DownloadQueue {
    type V = QueueModel;

    closed spec fn view(&self) -> QueueModel {
        QueueModel {
            entries: self.queue@,
            waiting: self.waiting_for_job,
            next_id: self.next_id as int,
            limit: self.config.concurrent_downloads as nat,
        }
    }
}

impl DownloadQueue {
    /// The invariant of the queue.
    pub closed spec fn wf(&self) -> bool {
        self@.wf()
    }

    /// The settings handed out with every job.
    pub closed spec fn settings(&self) -> DownloaderConfig {
        self.config
    }

    /// An empty queue with the given settings; the first id handed out is 0.
    pub fn new(config: DownloaderConfig) -> (r: DownloadQueue)
        ensures
            r.wf(),
            r@ == (QueueModel {
                entries: Seq::empty(),
                waiting: false,
                next_id: 0,
                limit: config.concurrent_downloads as nat,
            }),
            r.settings() == config,
    {
        DownloadQueue { config, queue: Vec::new(), waiting_for_job: false, next_id: 0 }
    }

    /// The id the next admitted entry gets.
    pub fn next_id(&self) -> (r: i64)
        ensures
            r == self@.next_id,
    {
        self.next_id
    }

    /// Whether a batch of `n` entries can still get ids that fit an `i64`.
    pub fn can_admit(&self, n: usize) -> (r: bool)
        requires
            self.wf(),
        ensures
            r == (self@.next_id + n <= i64::MAX),
    {
        (n as u64) <= ((i64::MAX - self.next_id) as u64)
    }

    fn claim(&mut self) -> (r: Option<DownloaderMessage>)
        requires
            old(self).wf(),
        ensures
            final(self).wf(),
            final(self)@ == model_claim(old(self)@).0,
            final(self).config == old(self).config,
            dispatch_matches(r, final(self)@.entries, model_claim(old(self)@).1, old(self).config),
    {
        proof {
            lemma_claim_wf(self@);
        }
        let active = count_active(&self.queue);
        if active < self.config.concurrent_downloads {
            match find_waiting(&self.queue) {
                Some(i) => {
                    self.queue[i].state = DownloadState::Lock;
                    self.waiting_for_job = false;
                    let job = DownloadJob { id: self.queue[i].id, track_id: self.queue[i].track_id.clone() };
                    Some(DownloaderMessage::Job(job, self.config.duplicate()))
                },
                None => {
                    self.waiting_for_job = true;
                    None
                },
            }
        } else {
            self.waiting_for_job = true;
            None
        }
    }

    /// A worker asks for a job: the first waiting entry is locked and handed out with a
    /// copy of the settings, if fewer entries than the limit hold a slot; otherwise the
    /// request stays pending until an entry is admitted or a slot frees.
    pub fn get_job(&mut self) -> (r: Option<DownloaderMessage>)
        requires
            old(self).wf(),
        ensures
            final(self).wf(),
            final(self)@ == model_claim(old(self)@).0,
            final(self).settings() == old(self).settings(),
            dispatch_matches(r, final(self)@.entries, model_claim(old(self)@).1, old(self).settings()),
    {
        self.claim()
    }

    /// Admits a batch: each entry gets the next id, in order, and the state `Waiting`. A
    /// pending request for a job is then served.
    pub fn add_to_queue(&mut self, batch: Vec<Download>) -> (r: Option<DownloaderMessage>)
        requires
            old(self).wf(),
            old(self)@.next_id + batch.len() <= i64::MAX,
        ensures
            final(self).wf(),
            final(self)@ == model_add(old(self)@, batch@).0,
            final(self).settings() == old(self).settings(),
            dispatch_matches(r, final(self)@.entries, model_add(old(self)@, batch@).1, old(self).settings()),
    {
        proof {
            lemma_admit_wf(self@, batch@);
        }
        let ghost before = self.queue@;
        let start = self.next_id;
        let n = batch.len();
        let mut i: usize = 0;
        while i < n
            invariant
                i <= n,
                n == batch@.len(),
                start == old(self).next_id,
                0 <= start,
                start + n <= i64::MAX,
                self.config == old(self).config,
                self.waiting_for_job == old(self).waiting_for_job,
                self.next_id == old(self).next_id,
                before == old(self).queue@,
                self.queue@.len() == before.len() + i,
                forall|k: int| 0 <= k < before.len() ==> #[trigger] self.queue@[k] == before[k],
                forall|k: int| 0 <= k < i ==> #[trigger] self.queue@[before.len() + k] == admitted(batch@, start as int)[k],
            decreases n - i,
        {
            let d = &batch[i];
            assert(i as i64 == i);
            let entry = Download {
                id: start + i as i64,
                track_id: d.track_id.clone(),
                title: d.title.clone(),
                subtitle: d.subtitle.clone(),
                state: DownloadState::Waiting,
            };
            self.queue.push(entry);
            i = i + 1;
        }
        assert forall|k: int| 0 <= k < self.queue@.len() implies self.queue@[k] == (before + admitted(batch@, start as int))[k] by {
            if k >= before.len() {
                let j = k - before.len();
                assert(self.queue@[before.len() + j] == admitted(batch@, start as int)[j]);
            }
        }
        assert(self.queue@ =~= before + admitted(batch@, start as int));
        self.next_id = start + n as i64;
        if self.waiting_for_job {
            self.claim()
        } else {
            None
        }
    }

    /// A worker reports a new state for the entry with id `id`: it is overwritten, and
    /// `Done` removes the entry. Nothing changes for an unknown id, nor for a state that
    /// holds a worker slot on an entry that holds none (only a served request locks an
    /// entry). A pending request for a job is then served.
    pub fn update_state(&mut self, id: i64, state: DownloadState) -> (r: Option<DownloaderMessage>)
        requires
            old(self).wf(),
        ensures
            final(self).wf(),
            final(self)@ == model_update(old(self)@, id as int, state).0,
            final(self).settings() == old(self).settings(),
            dispatch_matches(r, final(self)@.entries, model_update(old(self)@, id as int, state).1, old(self).settings()),
    {
        match find_id(&self.queue, id) {
            None => None,
            Some(i) => {
                proof {
                    lemma_first_where(self.queue@, entry_with_id(id as int));
                }
                if state.is_active() && !self.queue[i].state.is_active() {
                    return None;
                }
                proof {
                    lemma_set_wf(self@, i as int, state);
                }
                if matches!(state, DownloadState::Done) {
                    self.queue.remove(i);
                } else {
                    self.queue[i].state = state;
                }
                if self.waiting_for_job {
                    self.claim()
                } else {
                    None
                }
            },
        }
    }

    /// A snapshot of the entries, in order.
    pub fn get_downloads(&self) -> (r: Vec<Download>)
        ensures
            r@ == self@.entries,
    {
        let mut out: Vec<Download> = Vec::new();
        let mut i: usize = 0;
        while i < self.queue.len()
            invariant
                i <= self.queue.len(),
                out@ =~= self.queue@.subrange(0, i as int),
            decreases self.queue.len() - i,
        {
            out.push(self.queue[i].duplicate());
            i = i + 1;
        }
        out
    }

    /// Handles one request and says what to send: a job for the worker pool, a snapshot
    /// for the caller, or nothing.
    pub fn handle(&mut self, msg: Message) -> (r: QueueOutput)
        requires
            old(self).wf(),
            msg matches Message::AddToQueue(batch) ==> old(self)@.next_id + batch.len() <= i64::MAX,
        ensures
            final(self).wf(),
            final(self).settings() == old(self).settings(),
            match msg {
                Message::GetJob => final(self)@ == model_claim(old(self)@).0 && out_dispatch(
                    r,
                    final(self)@.entries,
                    model_claim(old(self)@).1,
                    old(self).settings(),
                ),
                Message::UpdateState(id, s) => final(self)@ == model_update(old(self)@, id as int, s).0
                    && out_dispatch(r, final(self)@.entries, model_update(old(self)@, id as int, s).1, old(self).settings()),
                Message::AddToQueue(batch) => final(self)@ == model_add(old(self)@, batch@).0 && out_dispatch(
                    r,
                    final(self)@.entries,
                    model_add(old(self)@, batch@).1,
                    old(self).settings(),
                ),
                Message::GetDownloads => final(self)@ == old(self)@ && (r matches QueueOutput::Reply(
                    Response::Downloads(d),
                ) && d@ == old(self)@.entries),
            },
    {
        match msg {
            Message::GetJob => Self::dispatch_output(self.get_job()),
            Message::UpdateState(id, s) => Self::dispatch_output(self.update_state(id, s)),
            Message::AddToQueue(batch) => Self::dispatch_output(self.add_to_queue(batch)),
            Message::GetDownloads => QueueOutput::Reply(Response::Downloads(self.get_downloads())),
        }
    }

    fn dispatch_output(job: Option<DownloaderMessage>) -> (r: QueueOutput)
        ensures
            match job {
                Some(m) => r == QueueOutput::Dispatch(m),
                None => r is Idle,
            },
    {
        match job {
            Some(m) => QueueOutput::Dispatch(m),
            None => QueueOutput::Idle,
        }
    }
}

/// Whether an output carries the job for the entry at `claimed`, or nothing when none was.
pub open spec fn out_dispatch(r: QueueOutput, entries: Seq<Download>, claimed: Option<int>, cfg: DownloaderConfig) -> bool {
    match claimed {
        Some(i) => r matches QueueOutput::Dispatch(DownloaderMessage::Job(job, c)) && job.id == entries[i].id
            && job.track_id == entries[i].track_id && c == cfg,
        None => r is Idle,
    }
}

} // verus!
