//! The scheduler: which job is admitted when, what a worker makes of each
//! thing that its process does, and how a job gets back into the queue.
//!
//! Nothing here waits, sleeps or runs a process. The caller drives the loop:
//! it asks `admit_next` what to do, runs a worker for each admitted job,
//! hands every line and exit status to that worker, and records the result.
//! The job store is passed to each operation that reads or changes it.

use crate::clock::{now, Timestamp};
use crate::gytmdl_wrapper::{
    command_args, is_valid_url, BinaryProbe, GytmdlError, GytmdlWrapper,
};
use crate::state::{
    follows_life_cycle, is_retryable_status, is_step, may_follow, position_of, reset_job,
    with_status, with_status_of, AppConfig, AppState, DownloadJob, JobStatus, JobView,
};
use crate::text::{concat, debug_quoted, joined, quote, same_text, texts};
use vstd::prelude::*;

verus! {

/// The most retries a job gets.
pub const MAX_RETRIES: u32 = 3;

/// The delay before the first retry, in milliseconds.
pub const BASE_DELAY_MS: u64 = 1000;

/// The longest delay before a retry, in milliseconds.
pub const MAX_DELAY_MS: u64 = 30000;

/// A request to run a job: its id, and how many retries went before.
#[derive(Debug, Clone)]
pub struct JobSubmission {
    pub job_id: String,
    pub retry_count: u32,
}

/// How the run of a job ended.
#[derive(Debug)]
pub enum JobResult {
    Success(String),
    Failed(String, String),
    Cancelled(String),
}

/// The queue in numbers.
#[derive(Debug, Clone, Copy, PartialEq, Eq, Structural)]
pub struct QueueStats {
    pub queued: usize,
    pub downloading: usize,
    pub completed: usize,
    pub failed: usize,
    pub cancelled: usize,
    pub total: usize,
    pub is_paused: bool,
}

/// What the admission loop is to do next.
#[derive(Debug)]
pub enum Admission {
    /// The scheduler is shut down: leave the loop.
    Stop,
    /// Admission is paused, or every worker slot is taken: idle briefly and
    /// ask again.
    Idle,
    /// No submission is waiting: wait for one and ask again.
    Wait,
    /// The next submission was taken off the queue and dropped, because its
    /// job is gone or no longer queued.
    Skip,
    /// The job was admitted: run a worker for it.
    Spawn { job: DownloadJob, retry_count: u32 },
}

/// A retry that was granted: what to submit, after waiting how long.
#[derive(Debug)]
pub struct RetryPlan {
    pub submission: JobSubmission,
    pub delay_ms: u64,
}

/// The scheduler's own books: the intake queue, the jobs that have a
/// worker, the concurrency ceiling and the two flags.
#[derive(Debug)]
pub struct QueueManager {
    gytmdl_wrapper: GytmdlWrapper,
    concurrent_limit: usize,
    pending: Vec<JobSubmission>,
    running_jobs: Vec<String>,
    is_paused: bool,
    is_shutdown: bool,
}

/// A submission as plain values: the job's id and the retry count.
pub open spec fn submission_view(s: JobSubmission) -> (Seq<char>, u32) {
    (s.job_id@, s.retry_count)
}

/// The ids with `id` among them: added at the end unless it is there.
pub open spec fn insert_id(ids: Seq<Seq<char>>, id: Seq<char>) -> Seq<Seq<char>> {
    if ids.contains(id) {
        ids
    } else {
        ids.push(id)
    }
}

/// The ids without those that `gone` holds, in their order.
pub open spec fn remove_ids(ids: Seq<Seq<char>>, gone: Seq<Seq<char>>) -> Seq<Seq<char>>
    decreases ids.len(),
{
    if ids.len() == 0 {
        ids
    } else if gone.contains(ids.last()) {
        remove_ids(ids.drop_last(), gone)
    } else {
        remove_ids(ids.drop_last(), gone).push(ids.last())
    }
}

/// Removing ids leaves no more than there were.
pub proof fn remove_ids_shrinks(ids: Seq<Seq<char>>, gone: Seq<Seq<char>>)
    ensures
        remove_ids(ids, gone).len() <= ids.len(),
    decreases ids.len(),
{
    if ids.len() > 0 {
        remove_ids_shrinks(ids.drop_last(), gone);
    }
}

/// Two to the power of `n`.
pub open spec fn pow2(n: nat) -> nat
    decreases n,
{
    if n == 0 {
        1
    } else {
        2 * pow2((n - 1) as nat)
    }
}

/// The delay before retry number `retry_count`, in milliseconds: one second
/// for the first, doubled with each further one, and never more than thirty
/// seconds.
pub open spec fn backoff_delay(retry_count: u32) -> nat {
    let doublings: nat = if retry_count == 0 {
        0
    } else {
        (retry_count - 1) as nat
    };
    if 1000 * pow2(doublings) < 30000 {
        1000 * pow2(doublings)
    } else {
        30000
    }
}

/// A job that has not ended and is not waiting for a retry: it is queued
/// or downloading.
pub open spec fn is_active_status(status: JobStatus) -> bool {
    status == JobStatus::Queued || status == JobStatus::Downloading
}

/// The ids of the jobs whose status satisfies `wanted`, in the order of the
/// jobs.
pub open spec fn ids_where(jobs: Seq<DownloadJob>, wanted: spec_fn(JobStatus) -> bool) -> Seq<
    Seq<char>,
>
    decreases jobs.len(),
{
    if jobs.len() == 0 {
        Seq::empty()
    } else if wanted(jobs.last().status) {
        ids_where(jobs.drop_last(), wanted).push(jobs.last().id@)
    } else {
        ids_where(jobs.drop_last(), wanted)
    }
}

/// The ids of the jobs that are queued or downloading.
pub open spec fn active_ids(jobs: Seq<DownloadJob>) -> Seq<Seq<char>> {
    ids_where(jobs, |s: JobStatus| is_active_status(s))
}

/// The ids of the jobs that have failed.
pub open spec fn failed_ids(jobs: Seq<DownloadJob>) -> Seq<Seq<char>> {
    ids_where(jobs, |s: JobStatus| s == JobStatus::Failed)
}

/// The job at index `p` is the one that some id of `ids` finds: the first
/// job with that id.
pub open spec fn is_found_by(jobs: Seq<DownloadJob>, ids: Seq<Seq<char>>, p: int) -> bool {
    exists|m: int| 0 <= m < ids.len() && position_of(jobs, #[trigger] ids[m]) == p
}

/// The job at index `p` was cancelled if some id of `ids` finds it, and is
/// as it was if none does.
pub open spec fn cancelled_where_found(
    before: Seq<DownloadJob>,
    after: Seq<DownloadJob>,
    ids: Seq<Seq<char>>,
    p: int,
) -> bool {
    if is_found_by(before, ids, p) {
        exists|at: Timestamp|
            after[p] == #[trigger] with_status(before[p], JobStatus::Cancelled, at)
    } else {
        after[p] == before[p]
    }
}

/// A job that a retry is granted to: failed or cancelled, with fewer than
/// the most retries on record.
pub open spec fn is_due_for_retry(job: DownloadJob) -> bool {
    is_retryable_status(job.status) && job.retry_count < MAX_RETRIES
}

/// How a job reads after a retry was granted to it: made ready for another
/// run, with one retry more on its count.
pub open spec fn retried(job: JobView) -> JobView {
    JobView { retry_count: (job.retry_count + 1) as u32, ..reset_job(job) }
}

/// The job at index `p` was made ready for a retry if some id of `ids` finds
/// it and a retry is due to it, and is as it was if not.
pub open spec fn retried_where_due(
    before: Seq<DownloadJob>,
    after: Seq<DownloadJob>,
    ids: Seq<Seq<char>>,
    p: int,
) -> bool {
    if is_found_by(before, ids, p) && is_due_for_retry(before[p]) {
        after[p]@ == retried(before[p]@) && after[p].id == before[p].id
    } else {
        after[p] == before[p]
    }
}

/// A plan as plain values: the job's id, the retry count, the delay.
pub open spec fn plan_view(plan: RetryPlan) -> (Seq<char>, u32, u64) {
    (plan.submission.job_id@, plan.submission.retry_count, plan.delay_ms)
}

/// The plans as plain values.
pub open spec fn plan_views(plans: Seq<RetryPlan>) -> Seq<(Seq<char>, u32, u64)> {
    plans.map_values(|p: RetryPlan| plan_view(p))
}

/// The retries that are granted when the ids are gone through in order:
/// an id gets one where the job that it finds is due for a retry and was not
/// found by an id before it.
pub open spec fn granted_plans(jobs: Seq<DownloadJob>, ids: Seq<Seq<char>>) -> Seq<
    (Seq<char>, u32, u64),
>
    decreases ids.len(),
{
    if ids.len() == 0 {
        Seq::empty()
    } else {
        let at = position_of(jobs, ids.last());
        if at < jobs.len() && is_due_for_retry(jobs[at]) && !is_found_by(
            jobs,
            ids.drop_last(),
            at,
        ) {
            granted_plans(jobs, ids.drop_last()).push(
                (
                    ids.last(),
                    (jobs[at].retry_count + 1) as u32,
                    backoff_delay((jobs[at].retry_count + 1) as u32) as u64,
                ),
            )
        } else {
            granted_plans(jobs, ids.drop_last())
        }
    }
}

/// Removing ids one list after the other removes the ids of both lists.
pub proof fn remove_ids_twice(ids: Seq<Seq<char>>, first: Seq<Seq<char>>, then: Seq<Seq<char>>)
    ensures
        remove_ids(remove_ids(ids, first), then) == remove_ids(ids, first + then),
    decreases ids.len(),
{
    if ids.len() > 0 {
        remove_ids_twice(ids.drop_last(), first, then);
        let x = ids.last();
        if first.contains(x) {
            let i = choose|i: int| 0 <= i < first.len() && first[i] == x;
            assert((first + then)[i] == x);
        } else if then.contains(x) {
            let i = choose|i: int| 0 <= i < then.len() && then[i] == x;
            assert((first + then)[first.len() + i] == x);
            assert(remove_ids(ids.drop_last(), first).push(x).drop_last() =~= remove_ids(
                ids.drop_last(),
                first,
            ));
        } else {
            if (first + then).contains(x) {
                let i = choose|i: int| 0 <= i < (first + then).len() && (first + then)[i] == x;
                if i < first.len() {
                    assert(first[i] == x);
                } else {
                    assert(then[i - first.len()] == x);
                }
            }
            assert(remove_ids(ids.drop_last(), first).push(x).drop_last() =~= remove_ids(
                ids.drop_last(),
                first,
            ));
        }
    }
}

/// Each text in quotes, as `debug_quoted` writes it.
pub open spec fn quoted_all(items: Seq<Seq<char>>) -> Seq<Seq<char>> {
    items.map_values(|s: Seq<char>| debug_quoted(s))
}

/// A list of texts as it is written out for inspection: the texts in
/// quotes, separated by a comma and a space, in square brackets.
pub open spec fn debug_list(items: Seq<Seq<char>>) -> Seq<char> {
    "["@ + joined(quoted_all(items), ", "@) + "]"@
}

/// Writes out a list of strings for inspection.
pub fn quote_list(items: &Vec<String>) -> (r: String)
    ensures
        r@ == debug_list(texts(items@)),
{
    let mut quoted: Vec<String> = Vec::new();
    let mut i: usize = 0;
    assert(texts(quoted@) =~= quoted_all(texts(items@).take(0)));
    while i < items.len()
        invariant
            i <= items.len(),
            texts(quoted@) == quoted_all(texts(items@).take(i as int)),
        decreases items.len() - i,
    {
        let q = quote(items[i].as_str());
        let ghost before = texts(quoted@);
        crate::text::push_string(&mut quoted, q);
        proof {
            assert(texts(items@).take(i + 1) =~= texts(items@).take(i as int).push(
                items@[i as int]@,
            ));
            assert(quoted_all(texts(items@).take(i + 1)) =~= before.push(q@));
        }
        i += 1;
    }
    proof {
        assert(texts(items@).take(items@.len() as int) =~= texts(items@));
    }
    let body = crate::text::join(&quoted, ", ");
    crate::text::concat3("[", body.as_str(), "]")
}

/// The index of `id` among `ids`.
fn index_of_id(ids: &Vec<String>, id: &str) -> (r: Option<usize>)
    ensures
        match r {
            Some(i) => i < ids@.len() && ids@[i as int]@ == id@,
            None => !texts(ids@).contains(id@),
        },
{
    let mut i: usize = 0;
    while i < ids.len()
        invariant
            i <= ids.len(),
            forall|j: int| 0 <= j < i ==> ids@[j]@ != id@,
        decreases ids.len() - i,
    {
        if same_text(ids[i].as_str(), id) {
            return Some(i);
        }
        i += 1;
    }
    proof {
        if texts(ids@).contains(id@) {
            let j = choose|j: int| 0 <= j < texts(ids@).len() && texts(ids@)[j] == id@;
            assert(ids@[j]@ == id@);
        }
    }
    None
}

/// Takes the ids that `gone` holds out of `ids`.
fn drop_ids(ids: &mut Vec<String>, gone: &Vec<String>)
    ensures
        texts(final(ids)@) == remove_ids(texts(old(ids)@), texts(gone@)),
{
    let mut all: Vec<String> = Vec::new();
    std::mem::swap(ids, &mut all);
    let ghost before = all@;
    assert(texts(ids@) =~= Seq::<Seq<char>>::empty());
    assert(texts(before.take(0)) =~= Seq::<Seq<char>>::empty());
    for id in it: all
        invariant
            it.seq() == before,
            texts(ids@) == remove_ids(texts(before.take(it.index() as int)), texts(gone@)),
    {
        proof {
            let i = it.index() as int;
            assert(texts(before.take(i + 1)).drop_last() =~= texts(before.take(i)));
            assert(texts(before.take(i + 1)).last() == id@);
        }
        let ghost kept = ids@;
        match index_of_id(gone, id.as_str()) {
            Some(k) => {
                assert(texts(gone@)[k as int] == id@);
            },
            None => {
                ids.push(id);
                assert(texts(ids@) =~= texts(kept).push(id@));
            },
        }
    }
    proof {
        assert(before.take(before.len() as int) =~= before);
    }
}

impl QueueManager {
    /// A job has one worker at most: an id stands once among the workers.
    #[verifier::type_invariant]
    spec fn workers_stand_once(self) -> bool {
        texts(self.running_jobs@).no_duplicates()
    }

    /// The concurrency ceiling.
    pub closed spec fn limit(&self) -> usize {
        self.concurrent_limit
    }

    /// The submissions that wait for admission, the oldest first.
    pub closed spec fn queue(&self) -> Seq<(Seq<char>, u32)> {
        self.pending@.map_values(|s: JobSubmission| submission_view(s))
    }

    /// The ids of the jobs that have a worker.
    pub closed spec fn workers(&self) -> Seq<Seq<char>> {
        texts(self.running_jobs@)
    }

    /// Whether admission is paused.
    pub closed spec fn paused(&self) -> bool {
        self.is_paused
    }

    /// Whether the scheduler is shut down.
    pub closed spec fn stopped(&self) -> bool {
        self.is_shutdown
    }

    /// The download tool that the workers run.
    pub closed spec fn tool(&self) -> GytmdlWrapper {
        self.gytmdl_wrapper
    }

    /// No more workers than the ceiling allows.
    pub open spec fn within_limit(&self) -> bool {
        self.workers().len() <= self.limit()
    }

    /// The scheduler and the store are in step: no two jobs share an id,
    /// every job that is downloading has a worker, no job has two, and there
    /// are no more workers than the ceiling allows.
    pub open spec fn in_step_with(&self, state: &AppState) -> bool {
        &&& has_unique_ids(state.jobs@)
        &&& downloads_have_workers(state.jobs@, self.workers())
        &&& self.workers().no_duplicates()
        &&& self.within_limit()
    }

    /// A job would be admitted now if one were waiting.
    pub open spec fn gate_open(&self) -> bool {
        !self.stopped() && !self.paused() && self.workers().len() < self.limit()
    }

    /// Everything but the intake queue and the workers is the same in `self`
    /// and `other`.
    pub open spec fn same_setup(&self, other: &QueueManager) -> bool {
        &&& self.limit() == other.limit()
        &&& self.paused() == other.paused()
        &&& self.stopped() == other.stopped()
        &&& self.tool() == other.tool()
    }

    /// A scheduler for the tool that the probe found, with nothing queued,
    /// no worker, and admission open. Fails as the search for the tool does.
    pub fn new(binary_name: &str, probe: BinaryProbe, concurrent_limit: usize) -> (r: Result<
        Self,
        GytmdlError,
    >)
        ensures
            match r {
                Ok(m) => crate::gytmdl_wrapper::detected_path(probe) == Some(m.tool().path())
                    && m.limit() == concurrent_limit && m.queue().len() == 0
                    && m.workers().len() == 0 && !m.paused() && !m.stopped(),
                Err(e) => crate::gytmdl_wrapper::detected_path(probe) is None
                    && crate::gytmdl_wrapper::is_detection_error(e, binary_name@, probe),
            },
    {
        match GytmdlWrapper::new(binary_name, probe) {
            Ok(wrapper) => Ok(Self::with_wrapper(wrapper, concurrent_limit)),
            Err(e) => Err(e),
        }
    }

    /// A scheduler for the given tool, with nothing queued, no worker, and
    /// admission open.
    pub fn with_wrapper(wrapper: GytmdlWrapper, concurrent_limit: usize) -> (m: Self)
        ensures
            m.tool() == wrapper,
            m.limit() == concurrent_limit,
            m.queue().len() == 0,
            m.workers().len() == 0,
            !m.paused(),
            !m.stopped(),
    {
        QueueManager {
            gytmdl_wrapper: wrapper,
            concurrent_limit,
            pending: Vec::new(),
            running_jobs: Vec::new(),
            is_paused: false,
            is_shutdown: false,
        }
    }

    /// The download tool that the workers run.
    pub fn wrapper(&self) -> (w: &GytmdlWrapper)
        ensures
            *w == self.tool(),
    {
        &self.gytmdl_wrapper
    }

    /// Puts a first submission of the job at the end of the intake queue.
    pub fn submit_job(&mut self, job_id: String) -> (r: Result<(), String>)
        ensures
            r is Ok,
            final(self).queue() == old(self).queue().push((job_id@, 0u32)),
            final(self).workers() == old(self).workers(),
            final(self).same_setup(old(self)),
    {
        self.enqueue(JobSubmission { job_id, retry_count: 0 });
        Ok(())
    }

    /// Puts a submission at the end of the intake queue.
    pub fn enqueue(&mut self, submission: JobSubmission)
        ensures
            final(self).queue() == old(self).queue().push(submission_view(submission)),
            final(self).workers() == old(self).workers(),
            final(self).same_setup(old(self)),
    {
        proof {
            use_type_invariant(&*self);
        }
        let mut pending: Vec<JobSubmission> = Vec::new();
        std::mem::swap(&mut pending, &mut self.pending);
        pending.push(submission);
        self.pending = pending;
        assert(self.queue() =~= old(self).queue().push(submission_view(submission)));
    }

    /// One turn of the admission loop, with the current time for the start
    /// of an admitted job.
    pub fn admit_next(&mut self, state: &mut AppState) -> (r: Admission)
        ensures
            exists|at: Timestamp| #[trigger]
                Self::admitted(old(self), final(self), old(state), final(state), r, at),
            old(self).in_step_with(old(state)) ==> final(self).in_step_with(final(state))
                && with_status_of(final(state).jobs@, JobStatus::Downloading).len()
                <= final(self).limit(),
    {
        let at = now();
        let r = self.admit_next_at(state, at);
        assert(Self::admitted(old(self), final(self), old(state), final(state), r, at));
        r
    }

    /// What one turn of the admission loop at time `at` does. A scheduler
    /// that is shut down stops; one that is paused or full idles; one with
    /// nothing queued waits. Otherwise the oldest submission leaves the
    /// queue: where its job is still queued, the job starts downloading and
    /// gets a worker; where not, the submission is dropped.
    pub open spec fn admitted(
        before: &QueueManager,
        after: &QueueManager,
        store_before: &AppState,
        store_after: &AppState,
        r: Admission,
        at: Timestamp,
    ) -> bool {
        &&& after.same_setup(before)
        &&& match r {
            Admission::Stop => before.stopped() && after.queue() == before.queue()
                && after.workers() == before.workers() && *store_after == *store_before,
            Admission::Idle => !before.stopped() && (before.paused() || before.workers().len()
                >= before.limit()) && after.queue() == before.queue() && after.workers()
                == before.workers() && *store_after == *store_before,
            Admission::Wait => before.gate_open() && before.queue().len() == 0 && after.queue()
                == before.queue() && after.workers() == before.workers() && *store_after
                == *store_before,
            Admission::Skip => before.gate_open() && before.queue().len() > 0 && after.queue()
                == before.queue().drop_first() && after.workers() == before.workers()
                && *store_after == *store_before && !(store_before.has_job(before.queue()[0].0)
                && store_before.job(before.queue()[0].0).status == JobStatus::Queued),
            Admission::Spawn { job, retry_count } => before.gate_open() && before.queue().len() > 0
                && after.queue() == before.queue().drop_first() && retry_count
                == before.queue()[0].1 && store_before.has_job(before.queue()[0].0) && job
                == store_before.job(before.queue()[0].0) && job.status == JobStatus::Queued
                && store_after.replaces_job(
                store_before,
                before.queue()[0].0,
                with_status(job, JobStatus::Downloading, at),
            ) && after.workers() == insert_id(before.workers(), before.queue()[0].0),
        }
    }

    /// One turn of the admission loop at time `at`. Where the scheduler and
    /// the store were in step they still are, and no more jobs are
    /// downloading than the ceiling allows.
    pub fn admit_next_at(&mut self, state: &mut AppState, at: Timestamp) -> (r: Admission)
        ensures
            Self::admitted(old(self), final(self), old(state), final(state), r, at),
            old(self).in_step_with(old(state)) ==> final(self).in_step_with(final(state))
                && with_status_of(final(state).jobs@, JobStatus::Downloading).len()
                <= final(self).limit(),
    {
        let r = self.turn_at(state, at);
        proof {
            use_type_invariant(&*self);
            if old(self).in_step_with(old(state)) {
                admission_keeps_downloads_with_workers(
                    old(self),
                    self,
                    old(state),
                    state,
                    r,
                    at,
                );
                admission_respects_limit(old(self), self, old(state), state, r, at);
                running_jobs_are_bounded(state, self);
            }
        }
        r
    }

    fn turn_at(&mut self, state: &mut AppState, at: Timestamp) -> (r: Admission)
        ensures
            Self::admitted(old(self), final(self), old(state), final(state), r, at),
    {
        proof {
            use_type_invariant(&*self);
        }
        if self.is_shutdown {
            return Admission::Stop;
        }
        if self.is_paused {
            return Admission::Idle;
        }
        if self.running_jobs.len() >= self.concurrent_limit {
            return Admission::Idle;
        }
        if self.pending.len() == 0 {
            return Admission::Wait;
        }
        let mut pending: Vec<JobSubmission> = Vec::new();
        std::mem::swap(&mut pending, &mut self.pending);
        let submission = pending.remove(0);
        self.pending = pending;
        assert(self.queue() =~= old(self).queue().drop_first());
        assert(old(self).queue()[0] == submission_view(submission));
        let job = match state.get_job(submission.job_id.as_str()) {
            Some(job) => job.duplicate(),
            None => {
                return Admission::Skip;
            },
        };
        if !matches!(job.status, JobStatus::Queued) {
            return Admission::Skip;
        }
        state.update_job_status_at(submission.job_id.as_str(), JobStatus::Downloading, at);
        match index_of_id(&self.running_jobs, submission.job_id.as_str()) {
            Some(i) => {
                assert(texts(self.running_jobs@)[i as int] == submission.job_id@);
            },
            None => {
                let mut running: Vec<String> = Vec::new();
                std::mem::swap(&mut running, &mut self.running_jobs);
                let ghost ids = running@;
                running.push(submission.job_id);
                assert(texts(running@) =~= texts(ids).push(submission.job_id@));
                self.running_jobs = running;
            },
        }
        Admission::Spawn { job, retry_count: submission.retry_count }
    }

    /// Forgets the workers of the given jobs, which have ended: a worker
    /// stays exactly if its job is not among them.
    pub fn reap(&mut self, finished: &Vec<String>)
        ensures
            final(self).workers() == remove_ids(old(self).workers(), texts(finished@)),
            final(self).workers().no_duplicates(),
            forall|id: Seq<char>|
                final(self).workers().contains(id) <==> old(self).workers().contains(id)
                    && !texts(finished@).contains(id),
            final(self).queue() == old(self).queue(),
            final(self).same_setup(old(self)),
    {
        self.forget_workers(finished);
    }

    /// Takes the workers of the given jobs off the books.
    fn forget_workers(&mut self, gone: &Vec<String>)
        ensures
            final(self).workers() == remove_ids(old(self).workers(), texts(gone@)),
            old(self).workers().no_duplicates(),
            final(self).workers().no_duplicates(),
            forall|id: Seq<char>|
                final(self).workers().contains(id) <==> old(self).workers().contains(id)
                    && !texts(gone@).contains(id),
            final(self).queue() == old(self).queue(),
            final(self).same_setup(old(self)),
    {
        proof {
            use_type_invariant(&*self);
            remove_ids_keeps_once(self.workers(), texts(gone@));
        }
        let mut running: Vec<String> = Vec::new();
        std::mem::swap(&mut running, &mut self.running_jobs);
        drop_ids(&mut running, gone);
        self.running_jobs = running;
    }

    /// Cancels a job: its status becomes `Cancelled` whatever it was, and its
    /// worker, if it has one, is forgotten, which takes the number of
    /// workers down by one. The caller aborts that worker. A job that the
    /// store does not hold is not an error.
    pub fn cancel_job(&mut self, state: &mut AppState, job_id: &str) -> (r: Result<(), String>)
        ensures
            r is Ok,
            old(self).in_step_with(old(state)) ==> final(self).in_step_with(final(state)),
            final(self).workers() == remove_ids(old(self).workers(), seq![job_id@]),
            final(self).workers().no_duplicates(),
            !final(self).workers().contains(job_id@),
            final(self).workers().len() == old(self).workers().len() - (if old(self).workers().contains(
                job_id@,
            ) {
                1int
            } else {
                0int
            }),
            final(self).queue() == old(self).queue(),
            final(self).same_setup(old(self)),
            old(state).has_job(job_id@) ==> exists|at: Timestamp| #[trigger]
                final(state).replaces_job(
                    old(state),
                    job_id@,
                    with_status(old(state).job(job_id@), JobStatus::Cancelled, at),
                ),
            !old(state).has_job(job_id@) ==> *final(state) == *old(state),
    {
        state.update_job_status(job_id, JobStatus::Cancelled);
        proof {
            if old(state).has_job(job_id@) {
                let at = choose|at: Timestamp| #[trigger]
                    state.status_was_set(old(state), job_id@, JobStatus::Cancelled, at);
                assert(state.replaces_job(
                    old(state),
                    job_id@,
                    with_status(old(state).job(job_id@), JobStatus::Cancelled, at),
                ));
            }
        }
        let mut gone: Vec<String> = Vec::new();
        gone.push(job_id.to_owned());
        assert(texts(gone@) =~= seq![job_id@]);
        assert(seq![job_id@][0] == job_id@);
        self.forget_workers(&gone);
        proof {
            one_id_removed(old(self).workers(), job_id@);
            if old(self).in_step_with(old(state)) {
                let before = old(state).jobs@;
                let after = state.jobs@;
                crate::state::position_of_bounds(before, job_id@);
                no_new_download_keeps_workers(before, after, old(self).workers());
                assert forall|i: int|
                    0 <= i < after.len() && (#[trigger] after[i]).status
                        == JobStatus::Downloading implies !seq![job_id@].contains(after[i].id@) by {
                    if seq![job_id@].contains(after[i].id@) {
                        let k = choose|k: int|
                            0 <= k < seq![job_id@].len() && seq![job_id@][k] == after[i].id@;
                        let at_index = position_of(before, job_id@);
                        assert(after[i].id@ == before[i].id@);
                        assert(before[at_index].id@ == job_id@);
                        if i != at_index {
                            if i < at_index {
                                assert(before[i].id@ != before[at_index].id@);
                            } else {
                                assert(before[at_index].id@ != before[i].id@);
                            }
                        }
                    }
                }
                forgetting_idle_workers_keeps_downloads(
                    after,
                    old(self).workers(),
                    seq![job_id@],
                );
                remove_ids_shrinks(old(self).workers(), seq![job_id@]);
            }
        }
        Ok(())
    }

    /// Stops admitting jobs, in the scheduler and in the store. Jobs that
    /// are running go on.
    pub fn pause(&mut self, state: &mut AppState)
        ensures
            final(self).paused(),
            final(self).limit() == old(self).limit(),
            final(self).stopped() == old(self).stopped(),
            final(self).tool() == old(self).tool(),
            final(self).queue() == old(self).queue(),
            final(self).workers() == old(self).workers(),
            final(state).is_paused,
            final(state).jobs == old(state).jobs,
            final(state).config == old(state).config,
            final(state).concurrent_limit == old(state).concurrent_limit,
    {
        proof {
            use_type_invariant(&*self);
        }
        self.is_paused = true;
        state.pause();
    }

    /// Admits jobs again, in the scheduler and in the store.
    pub fn resume(&mut self, state: &mut AppState)
        ensures
            !final(self).paused(),
            final(self).limit() == old(self).limit(),
            final(self).stopped() == old(self).stopped(),
            final(self).tool() == old(self).tool(),
            final(self).queue() == old(self).queue(),
            final(self).workers() == old(self).workers(),
            !final(state).is_paused,
            final(state).jobs == old(state).jobs,
            final(state).config == old(state).config,
            final(state).concurrent_limit == old(state).concurrent_limit,
    {
        proof {
            use_type_invariant(&*self);
        }
        self.is_paused = false;
        state.resume();
    }

    /// Whether admission is paused.
    pub fn is_paused(&self) -> (r: bool)
        ensures
            r == self.paused(),
    {
        self.is_paused
    }

    /// Whether the scheduler is shut down.
    pub fn is_shutdown(&self) -> (r: bool)
        ensures
            r == self.stopped(),
    {
        self.is_shutdown
    }

    /// How many jobs have a worker. No job is counted twice.
    pub fn running_count(&self) -> (n: usize)
        ensures
            n == self.workers().len(),
            self.workers().no_duplicates(),
    {
        proof {
            use_type_invariant(self);
        }
        self.running_jobs.len()
    }

    /// Whether the job of the given id has a worker.
    pub fn has_worker(&self, job_id: &str) -> (r: bool)
        ensures
            r == self.workers().contains(job_id@),
    {
        match index_of_id(&self.running_jobs, job_id) {
            Some(i) => {
                assert(texts(self.running_jobs@)[i as int] == job_id@);
                true
            },
            None => false,
        }
    }

    /// How many jobs of the store are queued.
    pub fn queued_count(&self, state: &AppState) -> (n: usize)
        ensures
            n == with_status_of(state.jobs@, JobStatus::Queued).len(),
    {
        state.count_jobs_by_status(&JobStatus::Queued)
    }

    /// Shuts the scheduler down and forgets every worker. Returns the ids of
    /// the jobs whose workers the caller has to abort.
    pub fn shutdown(&mut self) -> (aborted: Vec<String>)
        ensures
            final(self).stopped(),
            final(self).workers().len() == 0,
            texts(aborted@) == old(self).workers(),
            final(self).queue() == old(self).queue(),
            final(self).limit() == old(self).limit(),
            final(self).paused() == old(self).paused(),
            final(self).tool() == old(self).tool(),
    {
        proof {
            use_type_invariant(&*self);
        }
        self.is_shutdown = true;
        let mut aborted: Vec<String> = Vec::new();
        std::mem::swap(&mut self.running_jobs, &mut aborted);
        assert(texts(self.running_jobs@) =~= Seq::<Seq<char>>::empty());
        aborted
    }

    /// The ceiling on concurrent downloads.
    pub fn get_concurrent_limit(&self) -> (n: usize)
        ensures
            n == self.limit(),
    {
        self.concurrent_limit
    }

    /// Sets the ceiling on concurrent downloads, in the scheduler and in the
    /// settings of the store. A ceiling of zero is refused and changes
    /// nothing.
    pub fn set_concurrent_limit(&mut self, state: &mut AppState, limit: usize) -> (r: Result<
        (),
        String,
    >)
        ensures
            final(self).queue() == old(self).queue(),
            final(self).workers() == old(self).workers(),
            final(self).paused() == old(self).paused(),
            final(self).stopped() == old(self).stopped(),
            final(self).tool() == old(self).tool(),
            final(state).jobs == old(state).jobs,
            final(state).is_paused == old(state).is_paused,
            final(state).concurrent_limit == old(state).concurrent_limit,
            match r {
                Ok(_) => limit > 0 && final(self).limit() == limit && final(state).config == (
                AppConfig { concurrent_limit: limit, ..old(state).config }),
                Err(e) => limit == 0 && e@ == "Concurrent limit must be greater than 0"@
                    && final(self).limit() == old(self).limit() && final(state).config == old(
                    state,
                ).config,
            },
    {
        if limit == 0 {
            return Err("Concurrent limit must be greater than 0".to_owned());
        }
        proof {
            use_type_invariant(&*self);
        }
        self.concurrent_limit = limit;
        state.config.concurrent_limit = limit;
        Ok(())
    }

    /// The delay before retry number `retry_count`, in milliseconds.
    pub fn calculate_backoff_delay(retry_count: u32) -> (delay: u64)
        ensures
            delay == backoff_delay(retry_count),
    {
        let doublings: u32 = if retry_count == 0 {
            0
        } else {
            retry_count - 1
        };
        let mut delay: u64 = BASE_DELAY_MS;
        let mut i: u32 = 0;
        while i < doublings && delay < MAX_DELAY_MS
            invariant
                i <= doublings,
                delay == 1000 * pow2(i as nat),
                delay < 60000,
            decreases doublings - i,
        {
            delay = delay * 2;
            i += 1;
        }
        proof {
            pow2_grows(i as nat, doublings as nat);
        }
        if delay < MAX_DELAY_MS {
            delay
        } else {
            MAX_DELAY_MS
        }
    }

    /// The queue in numbers: the jobs of the store by status.
    pub fn get_queue_stats(&self, state: &AppState) -> (stats: QueueStats)
        ensures
            stats == (QueueStats {
                queued: with_status_of(state.jobs@, JobStatus::Queued).len() as usize,
                downloading: with_status_of(state.jobs@, JobStatus::Downloading).len() as usize,
                completed: with_status_of(state.jobs@, JobStatus::Completed).len() as usize,
                failed: with_status_of(state.jobs@, JobStatus::Failed).len() as usize,
                cancelled: with_status_of(state.jobs@, JobStatus::Cancelled).len() as usize,
                total: state.jobs@.len() as usize,
                is_paused: self.paused(),
            }),
    {
        QueueStats {
            queued: state.count_jobs_by_status(&JobStatus::Queued),
            downloading: state.count_jobs_by_status(&JobStatus::Downloading),
            completed: state.count_jobs_by_status(&JobStatus::Completed),
            failed: state.count_jobs_by_status(&JobStatus::Failed),
            cancelled: state.count_jobs_by_status(&JobStatus::Cancelled),
            total: state.jobs.len(),
            is_paused: self.is_paused,
        }
    }

    /// Grants or refuses a retry of the first job with the given id. A job
    /// that is failed or cancelled and was granted fewer than three retries
    /// is made ready for another run, with one retry more on its count, and
    /// gets a plan: the submission to put in the queue, and the delay to wait
    /// before. A refusal changes nothing.
    pub fn retry_job(&self, state: &mut AppState, job_id: String) -> (r: Result<RetryPlan, String>)
        ensures
            match r {
                Ok(plan) => {
                    &&& old(state).has_job(job_id@)
                    &&& is_due_for_retry(old(state).job(job_id@))
                    &&& plan.submission.job_id@ == job_id@
                    &&& plan.submission.retry_count == old(state).job(job_id@).retry_count + 1
                    &&& plan.delay_ms == backoff_delay(plan.submission.retry_count)
                    &&& final(state).replaces_job_like(
                        old(state),
                        job_id@,
                        retried(old(state).job(job_id@)@),
                    )
                },
                Err(e) => {
                    &&& *final(state) == *old(state)
                    &&& e@ == (if !old(state).has_job(job_id@) {
                        "Job not found"@
                    } else if !is_retryable_status(old(state).job(job_id@).status) {
                        "Job cannot be retried"@
                    } else {
                        "Maximum retry attempts exceeded"@
                    })
                    &&& (!old(state).has_job(job_id@) || !is_due_for_retry(
                        old(state).job(job_id@),
                    ))
                },
            },
    {
        let i = match state.find_index(job_id.as_str()) {
            Some(i) => i,
            None => {
                return Err("Job not found".to_owned());
            },
        };
        if !state.jobs[i].can_retry() {
            return Err("Job cannot be retried".to_owned());
        }
        let current = state.jobs[i].retry_count;
        if current >= MAX_RETRIES {
            return Err("Maximum retry attempts exceeded".to_owned());
        }
        let retry_count: u32 = current + 1;
        state.jobs[i].reset_for_retry();
        state.jobs[i].retry_count = retry_count;
        let delay_ms = Self::calculate_backoff_delay(retry_count);
        Ok(RetryPlan { submission: JobSubmission { job_id, retry_count }, delay_ms })
    }

    /// Submits every queued job of the store, in the order of the store.
    pub fn process_queued_jobs(&mut self, state: &AppState) -> (r: Result<(), String>)
        ensures
            r is Ok,
            final(self).queue() == old(self).queue() + with_status_of(
                state.jobs@,
                JobStatus::Queued,
            ).map_values(|j: DownloadJob| (j.id@, 0u32)),
            final(self).workers() == old(self).workers(),
            final(self).same_setup(old(self)),
    {
        let queued = state.get_jobs_by_status(&JobStatus::Queued);
        let ghost jobs = with_status_of(state.jobs@, JobStatus::Queued);
        let mut i: usize = 0;
        assert(self.queue() =~= old(self).queue() + jobs.take(0).map_values(
            |j: DownloadJob| (j.id@, 0u32),
        ));
        while i < queued.len()
            invariant
                i <= queued.len(),
                queued@.map_values(|j: &DownloadJob| *j) == jobs,
                self.queue() == old(self).queue() + jobs.take(i as int).map_values(
                    |j: DownloadJob| (j.id@, 0u32),
                ),
                self.workers() == old(self).workers(),
                self.same_setup(old(self)),
            decreases queued.len() - i,
        {
            let ghost before = self.queue();
            assert(queued@.map_values(|j: &DownloadJob| *j)[i as int] == *queued@[i as int]);
            let _ = self.submit_job(queued[i].id.clone());
            assert(jobs.take(i + 1).map_values(|j: DownloadJob| (j.id@, 0u32)) =~= jobs.take(
                i as int,
            ).map_values(|j: DownloadJob| (j.id@, 0u32)).push((jobs[i as int].id@, 0u32)));
            assert(self.queue() =~= old(self).queue() + jobs.take(i + 1).map_values(
                |j: DownloadJob| (j.id@, 0u32),
            ));
            i += 1;
        }
        assert(jobs.take(jobs.len() as int) =~= jobs);
        Ok(())
    }

    /// Cancels the job and removes every job of its id from the store.
    /// Fails, after the cancelling, where the store holds no such job.
    pub fn remove_job(&mut self, state: &mut AppState, job_id: &str) -> (r: Result<(), String>)
        ensures
            final(self).workers() == remove_ids(old(self).workers(), seq![job_id@]),
            final(self).queue() == old(self).queue(),
            final(self).same_setup(old(self)),
            final(state).jobs@ == crate::state::without_id(old(state).jobs@, job_id@),
            final(state).same_settings(old(state)),
            match r {
                Ok(_) => old(state).has_job(job_id@),
                Err(e) => !old(state).has_job(job_id@) && e@ == "Job not found"@,
            },
    {
        let ghost before = old(state).jobs@;
        let _ = self.cancel_job(state, job_id);
        proof {
            let mid = state.jobs@;
            crate::state::position_of_bounds(before, job_id@);
            assert(mid.len() == before.len());
            assert forall|j: int| 0 <= j < before.len() implies (#[trigger] mid[j]).id
                == before[j].id by {}
            assert forall|j: int| 0 <= j < before.len() && before[j].id@ != job_id@ implies
                #[trigger] mid[j] == before[j] by {}
            position_of_same_ids(before, mid, job_id@);
            same_ids_same_removal(before, mid, job_id@);
        }
        if state.remove_job(job_id) {
            Ok(())
        } else {
            Err("Job not found".to_owned())
        }
    }

    /// Removes the completed and the failed jobs from the store and returns
    /// how many there were. Cancelled jobs stay.
    pub fn clear_completed_jobs(&self, state: &mut AppState) -> (r: Result<usize, String>)
        ensures
            final(state).jobs@ == crate::state::unfinished(old(state).jobs@),
            final(state).same_settings(old(state)),
            r is Ok,
            r->Ok_0 == old(state).jobs@.len() - final(state).jobs@.len(),
    {
        let initial_count = state.jobs.len();
        state.clear_completed_jobs();
        proof {
            old(state).jobs@.lemma_filter_len(
                |j: DownloadJob|
                    j.status != JobStatus::Completed && j.status != JobStatus::Failed,
            );
        }
        let final_count = state.jobs.len();
        Ok(initial_count - final_count)
    }

    /// Cancels every job that is queued or downloading, one id after the
    /// other, and returns how many ids that were. For each id the first job
    /// of that id is the one cancelled.
    pub fn cancel_all_jobs(&mut self, state: &mut AppState) -> (r: Result<usize, String>)
        ensures
            r is Ok,
            r->Ok_0 == active_ids(old(state).jobs@).len(),
            final(self).workers() == remove_ids(old(self).workers(), active_ids(old(state).jobs@)),
            final(self).queue() == old(self).queue(),
            final(self).same_setup(old(self)),
            final(state).same_settings(old(state)),
            final(state).jobs@.len() == old(state).jobs@.len(),
            forall|p: int|
                0 <= p < old(state).jobs@.len() ==> #[trigger] cancelled_where_found(
                    old(state).jobs@,
                    final(state).jobs@,
                    active_ids(old(state).jobs@),
                    p,
                ),
    {
        let ids = Self::collect_ids(state, true);
        let ghost before = old(state).jobs@;
        let ghost targets = active_ids(before);
        let mut k: usize = 0;
        proof {
            assert(targets.take(0) =~= Seq::<Seq<char>>::empty());
            remove_nothing(old(self).workers());
        }
        while k < ids.len()
            invariant
                k <= ids.len(),
                texts(ids@) == targets,
                before == old(state).jobs@,
                targets == active_ids(before),
                self.workers() == remove_ids(old(self).workers(), targets.take(k as int)),
                self.queue() == old(self).queue(),
                self.same_setup(old(self)),
                state.same_settings(old(state)),
                state.jobs@.len() == before.len(),
                forall|p: int| 0 <= p < before.len() ==> (#[trigger] state.jobs@[p]).id == before[p].id,
                forall|p: int|
                    0 <= p < before.len() ==> #[trigger] cancelled_where_found(
                        before,
                        state.jobs@,
                        targets.take(k as int),
                        p,
                    ),
            decreases ids.len() - k,
        {
            let ghost mid = *state;
            let ghost mid_workers = self.workers();
            let ghost id = ids@[k as int]@;
            assert(texts(ids@)[k as int] == id);
            let _ = self.cancel_job(state, ids[k].as_str());
            proof {
                position_of_same_ids(before, mid.jobs@, id);
                crate::state::position_of_bounds(before, id);
                let pos = position_of(before, id);
                let done = targets.take(k as int);
                let next = targets.take(k + 1);
                assert(next =~= done + seq![id]);
                remove_ids_twice(old(self).workers(), done, seq![id]);
                assert forall|p: int| 0 <= p < before.len() implies (#[trigger] state.jobs@[p]).id
                    == before[p].id by {}
                assert forall|p: int| 0 <= p < before.len() implies #[trigger] cancelled_where_found(
                    before,
                    state.jobs@,
                    next,
                    p,
                ) by {
                    assert(cancelled_where_found(before, mid.jobs@, done, p));
                    if p == pos {
                        assert(next[k as int] == id);
                        assert(is_found_by(before, next, p));
                        let at = choose|at: Timestamp| #[trigger]
                            state.replaces_job(
                                &mid,
                                id,
                                with_status(mid.job(id), JobStatus::Cancelled, at),
                            );
                        if is_found_by(before, done, p) {
                            let at0 = choose|at0: Timestamp|
                                mid.jobs@[p] == #[trigger] with_status(
                                    before[p],
                                    JobStatus::Cancelled,
                                    at0,
                                );
                            assert(with_status(
                                with_status(before[p], JobStatus::Cancelled, at0),
                                JobStatus::Cancelled,
                                at,
                            ) == with_status(before[p], JobStatus::Cancelled, at));
                        }
                        assert(state.jobs@[p] == with_status(before[p], JobStatus::Cancelled, at));
                    } else {
                        assert(state.jobs@[p] == mid.jobs@[p]);
                        if is_found_by(before, next, p) {
                            let m = choose|m: int|
                                0 <= m < next.len() && position_of(before, #[trigger] next[m])
                                    == p;
                            assert(m < k);
                            assert(done[m] == next[m]);
                            assert(is_found_by(before, done, p));
                        } else {
                            if is_found_by(before, done, p) {
                                let m = choose|m: int|
                                    0 <= m < done.len() && position_of(before, #[trigger] done[m])
                                        == p;
                                assert(next[m] == done[m]);
                                assert(is_found_by(before, next, p));
                            }
                        }
                    }
                }
            }
            k += 1;
        }
        proof {
            assert(targets.take(targets.len() as int) =~= targets);
        }
        Ok(ids.len())
    }

    /// Grants a retry to every failed job, one id after the other, and returns
    /// the plans of the retries that were granted. For each id the first job
    /// of that id is the one retried; a job that has used up its retries
    /// stays as it is.
    pub fn retry_all_failed_jobs(&self, state: &mut AppState) -> (r: Result<Vec<RetryPlan>, String>)
        ensures
            r is Ok,
            plan_views(r->Ok_0@) == granted_plans(
                old(state).jobs@,
                failed_ids(old(state).jobs@),
            ),
            final(state).same_settings(old(state)),
            final(state).jobs@.len() == old(state).jobs@.len(),
            forall|p: int|
                0 <= p < old(state).jobs@.len() ==> #[trigger] retried_where_due(
                    old(state).jobs@,
                    final(state).jobs@,
                    failed_ids(old(state).jobs@),
                    p,
                ),
    {
        let ids = Self::collect_ids(state, false);
        let ghost before = old(state).jobs@;
        let ghost targets = failed_ids(before);
        let mut plans: Vec<RetryPlan> = Vec::new();
        let mut k: usize = 0;
        proof {
            assert(targets.take(0) =~= Seq::<Seq<char>>::empty());
            assert(plan_views(plans@) =~= Seq::<(Seq<char>, u32, u64)>::empty());
        }
        while k < ids.len()
            invariant
                k <= ids.len(),
                texts(ids@) == targets,
                before == old(state).jobs@,
                plan_views(plans@) == granted_plans(before, targets.take(k as int)),
                state.same_settings(old(state)),
                state.jobs@.len() == before.len(),
                forall|p: int| 0 <= p < before.len() ==> (#[trigger] state.jobs@[p]).id == before[p].id,
                forall|p: int|
                    0 <= p < before.len() ==> #[trigger] retried_where_due(
                        before,
                        state.jobs@,
                        targets.take(k as int),
                        p,
                    ),
            decreases ids.len() - k,
        {
            let ghost mid = *state;
            let ghost mid_plans = plans@;
            let ghost id = ids@[k as int]@;
            assert(texts(ids@)[k as int] == id);
            let outcome = self.retry_job(state, ids[k].clone());
            proof {
                position_of_same_ids(before, mid.jobs@, id);
                crate::state::position_of_bounds(before, id);
                let pos = position_of(before, id);
                let done = targets.take(k as int);
                let next = targets.take(k + 1);
                assert(next =~= done + seq![id]);
                assert(next[k as int] == id);
                if pos < before.len() {
                    assert(retried_where_due(before, mid.jobs@, done, pos));
                    assert(is_found_by(before, next, pos));
                }
                assert forall|p: int| 0 <= p < before.len() implies (#[trigger] state.jobs@[p]).id
                    == before[p].id by {}
                assert forall|p: int| 0 <= p < before.len() implies #[trigger] retried_where_due(
                    before,
                    state.jobs@,
                    next,
                    p,
                ) by {
                    assert(retried_where_due(before, mid.jobs@, done, p));
                    if p != pos {
                        assert(state.jobs@[p] == mid.jobs@[p]);
                        if is_found_by(before, next, p) {
                            let m = choose|m: int|
                                0 <= m < next.len() && position_of(before, #[trigger] next[m])
                                    == p;
                            assert(m < k);
                            assert(done[m] == next[m]);
                            assert(is_found_by(before, done, p));
                        } else if is_found_by(before, done, p) {
                            let m = choose|m: int|
                                0 <= m < done.len() && position_of(before, #[trigger] done[m])
                                    == p;
                            assert(next[m] == done[m]);
                            assert(is_found_by(before, next, p));
                        }
                    }
                }
            }
            proof {
                let done = targets.take(k as int);
                let next = targets.take(k + 1);
                assert(next.drop_last() =~= done);
                assert(next.last() == id);
                let pos = position_of(before, id);
                if pos < before.len() {
                    assert(retried_where_due(before, mid.jobs@, done, pos));
                }
            }
            match outcome {
                Ok(plan) => {
                    plans.push(plan);
                    assert(plan_views(plans@) =~= plan_views(mid_plans).push(plan_view(plan)));
                },
                Err(_) => {},
            }
            k += 1;
        }
        proof {
            assert(targets.take(targets.len() as int) =~= targets);
        }
        Ok(plans)
    }

    /// What a test of the binary says of the scheduler's health.
    pub fn health_check(&self, test: Result<String, GytmdlError>) -> (r: Result<String, String>)
        ensures
            match r {
                Ok(message) => test is Ok && message@
                    == "Queue manager healthy. gytmdl version: "@ + test->Ok_0@,
                Err(message) => test is Err && crate::text::has_prefix(
                    message@,
                    "Health check failed: "@ + crate::gytmdl_wrapper::error_prefix(test->Err_0),
                ) && (!(test->Err_0 is ProcessSpawnError) ==> message@
                    == "Health check failed: "@ + crate::gytmdl_wrapper::error_prefix(
                    test->Err_0,
                )),
            },
    {
        match test {
            Ok(version) => Ok(concat("Queue manager healthy. gytmdl version: ", version.as_str())),
            Err(e) => {
                let text = e.to_string();
                let message = concat("Health check failed: ", text.as_str());
                proof {
                    let head = "Health check failed: "@;
                    let p = crate::gytmdl_wrapper::error_prefix(e);
                    assert(text@.subrange(0, p.len() as int) == p);
                    assert(message@.subrange(0, (head + p).len() as int) =~= head + p);
                }
                Err(message)
            },
        }
    }

    /// Builds the argument vector for `url` without running anything, and
    /// says what the command would be.
    pub fn test_download_dry_run(&self, config: &AppConfig, url: &str, cookies_file_exists: bool) -> (r:
        Result<String, GytmdlError>)
        ensures
            match r {
                Ok(message) => is_valid_url(url@) && message@
                    == "Dry run successful. Command would be: gytmdl "@ + debug_list(
                    command_args(config@, url@, cookies_file_exists),
                ),
                Err(e) => !is_valid_url(url@) && e is InvalidUrl && e->InvalidUrl_0@ == url@,
            },
    {
        match self.gytmdl_wrapper.build_command_args(config, url, "test-dry-run", cookies_file_exists) {
            Ok(args) => {
                let list = quote_list(&args);
                Ok(concat("Dry run successful. Command would be: gytmdl ", list.as_str()))
            },
            Err(e) => Err(e),
        }
    }

    /// The ids of the jobs that are queued or downloading (`active`), or of
    /// those that have failed, in the order of the store.
    fn collect_ids(state: &AppState, active: bool) -> (ids: Vec<String>)
        ensures
            texts(ids@) == (if active {
                active_ids(state.jobs@)
            } else {
                failed_ids(state.jobs@)
            }),
    {
        let mut ids: Vec<String> = Vec::new();
        let mut i: usize = 0;
        let ghost wanted: spec_fn(JobStatus) -> bool = if active {
            |s: JobStatus| is_active_status(s)
        } else {
            |s: JobStatus| s == JobStatus::Failed
        };
        assert(texts(ids@) =~= ids_where(state.jobs@.take(0), wanted));
        while i < state.jobs.len()
            invariant
                i <= state.jobs.len(),
                wanted == (if active {
                    |s: JobStatus| is_active_status(s)
                } else {
                    |s: JobStatus| s == JobStatus::Failed
                }),
                texts(ids@) == ids_where(state.jobs@.take(i as int), wanted),
            decreases state.jobs.len() - i,
        {
            proof {
                assert(state.jobs@.take(i + 1).drop_last() =~= state.jobs@.take(i as int));
            }
            let status = state.jobs[i].status;
            let take = if active {
                matches!(status, JobStatus::Queued | JobStatus::Downloading)
            } else {
                matches!(status, JobStatus::Failed)
            };
            if take {
                crate::text::push_string(&mut ids, state.jobs[i].id.clone());
            }
            i += 1;
        }
        proof {
            assert(state.jobs@.take(state.jobs@.len() as int) =~= state.jobs@);
        }
        ids
    }

    /// A copy of the first job with the given id.
    pub fn get_job_info(&self, state: &AppState, job_id: &str) -> (r: Option<DownloadJob>)
        ensures
            match r {
                Some(job) => state.has_job(job_id@) && job == state.job(job_id@),
                None => !state.has_job(job_id@),
            },
    {
        match state.get_job(job_id) {
            Some(job) => Some(job.duplicate()),
            None => None,
        }
    }
}

/// Where two runs of jobs agree in their ids, and differ only in jobs of the
/// given id, removing that id leaves the same jobs.
pub proof fn same_ids_same_removal(a: Seq<DownloadJob>, b: Seq<DownloadJob>, id: Seq<char>)
    requires
        a.len() == b.len(),
        forall|j: int| 0 <= j < a.len() ==> (#[trigger] b[j]).id == a[j].id,
        forall|j: int| 0 <= j < a.len() && a[j].id@ != id ==> #[trigger] b[j] == a[j],
    ensures
        crate::state::without_id(b, id) == crate::state::without_id(a, id),
    decreases a.len(),
{
    reveal(Seq::filter);
    if a.len() > 0 {
        assert(b.last().id == a.last().id);
        assert forall|j: int| 0 <= j < a.drop_last().len() implies (#[trigger] b.drop_last()[j]).id
            == a.drop_last()[j].id by {
            assert(b.drop_last()[j] == b[j]);
        }
        assert forall|j: int|
            0 <= j < a.drop_last().len() && a.drop_last()[j].id@ != id implies #[trigger] b.drop_last()[j]
            == a.drop_last()[j] by {
            assert(b.drop_last()[j] == b[j]);
        }
        same_ids_same_removal(a.drop_last(), b.drop_last(), id);
        if a.last().id@ != id {
            assert(b[a.len() - 1] == a[a.len() - 1]);
        }
    }
}

/// Where two runs of jobs agree in their ids, an id is found at the same
/// place in both.
pub proof fn position_of_same_ids(a: Seq<DownloadJob>, b: Seq<DownloadJob>, id: Seq<char>)
    requires
        a.len() == b.len(),
        forall|j: int| 0 <= j < a.len() ==> (#[trigger] b[j]).id == a[j].id,
    ensures
        position_of(b, id) == position_of(a, id),
    decreases a.len(),
{
    if a.len() > 0 {
        assert(b[0].id == a[0].id);
        if a[0].id@ != id {
            assert forall|j: int| 0 <= j < a.drop_first().len() implies (
            #[trigger] b.drop_first()[j]).id == a.drop_first()[j].id by {
                assert(b.drop_first()[j] == b[j + 1]);
                assert(a.drop_first()[j] == a[j + 1]);
            }
            position_of_same_ids(a.drop_first(), b.drop_first(), id);
        }
    }
}

/// The life cycle of a job. A job is created queued. It completes only from
/// `Downloading`. From a status that is not terminal it may be cancelled and
/// it may fail. Made ready for a retry it is queued again, without an error
/// and without the time stamps of its start and its end.
pub proof fn life_cycle_law(
    from: JobStatus,
    id: Seq<char>,
    url: Seq<char>,
    created_at: Timestamp,
    job: crate::state::JobView,
)
    ensures
        crate::state::fresh_job(id, url, created_at).status == JobStatus::Queued,
        may_follow(from, JobStatus::Completed) ==> from == JobStatus::Downloading,
        !crate::state::is_terminal_status(from) ==> may_follow(from, JobStatus::Cancelled)
            && may_follow(from, JobStatus::Failed),
        may_follow(JobStatus::Failed, JobStatus::Queued),
        reset_job(job).status == JobStatus::Queued,
        reset_job(job).error is None,
        reset_job(job).started_at is None,
        reset_job(job).completed_at is None,
{
}

/// Whatever a turn of the admission loop does, every job of the store keeps
/// to its life cycle: the one job that may change goes from `Queued` to
/// `Downloading`.
pub proof fn admission_follows_life_cycle(
    before: &QueueManager,
    after: &QueueManager,
    store_before: &AppState,
    store_after: &AppState,
    r: Admission,
    at: Timestamp,
)
    requires
        QueueManager::admitted(before, after, store_before, store_after, r, at),
    ensures
        follows_life_cycle(store_before, store_after),
{
    match r {
        Admission::Spawn { job, retry_count } => {
            crate::state::position_of_bounds(store_before.jobs@, before.queue()[0].0);
        },
        _ => {},
    }
}

/// Replacing one job by a job of the same id, whose status is the old one or
/// a step on from it, keeps the store to the life cycle.
pub proof fn replacement_follows_life_cycle(
    before: &AppState,
    after: &AppState,
    id: Seq<char>,
    job: DownloadJob,
)
    requires
        after.replaces_job(before, id, job),
        job.id == before.job(id).id,
        is_step(before.job(id).status, job.status),
    ensures
        follows_life_cycle(before, after),
{
    crate::state::position_of_bounds(before.jobs@, id);
}

/// The same for a replacement that is only known by how the new job reads.
pub proof fn like_replacement_follows_life_cycle(
    before: &AppState,
    after: &AppState,
    id: Seq<char>,
    job: crate::state::JobView,
)
    requires
        after.replaces_job_like(before, id, job),
        is_step(before.job(id).status, job.status),
    ensures
        follows_life_cycle(before, after),
{
    crate::state::position_of_bounds(before.jobs@, id);
}

/// A request to the store to set a status keeps every job to its life
/// cycle, whatever status is asked for: a job is completed only from
/// `Downloading`.
pub proof fn status_setting_follows_life_cycle(
    before: &AppState,
    after: &AppState,
    id: Seq<char>,
    status: JobStatus,
    at: Timestamp,
)
    requires
        after.status_was_set(before, id, status, at),
    ensures
        follows_life_cycle(before, after),
        forall|i: int|
            0 <= i < before.jobs@.len() && (#[trigger] after.jobs@[i]).status
                == JobStatus::Completed ==> before.jobs@[i].status == JobStatus::Completed
                || before.jobs@[i].status == JobStatus::Downloading,
{
    crate::state::status_is_set_along_the_life_cycle(before.job(id)@, status, at);
    like_replacement_follows_life_cycle(
        before,
        after,
        id,
        crate::state::after_status(before.job(id)@, status, at),
    );
    crate::state::position_of_bounds(before.jobs@, id);
}

/// A retry that is granted takes a failed or cancelled job back to
/// `Queued`, within the life cycle.
pub proof fn retry_follows_life_cycle(before: &AppState, after: &AppState, id: Seq<char>)
    requires
        before.has_job(id),
        is_retryable_status(before.job(id).status),
        after.replaces_job_like(before, id, retried(before.job(id)@)),
    ensures
        follows_life_cycle(before, after),
        after.jobs@[position_of(before.jobs@, id)].status == JobStatus::Queued,
        after.jobs@[position_of(before.jobs@, id)]@.error is None,
        after.jobs@[position_of(before.jobs@, id)].started_at is None,
        after.jobs@[position_of(before.jobs@, id)].completed_at is None,
{
    like_replacement_follows_life_cycle(before, after, id, retried(before.job(id)@));
}

/// Cancelling is within the life cycle whatever the job's status was.
pub proof fn cancellation_follows_life_cycle(
    before: &AppState,
    after: &AppState,
    id: Seq<char>,
    at: Timestamp,
)
    requires
        after.replaces_job(before, id, with_status(before.job(id), JobStatus::Cancelled, at)),
    ensures
        follows_life_cycle(before, after),
{
    replacement_follows_life_cycle(
        before,
        after,
        id,
        with_status(before.job(id), JobStatus::Cancelled, at),
    );
}

/// The concurrency bound. A turn of the admission loop never takes the
/// number of workers above the ceiling: a scheduler within its limit stays
/// within it, and a job is admitted only while a slot is free.
pub proof fn admission_respects_limit(
    before: &QueueManager,
    after: &QueueManager,
    store_before: &AppState,
    store_after: &AppState,
    r: Admission,
    at: Timestamp,
)
    requires
        QueueManager::admitted(before, after, store_before, store_after, r, at),
        before.within_limit(),
    ensures
        after.within_limit(),
        r is Spawn ==> before.workers().len() < before.limit(),
        after.workers().len() <= before.workers().len() + 1,
{
}

/// Ids that stand once still do after some were removed, and an id is left
/// exactly if it was there and is not among those removed.
pub proof fn remove_ids_keeps_once(ids: Seq<Seq<char>>, gone: Seq<Seq<char>>)
    requires
        ids.no_duplicates(),
    ensures
        remove_ids(ids, gone).no_duplicates(),
        forall|id: Seq<char>|
            remove_ids(ids, gone).contains(id) <==> ids.contains(id) && !gone.contains(id),
    decreases ids.len(),
{
    if ids.len() > 0 {
        let rest = ids.drop_last();
        let last = ids.last();
        remove_ids_keeps_once(rest, gone);
        let left = remove_ids(rest, gone);
        assert forall|id: Seq<char>| rest.contains(id) implies ids.contains(id) && id != last by {
            let i = choose|i: int| 0 <= i < rest.len() && rest[i] == id;
            assert(ids[i] == id);
        }
        assert forall|id: Seq<char>| ids.contains(id) implies rest.contains(id) || id == last by {
            let i = choose|i: int| 0 <= i < ids.len() && ids[i] == id;
            if i < rest.len() {
                assert(rest[i] == id);
            }
        }
        assert(ids[ids.len() - 1] == last);
        if !gone.contains(last) {
            let after = left.push(last);
            assert forall|i: int, j: int| 0 <= i < after.len() && 0 <= j < after.len() && i
                != j implies after[i] != after[j] by {
                if i < left.len() {
                    assert(left.contains(left[i]));
                }
                if j < left.len() {
                    assert(left.contains(left[j]));
                }
            }
            assert forall|id: Seq<char>| after.contains(id) <==> ids.contains(id)
                && !gone.contains(id) by {
                if after.contains(id) {
                    let i = choose|i: int| 0 <= i < after.len() && after[i] == id;
                    if i < left.len() {
                        assert(left.contains(id));
                    }
                }
                if ids.contains(id) && !gone.contains(id) {
                    if id == last {
                        assert(after[after.len() - 1] == id);
                    } else {
                        let i = choose|i: int| 0 <= i < left.len() && left[i] == id;
                        assert(after[i] == id);
                    }
                }
            }
        }
    }
}

/// Taking one id out of ids that stand once takes the number down by one
/// where the id was there, and leaves it where not.
pub proof fn one_id_removed(ids: Seq<Seq<char>>, id: Seq<char>)
    requires
        ids.no_duplicates(),
    ensures
        remove_ids(ids, seq![id]).len() == ids.len() - (if ids.contains(id) {
            1int
        } else {
            0int
        }),
    decreases ids.len(),
{
    if ids.len() > 0 {
        let rest = ids.drop_last();
        let last = ids.last();
        one_id_removed(rest, id);
        assert(seq![id][0] == id);
        assert(ids[ids.len() - 1] == last);
        if rest.contains(id) {
            let i = choose|i: int| 0 <= i < rest.len() && rest[i] == id;
            assert(ids[i] == id);
        } else if ids.contains(id) {
            let i = choose|i: int| 0 <= i < ids.len() && ids[i] == id;
            if i < rest.len() {
                assert(rest[i] == id);
            }
        }
    }
}

/// No two jobs share an id.
pub open spec fn has_unique_ids(jobs: Seq<DownloadJob>) -> bool {
    forall|i: int, j: int|
        0 <= i < j < jobs.len() ==> (#[trigger] jobs[i]).id@ != (#[trigger] jobs[j]).id@
}

/// Every job that is downloading has a worker.
pub open spec fn downloads_have_workers(jobs: Seq<DownloadJob>, workers: Seq<Seq<char>>) -> bool {
    forall|i: int|
        0 <= i < jobs.len() && (#[trigger] jobs[i]).status == JobStatus::Downloading
            ==> workers.contains(jobs[i].id@)
}

/// Where no two jobs share an id and every downloading job has a worker,
/// there are no more downloading jobs than workers.
pub proof fn downloads_are_no_more_than_workers(jobs: Seq<DownloadJob>, workers: Seq<Seq<char>>)
    requires
        has_unique_ids(jobs),
        downloads_have_workers(jobs, workers),
        workers.no_duplicates(),
    ensures
        with_status_of(jobs, JobStatus::Downloading).len() <= workers.len(),
    decreases jobs.len(),
{
    reveal(Seq::filter);
    if jobs.len() > 0 {
        let rest = jobs.drop_last();
        let last = jobs.last();
        assert forall|i: int, j: int| 0 <= i < j < rest.len() implies (#[trigger] rest[i]).id@ != (
        #[trigger] rest[j]).id@ by {
            assert(rest[i] == jobs[i]);
            assert(rest[j] == jobs[j]);
        }
        if last.status == JobStatus::Downloading {
            let id = last.id@;
            let others = remove_ids(workers, seq![id]);
            remove_ids_keeps_once(workers, seq![id]);
            one_id_removed(workers, id);
            assert(jobs[jobs.len() - 1] == last);
            assert(workers.contains(id));
            assert forall|i: int|
                0 <= i < rest.len() && (#[trigger] rest[i]).status
                    == JobStatus::Downloading implies others.contains(rest[i].id@) by {
                assert(rest[i] == jobs[i]);
                assert(jobs[i].id@ != jobs[jobs.len() - 1].id@);
                if seq![id].contains(rest[i].id@) {
                    let k = choose|k: int| 0 <= k < seq![id].len() && seq![id][k] == rest[i].id@;
                    assert(seq![id][k] == id);
                }
            }
            downloads_are_no_more_than_workers(rest, others);
        } else {
            assert forall|i: int|
                0 <= i < rest.len() && (#[trigger] rest[i]).status
                    == JobStatus::Downloading implies workers.contains(rest[i].id@) by {
                assert(rest[i] == jobs[i]);
            }
            downloads_are_no_more_than_workers(rest, workers);
        }
    }
}

/// The concurrency bound on the jobs themselves. Where no two jobs share
/// an id, every downloading job has a worker, and the scheduler is within
/// its limit, no more jobs are downloading than the ceiling allows.
pub proof fn running_jobs_are_bounded(state: &AppState, manager: &QueueManager)
    requires
        has_unique_ids(state.jobs@),
        downloads_have_workers(state.jobs@, manager.workers()),
        manager.workers().no_duplicates(),
        manager.within_limit(),
    ensures
        with_status_of(state.jobs@, JobStatus::Downloading).len() <= manager.limit(),
{
    downloads_are_no_more_than_workers(state.jobs@, manager.workers());
}

/// A turn of the admission loop leaves every downloading job with a worker:
/// the job that it admits gets one.
pub proof fn admission_keeps_downloads_with_workers(
    before: &QueueManager,
    after: &QueueManager,
    store_before: &AppState,
    store_after: &AppState,
    r: Admission,
    at: Timestamp,
)
    requires
        QueueManager::admitted(before, after, store_before, store_after, r, at),
        has_unique_ids(store_before.jobs@),
        downloads_have_workers(store_before.jobs@, before.workers()),
    ensures
        has_unique_ids(store_after.jobs@),
        downloads_have_workers(store_after.jobs@, after.workers()),
{
    match r {
        Admission::Spawn { job, retry_count } => {
            let id = before.queue()[0].0;
            let ws = before.workers();
            crate::state::position_of_bounds(store_before.jobs@, id);
            let at_index = position_of(store_before.jobs@, id);
            assert forall|i: int|
                0 <= i < store_after.jobs@.len() && (#[trigger] store_after.jobs@[i]).status
                    == JobStatus::Downloading implies after.workers().contains(
                store_after.jobs@[i].id@,
            ) by {
                let wanted = store_after.jobs@[i].id@;
                if i == at_index {
                    if !ws.contains(id) {
                        assert(ws.push(id)[ws.len() as int] == id);
                    }
                } else {
                    assert(store_after.jobs@[i] == store_before.jobs@[i]);
                    let k = choose|k: int| 0 <= k < ws.len() && ws[k] == wanted;
                    if !ws.contains(id) {
                        assert(ws.push(id)[k] == wanted);
                    }
                }
            }
            assert forall|i: int, j: int| 0 <= i < j < store_after.jobs@.len() implies (
            #[trigger] store_after.jobs@[i]).id@ != (#[trigger] store_after.jobs@[j]).id@ by {
                assert(store_after.jobs@[i].id == store_before.jobs@[i].id);
                assert(store_after.jobs@[j].id == store_before.jobs@[j].id);
            }
        },
        _ => {},
    }
}

/// A change of the store that keeps the jobs under their ids and sets none
/// of them downloading leaves every downloading job with its worker. Such
/// are the recording of a result, a retry, and a cancellation.
pub proof fn no_new_download_keeps_workers(
    before: Seq<DownloadJob>,
    after: Seq<DownloadJob>,
    workers: Seq<Seq<char>>,
)
    requires
        after.len() == before.len(),
        forall|i: int| 0 <= i < before.len() ==> (#[trigger] after[i]).id@ == before[i].id@,
        forall|i: int|
            0 <= i < before.len() && (#[trigger] after[i]).status == JobStatus::Downloading
                ==> before[i].status == JobStatus::Downloading,
        has_unique_ids(before),
        downloads_have_workers(before, workers),
    ensures
        has_unique_ids(after),
        downloads_have_workers(after, workers),
{
    assert forall|i: int|
        0 <= i < after.len() && (#[trigger] after[i]).status
            == JobStatus::Downloading implies workers.contains(after[i].id@) by {
        assert(before[i].status == JobStatus::Downloading);
    }
    assert forall|i: int, j: int| 0 <= i < j < after.len() implies (#[trigger] after[i]).id@ != (
    #[trigger] after[j]).id@ by {
        assert(before[i].id@ != before[j].id@);
    }
}

/// Adding a job under an id that no job has, in a status other than
/// `Downloading`, leaves the ids unique and every downloading job with its
/// worker.
pub proof fn adding_a_job_keeps_downloads_with_workers(
    jobs: Seq<DownloadJob>,
    added: DownloadJob,
    workers: Seq<Seq<char>>,
)
    requires
        has_unique_ids(jobs),
        downloads_have_workers(jobs, workers),
        position_of(jobs, added.id@) == jobs.len(),
        added.status != JobStatus::Downloading,
    ensures
        has_unique_ids(jobs.push(added)),
        downloads_have_workers(jobs.push(added), workers),
{
    crate::state::position_of_bounds(jobs, added.id@);
    let after = jobs.push(added);
    assert forall|i: int, j: int| 0 <= i < j < after.len() implies (#[trigger] after[i]).id@ != (
    #[trigger] after[j]).id@ by {
        assert(after[i] == jobs[i]);
        if j < jobs.len() {
            assert(after[j] == jobs[j]);
        }
    }
    assert forall|i: int|
        0 <= i < after.len() && (#[trigger] after[i]).status
            == JobStatus::Downloading implies workers.contains(after[i].id@) by {
        if i < jobs.len() {
            assert(after[i] == jobs[i]);
        }
    }
}

/// A retry that is granted leaves every downloading job with its worker:
/// the job that is retried is queued.
pub proof fn retry_keeps_downloads_with_workers(
    before: &AppState,
    after: &AppState,
    id: Seq<char>,
    workers: Seq<Seq<char>>,
)
    requires
        before.has_job(id),
        after.replaces_job_like(before, id, retried(before.job(id)@)),
        has_unique_ids(before.jobs@),
        downloads_have_workers(before.jobs@, workers),
    ensures
        has_unique_ids(after.jobs@),
        downloads_have_workers(after.jobs@, workers),
{
    crate::state::position_of_bounds(before.jobs@, id);
    no_new_download_keeps_workers(before.jobs@, after.jobs@, workers);
}

/// Forgetting workers of jobs that are not downloading leaves every
/// downloading job with its worker. Such are the workers that are reaped
/// after their result was recorded, and the worker of a job that was
/// cancelled.
pub proof fn forgetting_idle_workers_keeps_downloads(
    jobs: Seq<DownloadJob>,
    workers: Seq<Seq<char>>,
    gone: Seq<Seq<char>>,
)
    requires
        workers.no_duplicates(),
        downloads_have_workers(jobs, workers),
        forall|i: int|
            0 <= i < jobs.len() && (#[trigger] jobs[i]).status == JobStatus::Downloading
                ==> !gone.contains(jobs[i].id@),
    ensures
        downloads_have_workers(jobs, remove_ids(workers, gone)),
{
    remove_ids_keeps_once(workers, gone);
}

/// Forgetting workers never adds one: reaping and cancelling keep a
/// scheduler within its limit.
pub proof fn removal_respects_limit(workers: Seq<Seq<char>>, gone: Seq<Seq<char>>, limit: usize)
    requires
        workers.len() <= limit,
    ensures
        remove_ids(workers, gone).len() <= limit,
{
    remove_ids_shrinks(workers, gone);
}

/// The delays of the first three retries are one, two and four seconds.
/// The delay never exceeds thirty seconds, never shrinks from one retry to
/// the next, and is thirty seconds from the sixth retry on.
pub proof fn backoff_law(k: u32, m: u32)
    ensures
        backoff_delay(1) == 1000,
        backoff_delay(2) == 2000,
        backoff_delay(3) == 4000,
        backoff_delay(k) <= 30000,
        k <= m ==> backoff_delay(k) <= backoff_delay(m),
        k >= 6 ==> backoff_delay(k) == 30000,
{
    reveal_with_fuel(pow2, 6);
    let a: nat = if k == 0 {
        0
    } else {
        (k - 1) as nat
    };
    let b: nat = if m == 0 {
        0
    } else {
        (m - 1) as nat
    };
    if k <= m {
        pow2_grows(a, b);
    }
    if k >= 6 {
        pow2_grows(5, a);
        assert(pow2(5) == 32);
    }
}

/// Removing no ids leaves all.
pub proof fn remove_nothing(ids: Seq<Seq<char>>)
    ensures
        remove_ids(ids, Seq::empty()) == ids,
    decreases ids.len(),
{
    if ids.len() > 0 {
        remove_nothing(ids.drop_last());
        assert(ids.drop_last().push(ids.last()) =~= ids);
    }
}

/// Powers of two grow with the exponent.
pub proof fn pow2_grows(a: nat, b: nat)
    requires
        a <= b,
    ensures
        pow2(a) <= pow2(b),
        pow2(a) >= 1,
    decreases b,
{
    if a < b {
        pow2_grows(a, (b - 1) as nat);
    } else if a > 0 {
        pow2_grows((a - 1) as nat, (a - 1) as nat);
    }
}

} // verus!
