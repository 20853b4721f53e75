//! The operations that the user interface calls: a request is judged, the
//! job store and the scheduler are changed accordingly, and the answer names
//! what was refused and why.

use crate::decimal::{parse_i64, parsed_i64};
use crate::gytmdl_wrapper::{is_valid_url, GytmdlWrapper};
use crate::queue_manager::{
    backoff_delay, is_due_for_retry, remove_ids, retried, QueueManager, RetryPlan,
};
use crate::clock::Timestamp;
use crate::state::{
    fresh_job, is_retryable_status, opt_text, with_status, without_id, AppState, JobStatus,
    JobView,
};
use crate::text::{
    chars_of, find, first_occurrence, has_prefix, is_blank, slice_chars, str_is_blank,
    str_starts_with,
};
use vstd::prelude::*;

verus! {

/// The answer to a request to add a job.
#[derive(Debug, Clone)]
pub struct AddJobResponse {
    pub success: bool,
    pub job_id: Option<String>,
    pub error: Option<String>,
}

/// Why a source reference is refused, as a message; `None` where it is
/// accepted. It must not be blank, must be an HTTP or HTTPS address, and
/// must be of YouTube or YouTube Music.
pub open spec fn url_fault(url: Seq<char>) -> Option<Seq<char>> {
    if is_blank(url) {
        Some("URL cannot be empty"@)
    } else if !has_prefix(url, "http://"@) && !has_prefix(url, "https://"@) {
        Some("URL must start with http:// or https://"@)
    } else if !is_valid_url(url) {
        Some("URL must be a valid YouTube Music URL"@)
    } else {
        None
    }
}

/// The text between the first `expires in ` of a warning and the ` days`
/// that follows it.
pub open spec fn days_numeral(warning: Seq<char>) -> Option<Seq<char>> {
    match first_occurrence(warning, "expires in "@) {
        Some(i) => {
            let rest = warning.skip(i + "expires in "@.len());
            let upto = match first_occurrence(rest, "expires in "@) {
                Some(j) => rest.take(j),
                None => rest,
            };
            match first_occurrence(upto, " days"@) {
                Some(k) => Some(upto.take(k)),
                None => Some(upto),
            }
        },
        None => None,
    }
}

/// The number of days that a warning about cookies gives.
pub open spec fn warned_days(warning: Option<Seq<char>>) -> Option<i64> {
    match warning {
        Some(w) => match days_numeral(w) {
            Some(numeral) => parsed_i64(numeral),
            None => None,
        },
        None => None,
    }
}

/// Judges a source reference.
pub fn check_url(url: &str) -> (r: Result<(), String>)
    ensures
        match r {
            Ok(_) => url_fault(url@) is None,
            Err(message) => url_fault(url@) == Some(message@),
        },
{
    if str_is_blank(url) {
        return Err("URL cannot be empty".to_owned());
    }
    if !str_starts_with(url, "http://") && !str_starts_with(url, "https://") {
        return Err("URL must start with http:// or https://".to_owned());
    }
    if !GytmdlWrapper::is_valid_youtube_music_url(url) {
        return Err("URL must be a valid YouTube Music URL".to_owned());
    }
    Ok(())
}

/// The error of a job that was added while the download tool could not be
/// had.
pub const TOOL_UNAVAILABLE: &'static str =
    "Tool unavailable: the gytmdl binary could not be found or started, the download was not begun";

/// How a job reads that was added while the download tool could not be
/// had: failed at the moment of its creation, for want of the tool.
pub open spec fn failed_for_want_of_tool(id: Seq<char>, url: Seq<char>, at: Timestamp) -> JobView {
    JobView {
        status: JobStatus::Failed,
        error: Some(TOOL_UNAVAILABLE@),
        completed_at: Some(at),
        ..fresh_job(id, url, at)
    }
}

/// The answer `r` to a request to add a job for `url`, and the store after
/// it, where the source reference is refused: no job, and the reason.
pub open spec fn is_refusal(before: &AppState, after: &AppState, url: Seq<char>, r: AddJobResponse) -> bool {
    &&& url_fault(url) is Some
    &&& !r.success
    &&& r.job_id is None
    &&& opt_text(r.error) == url_fault(url)
    &&& *after == *before
}

/// The store after a job that reads as `job` was added under the id that `r`
/// names, an id that no job had before.
pub open spec fn is_added(before: &AppState, after: &AppState, r: AddJobResponse, job: JobView) -> bool {
    &&& r.job_id is Some
    &&& !before.has_job(r.job_id->0@)
    &&& after.jobs@.len() == before.jobs@.len() + 1
    &&& after.jobs@.drop_last() == before.jobs@
    &&& after.jobs@.last()@ == job
    &&& after.same_settings(before)
}

/// What a request to add a job for `url` comes to while a scheduler is
/// there. A source reference that is refused creates no job and submits
/// nothing. One that is accepted is recorded as a queued job under a new id
/// and submitted.
pub open spec fn is_submission(
    before: &AppState,
    after: &AppState,
    scheduler_before: &QueueManager,
    scheduler_after: &QueueManager,
    url: Seq<char>,
    r: AddJobResponse,
) -> bool {
    &&& scheduler_after.same_setup(scheduler_before)
    &&& scheduler_after.workers() == scheduler_before.workers()
    &&& scheduler_before.in_step_with(before) ==> scheduler_after.in_step_with(after)
    &&& if url_fault(url) is Some {
        is_refusal(before, after, url, r) && scheduler_after.queue() == scheduler_before.queue()
    } else {
        &&& r.success
        &&& r.error is None
        &&& is_added(
            before,
            after,
            r,
            fresh_job(r.job_id->0@, url, after.jobs@.last().created_at),
        )
        &&& scheduler_after.queue() == scheduler_before.queue().push((r.job_id->0@, 0u32))
    }
}

/// What a request to add a job for `url` comes to while the download tool
/// cannot be had, so that no scheduler is there and no worker will run. A
/// source reference that is refused creates no job. One that is accepted is
/// recorded as a job that has failed for want of the tool, under a new id;
/// the answer names the job and the failure.
pub open spec fn is_failed_submission(
    before: &AppState,
    after: &AppState,
    url: Seq<char>,
    r: AddJobResponse,
) -> bool {
    if url_fault(url) is Some {
        is_refusal(before, after, url, r)
    } else {
        &&& !r.success
        &&& opt_text(r.error) == Some(TOOL_UNAVAILABLE@)
        &&& is_added(
            before,
            after,
            r,
            failed_for_want_of_tool(r.job_id->0@, url, after.jobs@.last().created_at),
        )
    }
}

/// Takes a request to add a job for `url`. With a scheduler the job is
/// queued and submitted; without one, which is to say without the download
/// tool, the job is recorded as failed for want of the tool. A source
/// reference that is refused creates no job either way.
pub fn add_to_queue(state: &mut AppState, manager: Option<&mut QueueManager>, url: String) -> (r:
    AddJobResponse)
    ensures
        match manager {
            Some(scheduler) => is_submission(
                old(state),
                final(state),
                scheduler,
                final(scheduler),
                url@,
                r,
            ),
            None => is_failed_submission(old(state), final(state), url@, r),
        },
{
    match manager {
        Some(scheduler) => add_scheduled(state, scheduler, url),
        None => add_job_unscheduled(state, url),
    }
}

/// Adds a job for `url` and submits it to the scheduler.
pub fn add_scheduled(state: &mut AppState, manager: &mut QueueManager, url: String) -> (r:
    AddJobResponse)
    ensures
        is_submission(old(state), final(state), old(manager), final(manager), url@, r),
{
    match check_url(url.as_str()) {
        Ok(_) => {},
        Err(message) => {
            return AddJobResponse { success: false, job_id: None, error: Some(message) };
        },
    }
    let job_id = state.add_job(url);
    let _ = manager.submit_job(job_id.clone());
    proof {
        if old(manager).in_step_with(old(state)) {
            assert(state.jobs@ =~= old(state).jobs@.push(state.jobs@.last()));
            assert(state.jobs@.last()@.id == job_id@);
            crate::state::position_of_bounds(old(state).jobs@, job_id@);
            crate::queue_manager::adding_a_job_keeps_downloads_with_workers(
                old(state).jobs@,
                state.jobs@.last(),
                old(manager).workers(),
            );
        }
    }
    AddJobResponse { success: true, job_id: Some(job_id), error: None }
}

/// Records a job for `url` as failed for want of the download tool.
pub fn add_job_unscheduled(state: &mut AppState, url: String) -> (r: AddJobResponse)
    ensures
        is_failed_submission(old(state), final(state), url@, r),
{
    match check_url(url.as_str()) {
        Ok(_) => {},
        Err(message) => {
            return AddJobResponse { success: false, job_id: None, error: Some(message) };
        },
    }
    let id = state.fresh_id();
    let at = crate::clock::now();
    let job_id = state.add_job_with(id, url, at);
    let last: usize = state.jobs.len() - 1;
    let ghost added = state.jobs@;
    state.jobs[last].status = JobStatus::Failed;
    state.jobs[last].error = Some(TOOL_UNAVAILABLE.to_owned());
    state.jobs[last].completed_at = Some(at);
    assert(state.jobs@.drop_last() =~= added.drop_last());
    AddJobResponse { success: false, job_id: Some(job_id), error: Some(TOOL_UNAVAILABLE.to_owned()) }
}

/// Grants or refuses a retry of a job. Without a scheduler every retry of a
/// job that could be retried is refused.
pub fn retry_job(state: &mut AppState, manager: Option<&QueueManager>, job_id: String) -> (r: Result<
    RetryPlan,
    String,
>)
    ensures
        match r {
            Ok(plan) => {
                &&& manager is Some
                &&& old(state).has_job(job_id@)
                &&& is_due_for_retry(old(state).job(job_id@))
                &&& plan.submission.job_id@ == job_id@
                &&& plan.submission.retry_count == old(state).job(job_id@).retry_count + 1
                &&& plan.delay_ms == backoff_delay(plan.submission.retry_count)
                &&& final(state).replaces_job_like(
                    old(state),
                    job_id@,
                    retried(old(state).job(job_id@)@),
                )
            },
            Err(e) => {
                &&& *final(state) == *old(state)
                &&& e@ == (if !old(state).has_job(job_id@) {
                    "Job not found"@
                } else if !is_retryable_status(old(state).job(job_id@).status) {
                    "Job cannot be retried"@
                } else if manager is None {
                    "Queue manager not available"@
                } else {
                    "Maximum retry attempts exceeded"@
                })
                &&& (manager is None || !old(state).has_job(job_id@) || !is_due_for_retry(
                    old(state).job(job_id@),
                ))
            },
        },
{
    match state.get_job(job_id.as_str()) {
        Some(job) => {
            if !job.can_retry() {
                return Err("Job cannot be retried".to_owned());
            }
        },
        None => {
            return Err("Job not found".to_owned());
        },
    }
    match manager {
        Some(m) => m.retry_job(state, job_id),
        None => Err("Queue manager not available".to_owned()),
    }
}

/// Cancels a job that the store holds.
pub fn cancel_job(state: &mut AppState, manager: &mut QueueManager, job_id: &str) -> (r: Result<
    (),
    String,
>)
    ensures
        final(manager).queue() == old(manager).queue(),
        final(manager).same_setup(old(manager)),
        match r {
            Ok(_) => old(state).has_job(job_id@) && final(manager).workers() == remove_ids(
                old(manager).workers(),
                seq![job_id@],
            ) && exists|at: Timestamp| #[trigger]
                final(state).replaces_job(
                    old(state),
                    job_id@,
                    with_status(old(state).job(job_id@), JobStatus::Cancelled, at),
                ),
            Err(e) => !old(state).has_job(job_id@) && e@ == "Job not found"@ && *final(state)
                == *old(state) && final(manager).workers() == old(manager).workers(),
        },
{
    if state.get_job(job_id).is_none() {
        return Err("Job not found".to_owned());
    }
    manager.cancel_job(state, job_id)
}

/// Removes a job that the store holds, and every other job of its id.
pub fn remove_job(state: &mut AppState, job_id: &str) -> (r: Result<(), String>)
    ensures
        final(state).same_settings(old(state)),
        match r {
            Ok(_) => old(state).has_job(job_id@) && final(state).jobs@ == without_id(
                old(state).jobs@,
                job_id@,
            ),
            Err(e) => !old(state).has_job(job_id@) && e@ == "Job not found"@ && *final(state)
                == *old(state),
        },
{
    if state.get_job(job_id).is_none() {
        return Err("Job not found".to_owned());
    }
    state.remove_job(job_id);
    Ok(())
}

/// The number of days that a warning about cookies gives: the number
/// between its first `expires in ` and the ` days` after it.
pub fn days_until_expiry(warning: &Option<String>) -> (r: Option<i64>)
    ensures
        r == warned_days(opt_text(*warning)),
{
    let w = match warning {
        Some(w) => chars_of(w.as_str()),
        None => {
            return None;
        },
    };
    let marker = chars_of("expires in ");
    let i = match find(w.as_slice(), marker.as_slice()) {
        Some(i) => i,
        None => {
            return None;
        },
    };
    proof {
        crate::text::find_from_is_least(w@, marker@, 0);
        assert(crate::text::occurs_at(w@, marker@, i as int));
    }
    let end: usize = w.len();
    let from: usize = i + marker.len();
    let rest = slice_chars(w.as_slice(), from, end);
    assert(rest@ =~= w@.skip(i + marker@.len()));
    let upto = match find(rest.as_slice(), marker.as_slice()) {
        Some(j) => {
            proof {
                crate::text::find_from_is_least(rest@, marker@, 0);
            }
            let p = slice_chars(rest.as_slice(), 0, j);
            assert(p@ =~= rest@.take(j as int));
            p
        },
        None => rest,
    };
    let days = chars_of(" days");
    let numeral = match find(upto.as_slice(), days.as_slice()) {
        Some(k) => {
            proof {
                crate::text::find_from_is_least(upto@, days@, 0);
            }
            let p = slice_chars(upto.as_slice(), 0, k);
            assert(p@ =~= upto@.take(k as int));
            p
        },
        None => upto,
    };
    parse_i64(numeral.as_slice())
}

} // verus!
