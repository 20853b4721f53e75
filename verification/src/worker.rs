//! The worker of one job: what it asks its process for next, and what it
//! makes of each answer.
//!
//! A worker is driven from outside. It begins by asking for a test of the
//! binary; from then on the caller performs whatever the worker asked for
//! last (spawn the process, look whether it has exited, read a line from one
//! of its pipes, pause, wait for its exit), reports what came of it as an
//! event, and gets the next thing to do. Progress is written to the job store
//! along the way; the result of the run comes out with `Finish`.

use crate::decimal::{signed_decimal_string, signed_decimal_text};
use crate::gytmdl_wrapper::GytmdlError;
use crate::progress_parser::{
    is_error_text, parsed_output, sanitized, ProgressParser,
};
use crate::queue_manager::JobResult;
use crate::clock::{now, Timestamp};
use crate::state::{
    follows_life_cycle, may_follow, with_status, AppState, DownloadJob,
    DownloadStage, JobStatus, JobView, ProgressView,
};
use crate::decimal::Percentage;
use crate::text::{concat, concat3, concat4, debug_quoted, lowercase_of, quote};
use vstd::prelude::*;

verus! {

/// How a process ended: whether it reported success, and its exit code where
/// it has one (a process killed by a signal has none).
#[derive(Debug, Clone, Copy, PartialEq, Eq, Structural)]
pub struct ExitOutcome {
    pub success: bool,
    pub code: Option<i32>,
}

/// What the worker wants done next.
#[derive(Debug)]
pub enum WorkerAction {
    /// Run the binary with `--version`.
    TestBinary,
    /// Start the download process.
    Spawn,
    /// Look whether the process has exited, without waiting.
    CheckExit,
    /// Read the next line of standard output.
    ReadStdout,
    /// Read the next line of standard error.
    ReadStderr,
    /// Pause briefly.
    Pause,
    /// Both pipes are closed: wait for the process to exit.
    AwaitExit,
    /// The run is over.
    Finish(JobResult),
}

/// What came of the action that the worker asked for.
#[derive(Debug)]
pub enum WorkerEvent {
    BinaryTestPassed,
    /// The test of the binary failed, with this message.
    BinaryTestFailed(String),
    Spawned,
    /// The process could not be started, with this message; the flag says
    /// whether that was for want of the binary.
    SpawnFailed { binary_not_found: bool, error: String },
    StillRunning,
    Exited(ExitOutcome),
    ExitCheckFailed(String),
    StdoutLine(String),
    StdoutClosed,
    StdoutFailed(String),
    StderrLine(String),
    StderrClosed,
    StderrFailed(String),
    Paused,
    Waited(ExitOutcome),
    WaitFailed(String),
}

/// The worker of one job.
#[derive(Debug)]
pub struct Worker {
    job_id: String,
    binary_path: String,
    stdout_done: bool,
    stderr_done: bool,
}

/// The result of a run as plain values.
pub enum ResultView {
    Success(Seq<char>),
    Failed(Seq<char>, Seq<char>),
    Cancelled(Seq<char>),
}

impl View for JobResult {
    type V = ResultView;

    open spec fn view(&self) -> ResultView {
        match *self {
            JobResult::Success(id) => ResultView::Success(id@),
            JobResult::Failed(id, error) => ResultView::Failed(id@, error@),
            JobResult::Cancelled(id) => ResultView::Cancelled(id@),
        }
    }
}

/// What the worker wants done next, as plain values.
pub enum ActionView {
    TestBinary,
    Spawn,
    CheckExit,
    ReadStdout,
    ReadStderr,
    Pause,
    AwaitExit,
    Finish(ResultView),
}

impl View for WorkerAction {
    type V = ActionView;

    open spec fn view(&self) -> ActionView {
        match *self {
            WorkerAction::TestBinary => ActionView::TestBinary,
            WorkerAction::Spawn => ActionView::Spawn,
            WorkerAction::CheckExit => ActionView::CheckExit,
            WorkerAction::ReadStdout => ActionView::ReadStdout,
            WorkerAction::ReadStderr => ActionView::ReadStderr,
            WorkerAction::Pause => ActionView::Pause,
            WorkerAction::AwaitExit => ActionView::AwaitExit,
            WorkerAction::Finish(r) => ActionView::Finish(r@),
        }
    }
}

/// The progress of a job that has completed.
pub open spec fn completed_progress() -> ProgressView {
    ProgressView {
        stage: DownloadStage::Completed,
        percentage: Some(Percentage { units: 100, decimals: 0 }),
        current_step: "Download completed successfully"@,
        total_steps: None,
        current_step_index: None,
    }
}

/// The progress of a job whose worker has just started.
pub open spec fn initializing_progress() -> ProgressView {
    ProgressView {
        stage: DownloadStage::Initializing,
        percentage: None,
        current_step: "Initializing download..."@,
        total_steps: None,
        current_step_index: None,
    }
}

/// The message for a process that was found to have exited without success.
pub open spec fn exit_message(code: Option<i32>, binary_path: Seq<char>) -> Seq<char> {
    match code {
        Some(c) => if c == 2 {
            "gytmdl process failed with exit code 2. Binary path: "@ + debug_quoted(binary_path)
                + ". This usually means the binary is not working correctly or missing dependencies."@
        } else {
            "Process exited with code: "@ + signed_decimal_text(c as int) + ". Binary path: "@
                + debug_quoted(binary_path)
        },
        None => "Process was terminated by signal. Binary path: "@ + debug_quoted(binary_path),
    }
}

/// The message for a process that was waited for and ended without success.
pub open spec fn wait_message(code: Option<i32>) -> Seq<char> {
    match code {
        Some(c) => "Process exited with code: "@ + "Some("@ + signed_decimal_text(c as int) + ")"@,
        None => "Process exited with code: "@ + "None"@,
    }
}

/// The message for a process that could not be started.
pub open spec fn spawn_message(binary_not_found: bool, error: Seq<char>) -> Seq<char> {
    if binary_not_found {
        "gytmdl binary not found. Please build sidecar binaries or install gytmdl. Error: "@
            + error
    } else {
        "Failed to spawn process: "@ + error
    }
}

/// What follows a look at the process that found it running: the pipes that
/// are still open are read, standard output first.
pub open spec fn after_exit_check(stdout_done: bool, stderr_done: bool) -> ActionView {
    if !stdout_done {
        ActionView::ReadStdout
    } else if !stderr_done {
        ActionView::ReadStderr
    } else {
        ActionView::AwaitExit
    }
}

/// What follows a read of standard output.
pub open spec fn after_stdout(stdout_done: bool, stderr_done: bool) -> ActionView {
    if !stderr_done {
        ActionView::ReadStderr
    } else if stdout_done {
        ActionView::AwaitExit
    } else {
        ActionView::Pause
    }
}

/// What follows a read of standard error.
pub open spec fn after_stderr(stdout_done: bool, stderr_done: bool) -> ActionView {
    if stdout_done && stderr_done {
        ActionView::AwaitExit
    } else {
        ActionView::Pause
    }
}

/// The failure of the job with the given message.
pub open spec fn failure(job_id: Seq<char>, message: Seq<char>) -> ActionView {
    ActionView::Finish(ResultView::Failed(job_id, message))
}

impl Worker {
    /// The id of the job.
    pub closed spec fn id(&self) -> Seq<char> {
        self.job_id@
    }

    /// The path of the binary that the worker runs.
    pub closed spec fn binary(&self) -> Seq<char> {
        self.binary_path@
    }

    /// Whether standard output has reached its end.
    pub closed spec fn stdout_closed(&self) -> bool {
        self.stdout_done
    }

    /// Whether standard error has reached its end.
    pub closed spec fn stderr_closed(&self) -> bool {
        self.stderr_done
    }

    /// The worker after standard output has reached its end.
    pub open spec fn is_after_stdout_closed(&self, before: &Worker) -> bool {
        &&& self.id() == before.id()
        &&& self.binary() == before.binary()
        &&& self.stdout_closed()
        &&& self.stderr_closed() == before.stderr_closed()
    }

    /// The worker after standard error has reached its end.
    pub open spec fn is_after_stderr_closed(&self, before: &Worker) -> bool {
        &&& self.id() == before.id()
        &&& self.binary() == before.binary()
        &&& self.stderr_closed()
        &&& self.stdout_closed() == before.stdout_closed()
    }

    /// The worker is as it was before.
    pub open spec fn is_unchanged(&self, before: &Worker) -> bool {
        &&& self.id() == before.id()
        &&& self.binary() == before.binary()
        &&& self.stdout_closed() == before.stdout_closed()
        &&& self.stderr_closed() == before.stderr_closed()
    }

    /// What a line of output does to the store: where the line parses, the
    /// job's progress is replaced by what it parses to; where not, or where
    /// the job is gone, the store stays as it is.
    pub open spec fn line_recorded(
        &self,
        before: &AppState,
        after: &AppState,
        clean_line: Seq<char>,
    ) -> bool {
        match parsed_output(clean_line) {
            Some(progress) => if before.has_job(self.id()) {
                after.replaces_job_like(
                    before,
                    self.id(),
                    (JobView { progress, ..before.job(self.id())@ }),
                )
            } else {
                *after == *before
            },
            None => *after == *before,
        }
    }

    /// What the worker does with an event: the action that it asks for next,
    /// and what has changed in the worker and in the store by then.
    pub open spec fn stepped(
        &self,
        before: &Worker,
        store_before: &AppState,
        store_after: &AppState,
        event: WorkerEvent,
        action: ActionView,
    ) -> bool {
        match event {
            WorkerEvent::BinaryTestPassed => action == ActionView::Spawn && self.is_unchanged(
                before,
            ) && *store_after == *store_before,
            WorkerEvent::BinaryTestFailed(error) => action == failure(
                before.id(),
                "Binary test failed: "@ + error@ + ". Binary path: "@ + debug_quoted(
                    before.binary(),
                ),
            ) && self.is_unchanged(before) && *store_after == *store_before,
            WorkerEvent::Spawned => action == ActionView::CheckExit && self.is_unchanged(before)
                && *store_after == *store_before,
            WorkerEvent::SpawnFailed { binary_not_found, error } => action == failure(
                before.id(),
                spawn_message(binary_not_found, error@),
            ) && self.is_unchanged(before) && *store_after == *store_before,
            WorkerEvent::StillRunning => action == after_exit_check(
                before.stdout_closed(),
                before.stderr_closed(),
            ) && self.is_unchanged(before) && *store_after == *store_before,
            WorkerEvent::Exited(outcome) => action == (if outcome.success {
                ActionView::Finish(ResultView::Success(before.id()))
            } else {
                failure(before.id(), exit_message(outcome.code, before.binary()))
            }) && self.is_unchanged(before) && *store_after == *store_before,
            WorkerEvent::ExitCheckFailed(error) => action == failure(
                before.id(),
                "Error checking process status: "@ + error@,
            ) && self.is_unchanged(before) && *store_after == *store_before,
            WorkerEvent::StdoutLine(line) => action == after_stdout(
                before.stdout_closed(),
                before.stderr_closed(),
            ) && self.is_unchanged(before) && before.line_recorded(
                store_before,
                store_after,
                sanitized(line@),
            ),
            WorkerEvent::StdoutClosed => action == after_stdout(true, before.stderr_closed())
                && self.is_after_stdout_closed(before) && *store_after == *store_before,
            WorkerEvent::StdoutFailed(error) => action == failure(
                before.id(),
                "Error reading stdout: "@ + error@,
            ) && self.is_unchanged(before) && *store_after == *store_before,
            WorkerEvent::StderrLine(line) => self.is_unchanged(before) && (if is_error_text(
                lowercase_of(sanitized(line@)),
            ) {
                action == failure(before.id(), sanitized(line@)) && *store_after
                    == *store_before
            } else {
                action == after_stderr(before.stdout_closed(), before.stderr_closed())
                    && before.line_recorded(store_before, store_after, sanitized(line@))
            }),
            WorkerEvent::StderrClosed => action == after_stderr(before.stdout_closed(), true)
                && self.is_after_stderr_closed(before) && *store_after == *store_before,
            WorkerEvent::StderrFailed(error) => action == failure(
                before.id(),
                "Error reading stderr: "@ + error@,
            ) && self.is_unchanged(before) && *store_after == *store_before,
            WorkerEvent::Paused => action == ActionView::CheckExit && self.is_unchanged(before)
                && *store_after == *store_before,
            WorkerEvent::Waited(outcome) => action == (if outcome.success {
                ActionView::Finish(ResultView::Success(before.id()))
            } else {
                failure(before.id(), wait_message(outcome.code))
            }) && self.is_unchanged(before) && *store_after == *store_before,
            WorkerEvent::WaitFailed(error) => action == failure(
                before.id(),
                "Error waiting for process: "@ + error@,
            ) && self.is_unchanged(before) && *store_after == *store_before,
        }
    }

    /// Starts the worker of a job that runs the binary at `binary_path`: the
    /// job's progress is set to the initial snapshot, and the first thing
    /// asked for is a test of the binary.
    pub fn begin(state: &mut AppState, job_id: &str, binary_path: &str) -> (r: (Worker, WorkerAction))
        ensures
            r.0.id() == job_id@,
            r.0.binary() == binary_path@,
            !r.0.stdout_closed(),
            !r.0.stderr_closed(),
            r.1@ == ActionView::TestBinary,
            if old(state).has_job(job_id@) {
                final(state).replaces_job_like(
                    old(state),
                    job_id@,
                    (JobView { progress: initializing_progress(), ..old(state).job(job_id@)@ }),
                )
            } else {
                *final(state) == *old(state)
            },
    {
        let progress = ProgressParser::create_initializing_progress();
        proof {
            if old(state).has_job(job_id@) {
                let job = DownloadJob { progress, ..old(state).job(job_id@) };
                assert(job@ == (JobView {
                    progress: initializing_progress(),
                    ..old(state).job(job_id@)@
                }));
            }
        }
        state.update_job_progress(job_id, progress);
        proof {
            if old(state).has_job(job_id@) {
                crate::state::replaced_job_reads_alike(
                    state,
                    old(state),
                    job_id@,
                    (DownloadJob { progress, ..old(state).job(job_id@) }),
                );
            }
        }
        (
            Worker {
                job_id: job_id.to_owned(),
                binary_path: binary_path.to_owned(),
                stdout_done: false,
                stderr_done: false,
            },
            WorkerAction::TestBinary,
        )
    }

    /// The event for a process that could not be started with the given
    /// error.
    pub fn spawn_failure(error: &GytmdlError) -> (event: WorkerEvent)
        ensures
            event matches WorkerEvent::SpawnFailed { binary_not_found, error: text }
                && binary_not_found == (*error is BinaryNotFound)
                && crate::text::has_prefix(text@, crate::gytmdl_wrapper::error_prefix(*error))
                && (!(*error is ProcessSpawnError) ==> text@
                == crate::gytmdl_wrapper::error_prefix(*error)),
    {
        WorkerEvent::SpawnFailed {
            binary_not_found: matches!(error, GytmdlError::BinaryNotFound(_)),
            error: error.to_string(),
        }
    }

    /// The failure of this worker's job with the given message.
    fn fail(&self, message: String) -> (action: WorkerAction)
        ensures
            action@ == failure(self.id(), message@),
    {
        WorkerAction::Finish(JobResult::Failed(self.job_id.clone(), message))
    }

    /// Parses a line that is already clean and writes what it yields to the
    /// store.
    fn record_line(&self, state: &mut AppState, clean_line: &str)
        ensures
            self.line_recorded(old(state), final(state), clean_line@),
    {
        match ProgressParser::parse_output(clean_line) {
            Some(progress) => {
                state.update_job_progress(self.job_id.as_str(), progress);
                proof {
                    if old(state).has_job(self.id()) {
                        let job = DownloadJob { progress, ..old(state).job(self.id()) };
                        assert(job@ == (JobView {
                            progress: progress@,
                            ..old(state).job(self.id())@
                        }));
                        crate::state::replaced_job_reads_alike(state, old(state), self.id(), job);
                    }
                }
            },
            None => {},
        }
    }

    fn next_after_stdout(&self) -> (action: WorkerAction)
        ensures
            action@ == after_stdout(self.stdout_closed(), self.stderr_closed()),
    {
        if !self.stderr_done {
            WorkerAction::ReadStderr
        } else if self.stdout_done {
            WorkerAction::AwaitExit
        } else {
            WorkerAction::Pause
        }
    }

    fn next_after_stderr(&self) -> (action: WorkerAction)
        ensures
            action@ == after_stderr(self.stdout_closed(), self.stderr_closed()),
    {
        if self.stdout_done && self.stderr_done {
            WorkerAction::AwaitExit
        } else {
            WorkerAction::Pause
        }
    }

    fn exit_failure(&self, code: Option<i32>) -> (action: WorkerAction)
        ensures
            action@ == failure(self.id(), exit_message(code, self.binary())),
    {
        let quoted = quote(self.binary_path.as_str());
        let message = match code {
            Some(c) => {
                if c == 2 {
                    concat3(
                        "gytmdl process failed with exit code 2. Binary path: ",
                        quoted.as_str(),
                        ". This usually means the binary is not working correctly or missing dependencies.",
                    )
                } else {
                    let number = signed_decimal_string(c as i64);
                    concat4(
                        "Process exited with code: ",
                        number.as_str(),
                        ". Binary path: ",
                        quoted.as_str(),
                    )
                }
            },
            None => concat("Process was terminated by signal. Binary path: ", quoted.as_str()),
        };
        self.fail(message)
    }

    fn wait_failure(&self, code: Option<i32>) -> (action: WorkerAction)
        ensures
            action@ == failure(self.id(), wait_message(code)),
    {
        let message = match code {
            Some(c) => {
                let number = signed_decimal_string(c as i64);
                concat4("Process exited with code: ", "Some(", number.as_str(), ")")
            },
            None => concat("Process exited with code: ", "None"),
        };
        self.fail(message)
    }

    /// Takes an event and says what to do next.
    pub fn step(&mut self, state: &mut AppState, event: WorkerEvent) -> (action: WorkerAction)
        ensures
            final(self).stepped(old(self), old(state), final(state), event, action@),
    {
        match event {
            WorkerEvent::BinaryTestPassed => WorkerAction::Spawn,
            WorkerEvent::BinaryTestFailed(error) => {
                let quoted = quote(self.binary_path.as_str());
                self.fail(
                    concat4(
                        "Binary test failed: ",
                        error.as_str(),
                        ". Binary path: ",
                        quoted.as_str(),
                    ),
                )
            },
            WorkerEvent::Spawned => WorkerAction::CheckExit,
            WorkerEvent::SpawnFailed { binary_not_found, error } => {
                if binary_not_found {
                    self.fail(
                        concat(
                            "gytmdl binary not found. Please build sidecar binaries or install gytmdl. Error: ",
                            error.as_str(),
                        ),
                    )
                } else {
                    self.fail(concat("Failed to spawn process: ", error.as_str()))
                }
            },
            WorkerEvent::StillRunning => {
                if !self.stdout_done {
                    WorkerAction::ReadStdout
                } else if !self.stderr_done {
                    WorkerAction::ReadStderr
                } else {
                    WorkerAction::AwaitExit
                }
            },
            WorkerEvent::Exited(outcome) => {
                if outcome.success {
                    WorkerAction::Finish(JobResult::Success(self.job_id.clone()))
                } else {
                    self.exit_failure(outcome.code)
                }
            },
            WorkerEvent::ExitCheckFailed(error) => self.fail(
                concat("Error checking process status: ", error.as_str()),
            ),
            WorkerEvent::StdoutLine(line) => {
                let clean = ProgressParser::sanitize_output(line.as_str());
                self.record_line(state, clean.as_str());
                self.next_after_stdout()
            },
            WorkerEvent::StdoutClosed => {
                self.stdout_done = true;
                self.next_after_stdout()
            },
            WorkerEvent::StdoutFailed(error) => self.fail(
                concat("Error reading stdout: ", error.as_str()),
            ),
            WorkerEvent::StderrLine(line) => {
                let clean = ProgressParser::sanitize_output(line.as_str());
                if ProgressParser::is_error_line(clean.as_str()) {
                    self.fail(clean)
                } else {
                    self.record_line(state, clean.as_str());
                    self.next_after_stderr()
                }
            },
            WorkerEvent::StderrClosed => {
                self.stderr_done = true;
                self.next_after_stderr()
            },
            WorkerEvent::StderrFailed(error) => self.fail(
                concat("Error reading stderr: ", error.as_str()),
            ),
            WorkerEvent::Paused => WorkerAction::CheckExit,
            WorkerEvent::Waited(outcome) => {
                if outcome.success {
                    WorkerAction::Finish(JobResult::Success(self.job_id.clone()))
                } else {
                    self.wait_failure(outcome.code)
                }
            },
            WorkerEvent::WaitFailed(error) => self.fail(
                concat("Error waiting for process: ", error.as_str()),
            ),
        }
    }
}

/// What recording a result at time `at` does to the store. A success
/// completes a job that is downloading; a failure fails a job that has not
/// ended; a cancellation cancels the job whatever its status. A result that
/// the life cycle has no step for, or whose job is gone, changes nothing.
pub open spec fn recorded(
    before: &AppState,
    after: &AppState,
    job_id: Seq<char>,
    result: JobResult,
    at: Timestamp,
) -> bool {
    if !before.has_job(job_id) {
        *after == *before
    } else {
        match result {
            JobResult::Success(_) => if before.job(job_id).status == JobStatus::Downloading {
                after.replaces_job_like(
                    before,
                    job_id,
                    (JobView {
                        progress: completed_progress(),
                        ..with_status(before.job(job_id), JobStatus::Completed, at)@
                    }),
                )
            } else {
                *after == *before
            },
            JobResult::Failed(_, error) => if may_follow(
                before.job(job_id).status,
                JobStatus::Failed,
            ) {
                after.failure_was_set(before, job_id, error, at)
            } else {
                *after == *before
            },
            JobResult::Cancelled(_) => after.replaces_job(
                before,
                job_id,
                with_status(before.job(job_id), JobStatus::Cancelled, at),
            ),
        }
    }
}

/// Recording a result keeps every job to its life cycle. In particular a
/// job is completed only from `Downloading`.
pub proof fn recording_follows_life_cycle(
    before: &AppState,
    after: &AppState,
    job_id: Seq<char>,
    result: JobResult,
    at: Timestamp,
)
    requires
        recorded(before, after, job_id, result, at),
    ensures
        follows_life_cycle(before, after),
        forall|i: int|
            0 <= i < before.jobs@.len() && (#[trigger] after.jobs@[i]).status
                == JobStatus::Completed ==> before.jobs@[i].status == JobStatus::Completed
                || before.jobs@[i].status == JobStatus::Downloading,
{
    if before.has_job(job_id) {
        let job = before.job(job_id);
        match result {
            JobResult::Success(_) => {
                if job.status == JobStatus::Downloading {
                    crate::queue_manager::like_replacement_follows_life_cycle(
                        before,
                        after,
                        job_id,
                        (JobView {
                            progress: completed_progress(),
                            ..with_status(job, JobStatus::Completed, at)@
                        }),
                    );
                }
            },
            JobResult::Failed(_, error) => {
                if may_follow(job.status, JobStatus::Failed) {
                    crate::queue_manager::like_replacement_follows_life_cycle(
                        before,
                        after,
                        job_id,
                        crate::state::after_failure(job@, error@, at),
                    );
                }
            },
            JobResult::Cancelled(_) => {
                crate::queue_manager::replacement_follows_life_cycle(
                    before,
                    after,
                    job_id,
                    with_status(job, JobStatus::Cancelled, at),
                );
            },
        }
    }
}

/// Recording a result sets no job downloading: every job that is
/// downloading afterwards was so before, and has the worker that it had.
pub proof fn recording_keeps_downloads_with_workers(
    before: &AppState,
    after: &AppState,
    job_id: Seq<char>,
    result: JobResult,
    at: Timestamp,
    workers: Seq<Seq<char>>,
)
    requires
        recorded(before, after, job_id, result, at),
        crate::queue_manager::has_unique_ids(before.jobs@),
        crate::queue_manager::downloads_have_workers(before.jobs@, workers),
    ensures
        crate::queue_manager::has_unique_ids(after.jobs@),
        crate::queue_manager::downloads_have_workers(after.jobs@, workers),
{
    if before.has_job(job_id) {
        crate::state::position_of_bounds(before.jobs@, job_id);
    }
    crate::queue_manager::no_new_download_keeps_workers(before.jobs@, after.jobs@, workers);
}

/// Writes the result of a run into the store, stamped with the current time.
pub fn record_result(state: &mut AppState, job_id: &str, result: JobResult)
    ensures
        exists|at: Timestamp| #[trigger] recorded(old(state), final(state), job_id@, result, at),
{
    let at = now();
    record_result_at(state, job_id, result, at);
    assert(recorded(old(state), final(state), job_id@, result, at));
}

/// Writes the result of a run into the store, stamped with `at`.
pub fn record_result_at(state: &mut AppState, job_id: &str, result: JobResult, at: Timestamp)
    ensures
        recorded(old(state), final(state), job_id@, result, at),
{
    let i = match state.find_index(job_id) {
        Some(i) => i,
        None => {
            return ;
        },
    };
    match result {
        JobResult::Success(_) => {
            if matches!(state.jobs[i].status, JobStatus::Downloading) {
                state.jobs[i].set_status(JobStatus::Completed, at);
                state.jobs[i].progress = ProgressParser::create_completed_progress();
            }
        },
        JobResult::Failed(_, error) => {
            if matches!(state.jobs[i].status, JobStatus::Queued | JobStatus::Downloading) {
                state.set_job_error_at(job_id, error, at);
            }
        },
        JobResult::Cancelled(_) => {
            state.update_job_status_at(job_id, JobStatus::Cancelled, at);
        },
    }
}

} // verus!
