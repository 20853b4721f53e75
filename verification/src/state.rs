//! Job records and the job store.
//!
//! The store is the single owner of every job record. Each operation is
//! stated over the sequence of records it holds; a job is found by its id,
//! and where two records share an id the first one is meant.
//!
//! A job moves through its statuses along a life cycle: queued, downloading,
//! and then completed, failed or cancelled; a failed or cancelled job may be
//! queued again. The store sets a status only along that cycle.

use crate::clock::{is_before, later, now, Timestamp};
use crate::decimal::Percentage;
use crate::text::same_text;
use vstd::prelude::*;

verus! {

/// Where a job stands in its life cycle.
#[derive(Debug, Clone, Copy, PartialEq, Eq, Structural)]
pub enum JobStatus {
    Queued,
    Downloading,
    Completed,
    Failed,
    Cancelled,
}

/// The coarse phase of the external tool's work.
#[derive(Debug, Clone, Copy, PartialEq, Eq, Structural)]
pub enum DownloadStage {
    Initializing,
    FetchingMetadata,
    DownloadingAudio,
    Remuxing,
    ApplyingTags,
    Finalizing,
    Completed,
    Failed,
}

/// What of a source is downloaded.
#[derive(Debug, Clone, Copy, PartialEq, Eq, Structural)]
pub enum DownloadMode {
    Audio,
    Video,
    AudioVideo,
}

/// The image format in which covers are saved.
#[derive(Debug, Clone, Copy, PartialEq, Eq, Structural)]
pub enum CoverFormat {
    Jpg,
    Png,
    Webp,
}

/// A progress snapshot of one job.
#[derive(Debug, Clone)]
pub struct Progress {
    pub stage: DownloadStage,
    pub percentage: Option<Percentage>,
    pub current_step: String,
    pub total_steps: Option<u32>,
    pub current_step_index: Option<u32>,
}

/// What is known of the track a job downloads.
#[derive(Debug, Clone)]
pub struct JobMetadata {
    pub title: Option<String>,
    pub artist: Option<String>,
    pub album: Option<String>,
    pub duration: Option<u32>,
    pub thumbnail: Option<String>,
}

/// One requested download.
#[derive(Debug, Clone)]
pub struct DownloadJob {
    pub id: String,
    pub url: String,
    pub status: JobStatus,
    pub progress: Progress,
    pub metadata: Option<JobMetadata>,
    pub error: Option<String>,
    pub created_at: Timestamp,
    pub started_at: Option<Timestamp>,
    pub completed_at: Option<Timestamp>,
    /// How many retries the job was granted.
    pub retry_count: u32,
}

/// The settings a download runs with. Paths are held as text.
#[derive(Debug, Clone)]
pub struct AppConfig {
    pub output_path: String,
    pub temp_path: String,
    pub cookies_path: Option<String>,
    pub itag: String,
    pub download_mode: DownloadMode,
    pub concurrent_limit: usize,
    pub cover_size: u32,
    pub cover_format: CoverFormat,
    pub cover_quality: u8,
    pub template_folder: String,
    pub template_file: String,
    pub template_date: String,
    pub po_token: Option<String>,
    pub exclude_tags: Option<String>,
    pub truncate: Option<u32>,
    pub save_cover: bool,
    pub overwrite: bool,
    pub no_synced_lyrics: bool,
}

/// The job store: every job record, the settings, and the queue-wide flags.
#[derive(Debug, Clone)]
pub struct AppState {
    pub jobs: Vec<DownloadJob>,
    pub config: AppConfig,
    pub is_paused: bool,
    pub concurrent_limit: usize,
}

/// The text of an optional string.
pub open spec fn opt_text(o: Option<String>) -> Option<Seq<char>> {
    match o {
        Some(s) => Some(s@),
        None => None,
    }
}

/// A progress snapshot as plain values.
pub struct ProgressView {
    pub stage: DownloadStage,
    pub percentage: Option<Percentage>,
    pub current_step: Seq<char>,
    pub total_steps: Option<u32>,
    pub current_step_index: Option<u32>,
}

impl View for Progress {
    type V = ProgressView;

    open spec fn view(&self) -> ProgressView {
        ProgressView {
            stage: self.stage,
            percentage: self.percentage,
            current_step: self.current_step@,
            total_steps: self.total_steps,
            current_step_index: self.current_step_index,
        }
    }
}

/// The view of an optional progress snapshot.
pub open spec fn opt_progress(o: Option<Progress>) -> Option<ProgressView> {
    match o {
        Some(p) => Some(p@),
        None => None,
    }
}

/// The metadata of a job as plain values.
pub struct MetadataView {
    pub title: Option<Seq<char>>,
    pub artist: Option<Seq<char>>,
    pub album: Option<Seq<char>>,
    pub duration: Option<u32>,
    pub thumbnail: Option<Seq<char>>,
}

impl View for JobMetadata {
    type V = MetadataView;

    open spec fn view(&self) -> MetadataView {
        MetadataView {
            title: opt_text(self.title),
            artist: opt_text(self.artist),
            album: opt_text(self.album),
            duration: self.duration,
            thumbnail: opt_text(self.thumbnail),
        }
    }
}

/// A job record as plain values.
pub struct JobView {
    pub id: Seq<char>,
    pub url: Seq<char>,
    pub status: JobStatus,
    pub progress: ProgressView,
    pub metadata: Option<MetadataView>,
    pub error: Option<Seq<char>>,
    pub created_at: Timestamp,
    pub started_at: Option<Timestamp>,
    pub completed_at: Option<Timestamp>,
    pub retry_count: u32,
}

impl View for DownloadJob {
    type V = JobView;

    open spec fn view(&self) -> JobView {
        JobView {
            id: self.id@,
            url: self.url@,
            status: self.status,
            progress: self.progress@,
            metadata: match self.metadata {
                Some(m) => Some(m@),
                None => None,
            },
            error: opt_text(self.error),
            created_at: self.created_at,
            started_at: self.started_at,
            completed_at: self.completed_at,
            retry_count: self.retry_count,
        }
    }
}

/// The settings as plain values.
pub struct ConfigView {
    pub output_path: Seq<char>,
    pub temp_path: Seq<char>,
    pub cookies_path: Option<Seq<char>>,
    pub itag: Seq<char>,
    pub download_mode: DownloadMode,
    pub concurrent_limit: usize,
    pub cover_size: u32,
    pub cover_format: CoverFormat,
    pub cover_quality: u8,
    pub template_folder: Seq<char>,
    pub template_file: Seq<char>,
    pub template_date: Seq<char>,
    pub po_token: Option<Seq<char>>,
    pub exclude_tags: Option<Seq<char>>,
    pub truncate: Option<u32>,
    pub save_cover: bool,
    pub overwrite: bool,
    pub no_synced_lyrics: bool,
}

impl View for AppConfig {
    type V = ConfigView;

    open spec fn view(&self) -> ConfigView {
        ConfigView {
            output_path: self.output_path@,
            temp_path: self.temp_path@,
            cookies_path: opt_text(self.cookies_path),
            itag: self.itag@,
            download_mode: self.download_mode,
            concurrent_limit: self.concurrent_limit,
            cover_size: self.cover_size,
            cover_format: self.cover_format,
            cover_quality: self.cover_quality,
            template_folder: self.template_folder@,
            template_file: self.template_file@,
            template_date: self.template_date@,
            po_token: opt_text(self.po_token),
            exclude_tags: opt_text(self.exclude_tags),
            truncate: self.truncate,
            save_cover: self.save_cover,
            overwrite: self.overwrite,
            no_synced_lyrics: self.no_synced_lyrics,
        }
    }
}

/// The settings a fresh store starts with.
pub open spec fn default_config() -> ConfigView {
    ConfigView {
        output_path: "./downloads"@,
        temp_path: "./temp"@,
        cookies_path: None,
        itag: "141"@,
        download_mode: DownloadMode::Audio,
        concurrent_limit: 3,
        cover_size: 1400,
        cover_format: CoverFormat::Jpg,
        cover_quality: 95,
        template_folder: "{album_artist}/{album}"@,
        template_file: "{track:02d} {title}"@,
        template_date: "%Y-%m-%d"@,
        po_token: None,
        exclude_tags: None,
        truncate: None,
        save_cover: true,
        overwrite: false,
        no_synced_lyrics: false,
    }
}

/// The progress of a job that has not reported anything yet.
pub open spec fn initial_progress() -> ProgressView {
    ProgressView {
        stage: DownloadStage::Initializing,
        percentage: None,
        current_step: "Initializing..."@,
        total_steps: None,
        current_step_index: None,
    }
}

/// A job as it is created: queued, with nothing reported, no retry granted
/// and no time stamps but that of its creation.
pub open spec fn fresh_job(id: Seq<char>, url: Seq<char>, created_at: Timestamp) -> JobView {
    JobView {
        id,
        url,
        status: JobStatus::Queued,
        progress: initial_progress(),
        metadata: None,
        error: None,
        created_at,
        started_at: None,
        completed_at: None,
        retry_count: 0,
    }
}

/// The reason that a job gets which is set to `Failed` without one.
pub const UNSTATED_FAILURE: &'static str = "Job failed";

/// The steps that the life cycle of a job allows: admission takes a queued
/// job to `Downloading`; only a downloading job completes; a job that has
/// not ended may fail; any job may be cancelled; a failed or cancelled job
/// may be queued again.
pub open spec fn may_follow(from: JobStatus, to: JobStatus) -> bool {
    match to {
        JobStatus::Queued => from == JobStatus::Failed || from == JobStatus::Cancelled,
        JobStatus::Downloading => from == JobStatus::Queued,
        JobStatus::Completed => from == JobStatus::Downloading,
        JobStatus::Failed => from == JobStatus::Queued || from == JobStatus::Downloading,
        JobStatus::Cancelled => true,
    }
}

/// A status may be set where it is the status that the job has, or a step
/// on from it.
pub open spec fn is_step(from: JobStatus, to: JobStatus) -> bool {
    from == to || may_follow(from, to)
}

/// From `before` to `after` the store kept its jobs, each under its id, and
/// each job kept its status or took a step that the life cycle allows.
pub open spec fn follows_life_cycle(before: &AppState, after: &AppState) -> bool {
    &&& after.jobs@.len() == before.jobs@.len()
    &&& forall|i: int|
        0 <= i < before.jobs@.len() ==> {
            &&& (#[trigger] after.jobs@[i]).id == before.jobs@[i].id
            &&& is_step(before.jobs@[i].status, after.jobs@[i].status)
        }
}

/// `Completed`, `Failed` and `Cancelled` end a run of a job.
pub open spec fn is_terminal_status(status: JobStatus) -> bool {
    status == JobStatus::Completed || status == JobStatus::Failed || status
        == JobStatus::Cancelled
}

/// Only a failed or cancelled job may be queued again.
pub open spec fn is_retryable_status(status: JobStatus) -> bool {
    status == JobStatus::Failed || status == JobStatus::Cancelled
}

/// `job` after its status is set to `status` at time `at`: the first entry
/// into `Downloading` stamps `started_at`, every entry into a terminal status
/// stamps `completed_at`, and an error stays only with a job that is failed.
/// Nothing else changes. A stamp is never earlier than the job's creation:
/// where `at` is, the time of creation is taken.
pub open spec fn with_status(job: DownloadJob, status: JobStatus, at: Timestamp) -> DownloadJob {
    DownloadJob {
        status,
        error: if status == JobStatus::Failed {
            job.error
        } else {
            None
        },
        started_at: if status == JobStatus::Downloading && job.started_at is None {
            Some(later(at, job.created_at))
        } else {
            job.started_at
        },
        completed_at: if is_terminal_status(status) {
            Some(later(at, job.created_at))
        } else {
            job.completed_at
        },
        ..job
    }
}

/// `job` after a request to set its status to `status` at time `at`. A
/// request that is no step of the life cycle leaves the job as it is.
pub open spec fn stepped(job: DownloadJob, status: JobStatus, at: Timestamp) -> DownloadJob {
    if is_step(job.status, status) {
        with_status(job, status, at)
    } else {
        job
    }
}

/// How a job reads after a request to set its status to `status` at time
/// `at`. A request that is no step of the life cycle leaves the job as it
/// is. A job that is set to `Failed` and has no error, or an empty one,
/// gets the unstated reason for one.
pub open spec fn after_status(job: JobView, status: JobStatus, at: Timestamp) -> JobView {
    if !is_step(job.status, status) {
        job
    } else {
        JobView {
            status,
            error: if status == JobStatus::Failed {
                match job.error {
                    Some(reason) => Some(stated_reason(reason)),
                    None => Some(UNSTATED_FAILURE@),
                }
            } else {
                None
            },
            started_at: if status == JobStatus::Downloading && job.started_at is None {
                Some(later(at, job.created_at))
            } else {
                job.started_at
            },
            completed_at: if is_terminal_status(status) {
                Some(later(at, job.created_at))
            } else {
                job.completed_at
            },
            ..job
        }
    }
}

/// Setting a status keeps to the life cycle: the job keeps its status or
/// takes a step on. It completes only from `Downloading`, and it is failed
/// only with an error.
pub proof fn status_is_set_along_the_life_cycle(job: JobView, status: JobStatus, at: Timestamp)
    ensures
        is_step(job.status, after_status(job, status, at).status),
        after_status(job, status, at).status == JobStatus::Completed ==> job.status
            == JobStatus::Completed || job.status == JobStatus::Downloading,
        job.status != JobStatus::Failed && after_status(job, status, at).status
            == JobStatus::Failed ==> after_status(job, status, at).error is Some,
        is_error_of_failure(job) ==> is_error_of_failure(after_status(job, status, at)),
        is_well_stamped(job) ==> is_well_stamped(after_status(job, status, at)),
{
}

/// Cancelling a job that is queued or downloading, and has no error as such
/// a job should, changes its status and stamps its end, and nothing else.
pub proof fn cancelling_changes_status_and_stamp_only(job: JobView, at: Timestamp)
    requires
        job.status == JobStatus::Queued || job.status == JobStatus::Downloading,
        is_error_of_failure(job),
    ensures
        after_status(job, JobStatus::Cancelled, at) == (JobView {
            status: JobStatus::Cancelled,
            completed_at: Some(later(at, job.created_at)),
            ..job
        }),
        !is_before(later(at, job.created_at), job.created_at),
{
}

/// `job` after it failed with `error` at time `at`, or at the time of its
/// creation where `at` is earlier.
pub open spec fn with_error(job: DownloadJob, error: String, at: Timestamp) -> DownloadJob {
    DownloadJob {
        error: Some(error),
        status: JobStatus::Failed,
        completed_at: Some(later(at, job.created_at)),
        ..job
    }
}

/// The job has an error that says something.
pub open spec fn has_reason(job: DownloadJob) -> bool {
    job.error is Some && job.error->0@.len() > 0
}

/// The reason that a failure is recorded with: the message, and the
/// unstated reason in place of an empty one.
pub open spec fn stated_reason(message: Seq<char>) -> Seq<char> {
    if message.len() == 0 {
        UNSTATED_FAILURE@
    } else {
        message
    }
}

/// How a job reads after it failed with `message` at time `at`, or at the
/// time of its creation where `at` is earlier.
pub open spec fn after_failure(job: JobView, message: Seq<char>, at: Timestamp) -> JobView {
    JobView {
        error: Some(stated_reason(message)),
        status: JobStatus::Failed,
        completed_at: Some(later(at, job.created_at)),
        ..job
    }
}

/// A job that is failed has an error, and the error says something.
pub open spec fn has_reason_if_failed(job: JobView) -> bool {
    job.status == JobStatus::Failed ==> job.error is Some && job.error->0.len() > 0
}

/// A failure has a reason. A job that failed with a message has a reason
/// that is not empty, whatever the message; a job as it is created, and a
/// job made ready for a retry, is not failed; and a job that had a reason
/// if it was failed still has one after any request to set its status.
pub proof fn a_failure_has_a_reason(
    job: JobView,
    message: Seq<char>,
    status: JobStatus,
    at: Timestamp,
    id: Seq<char>,
    url: Seq<char>,
)
    ensures
        has_reason_if_failed(after_failure(job, message, at)),
        has_reason_if_failed(fresh_job(id, url, at)),
        has_reason_if_failed(reset_job(job)),
        has_reason_if_failed(job) ==> has_reason_if_failed(after_status(job, status, at)),
{
    reveal_strlit("Job failed");
}

/// The job started and ended, as far as it did, no earlier than it was
/// created.
pub open spec fn is_well_stamped(job: JobView) -> bool {
    &&& job.started_at is Some ==> !is_before(job.started_at->0, job.created_at)
    &&& job.completed_at is Some ==> !is_before(job.completed_at->0, job.created_at)
}

/// The job has an error only if it is failed.
pub open spec fn is_error_of_failure(job: JobView) -> bool {
    job.error is Some ==> job.status == JobStatus::Failed
}

/// An error belongs to a failed job. A job as it is created has none, and
/// whatever is done to a job's status, only a failed job is left with one.
pub proof fn errors_belong_to_failures(
    job: DownloadJob,
    status: JobStatus,
    error: String,
    at: Timestamp,
    id: Seq<char>,
    url: Seq<char>,
)
    ensures
        is_error_of_failure(fresh_job(id, url, at)),
        is_error_of_failure(with_status(job, status, at)@),
        is_error_of_failure(with_error(job, error, at)@),
        is_error_of_failure(reset_job(job@)),
{
}

/// The stamps stay in order. A job as it is created is well stamped, and a
/// job that is well stamped stays so through every change of its status,
/// through a failure, and through being made ready for a retry, whatever
/// the clock reads.
pub proof fn stamps_stay_in_order(
    job: DownloadJob,
    status: JobStatus,
    error: String,
    at: Timestamp,
    id: Seq<char>,
    url: Seq<char>,
)
    ensures
        is_well_stamped(fresh_job(id, url, at)),
        is_well_stamped(job@) ==> is_well_stamped(with_status(job, status, at)@),
        is_well_stamped(job@) ==> is_well_stamped(with_error(job, error, at)@),
        is_well_stamped(reset_job(job@)),
{
}

/// `job` made ready for another run: queued again, with its error, its time
/// stamps of start and end, and its progress cleared.
pub open spec fn reset_job(job: JobView) -> JobView {
    JobView {
        status: JobStatus::Queued,
        progress: initial_progress(),
        error: None,
        started_at: None,
        completed_at: None,
        ..job
    }
}

/// The index of the first job with the given id, or `jobs.len()` when no job
/// has it.
pub open spec fn position_of(jobs: Seq<DownloadJob>, id: Seq<char>) -> int
    decreases jobs.len(),
{
    if jobs.len() == 0 || jobs[0].id@ == id {
        0
    } else {
        1 + position_of(jobs.drop_first(), id)
    }
}

/// The jobs whose id differs from `id`, in their order.
pub open spec fn without_id(jobs: Seq<DownloadJob>, id: Seq<char>) -> Seq<DownloadJob> {
    jobs.filter(|j: DownloadJob| j.id@ != id)
}

/// The jobs in the given status, in their order.
pub open spec fn with_status_of(jobs: Seq<DownloadJob>, status: JobStatus) -> Seq<DownloadJob> {
    jobs.filter(|j: DownloadJob| j.status == status)
}

/// The jobs that are neither completed nor failed, in their order.
pub open spec fn unfinished(jobs: Seq<DownloadJob>) -> Seq<DownloadJob> {
    jobs.filter(|j: DownloadJob| j.status != JobStatus::Completed && j.status != JobStatus::Failed)
}

/// `position_of` is within the jobs, names a job of that id where it is an
/// index at all, and has no job of that id before it.
pub proof fn position_of_bounds(jobs: Seq<DownloadJob>, id: Seq<char>)
    ensures
        0 <= position_of(jobs, id) <= jobs.len(),
        position_of(jobs, id) < jobs.len() ==> jobs[position_of(jobs, id)].id@ == id,
        forall|j: int| 0 <= j < position_of(jobs, id) ==> (#[trigger] jobs[j]).id@ != id,
    decreases jobs.len(),
{
    if jobs.len() == 0 || jobs[0].id@ == id {
    } else {
        position_of_bounds(jobs.drop_first(), id);
        let k = position_of(jobs.drop_first(), id);
        assert forall|j: int| 0 <= j < 1 + k implies (#[trigger] jobs[j]).id@ != id by {
            if j > 0 {
                assert(jobs.drop_first()[j - 1] == jobs[j]);
            }
        }
    }
}

/// A store in which a job was replaced by another of the same id holds, in
/// that job's place, a job that reads as the other does.
pub proof fn replaced_job_reads_alike(
    after: &AppState,
    before: &AppState,
    id: Seq<char>,
    job: DownloadJob,
)
    requires
        after.replaces_job(before, id, job),
        job.id == before.job(id).id,
    ensures
        after.replaces_job_like(before, id, job@),
{
    position_of_bounds(before.jobs@, id);
}

/// A copy of an optional string.
fn copy_opt_string(o: &Option<String>) -> (r: Option<String>)
    ensures
        r == *o,
{
    match o {
        Some(s) => Some(s.clone()),
        None => None,
    }
}

impl Default for Progress {
    fn default() -> (r: Self)
        ensures
            r@ == initial_progress(),
    {
        Progress {
            stage: DownloadStage::Initializing,
            percentage: None,
            current_step: "Initializing...".to_owned(),
            total_steps: None,
            current_step_index: None,
        }
    }
}

impl Progress {
    /// A copy of this snapshot.
    pub fn duplicate(&self) -> (r: Self)
        ensures
            r == *self,
    {
        Progress {
            stage: self.stage,
            percentage: self.percentage,
            current_step: self.current_step.clone(),
            total_steps: self.total_steps,
            current_step_index: self.current_step_index,
        }
    }
}

impl JobMetadata {
    /// A copy of this record.
    pub fn duplicate(&self) -> (r: Self)
        ensures
            r == *self,
    {
        JobMetadata {
            title: copy_opt_string(&self.title),
            artist: copy_opt_string(&self.artist),
            album: copy_opt_string(&self.album),
            duration: self.duration,
            thumbnail: copy_opt_string(&self.thumbnail),
        }
    }
}

impl Default for AppConfig {
    fn default() -> (r: Self)
        ensures
            r@ == default_config(),
    {
        AppConfig {
            output_path: "./downloads".to_owned(),
            temp_path: "./temp".to_owned(),
            cookies_path: None,
            itag: "141".to_owned(),
            download_mode: DownloadMode::Audio,
            concurrent_limit: 3,
            cover_size: 1400,
            cover_format: CoverFormat::Jpg,
            cover_quality: 95,
            template_folder: "{album_artist}/{album}".to_owned(),
            template_file: "{track:02d} {title}".to_owned(),
            template_date: "%Y-%m-%d".to_owned(),
            po_token: None,
            exclude_tags: None,
            truncate: None,
            save_cover: true,
            overwrite: false,
            no_synced_lyrics: false,
        }
    }
}

impl AppConfig {
    /// A copy of these settings.
    pub fn duplicate(&self) -> (r: Self)
        ensures
            r == *self,
    {
        AppConfig {
            output_path: self.output_path.clone(),
            temp_path: self.temp_path.clone(),
            cookies_path: copy_opt_string(&self.cookies_path),
            itag: self.itag.clone(),
            download_mode: self.download_mode,
            concurrent_limit: self.concurrent_limit,
            cover_size: self.cover_size,
            cover_format: self.cover_format,
            cover_quality: self.cover_quality,
            template_folder: self.template_folder.clone(),
            template_file: self.template_file.clone(),
            template_date: self.template_date.clone(),
            po_token: copy_opt_string(&self.po_token),
            exclude_tags: copy_opt_string(&self.exclude_tags),
            truncate: self.truncate,
            save_cover: self.save_cover,
            overwrite: self.overwrite,
            no_synced_lyrics: self.no_synced_lyrics,
        }
    }
}

/// Draws a random version-4 UUID with `uuid::Uuid::new_v4` and writes it out
/// with its `Display` impl, which gives the hyphenated form: 36 characters.
/// Which id comes back is left open, and two calls may return the same one.
#[verifier::external_body]
pub(crate) fn new_job_id() -> (id: String)
    ensures
        id@.len() == 36,
{
    uuid::Uuid::new_v4().to_string()
}

impl DownloadJob {
    /// A queued job for `url` under a new random id, created now.
    pub fn new(url: String) -> (job: Self)
        ensures
            job.url == url,
            job.id@.len() == 36,
            job@ == fresh_job(job.id@, url@, job.created_at),
    {
        let id = new_job_id();
        let created_at = now();
        Self::with_identity(id, url, created_at)
    }

    /// A queued job for `url` under the given id and time of creation.
    pub fn with_identity(id: String, url: String, created_at: Timestamp) -> (job: Self)
        ensures
            job.id == id,
            job.url == url,
            job@ == fresh_job(id@, url@, created_at),
    {
        DownloadJob {
            id,
            url,
            status: JobStatus::Queued,
            progress: Progress::default(),
            metadata: None,
            error: None,
            created_at,
            started_at: None,
            completed_at: None,
            retry_count: 0,
        }
    }

    /// A copy of this job record.
    pub fn duplicate(&self) -> (r: Self)
        ensures
            r == *self,
    {
        DownloadJob {
            id: self.id.clone(),
            url: self.url.clone(),
            status: self.status,
            progress: self.progress.duplicate(),
            metadata: match &self.metadata {
                Some(m) => Some(m.duplicate()),
                None => None,
            },
            error: copy_opt_string(&self.error),
            created_at: self.created_at,
            started_at: self.started_at,
            completed_at: self.completed_at,
            retry_count: self.retry_count,
        }
    }

    /// Whether this run of the job has ended.
    pub fn is_terminal(&self) -> (r: bool)
        ensures
            r == is_terminal_status(self.status),
    {
        matches!(self.status, JobStatus::Completed | JobStatus::Failed | JobStatus::Cancelled)
    }

    /// Whether a worker is running the job.
    pub fn is_active(&self) -> (r: bool)
        ensures
            r == (self.status == JobStatus::Downloading),
    {
        matches!(self.status, JobStatus::Downloading)
    }

    /// Whether the job may be queued again.
    pub fn can_retry(&self) -> (r: bool)
        ensures
            r == is_retryable_status(self.status),
    {
        matches!(self.status, JobStatus::Failed | JobStatus::Cancelled)
    }

    /// Sets the status at time `at` where that is a step of the life cycle,
    /// with the time stamps the status calls for, and says whether it was.
    /// A request that is no step leaves the job as it is.
    pub fn set_status(&mut self, status: JobStatus, at: Timestamp) -> (applied: bool)
        ensures
            applied == is_step(old(self).status, status),
            final(self)@ == after_status(old(self)@, status, at),
            status != JobStatus::Failed || has_reason(*old(self)) ==> *final(self) == stepped(
                *old(self),
                status,
                at,
            ),
            final(self).id == old(self).id,
    {
        let from = self.status;
        let allowed = match status {
            JobStatus::Queued => matches!(
                from,
                JobStatus::Queued | JobStatus::Failed | JobStatus::Cancelled
            ),
            JobStatus::Downloading => matches!(from, JobStatus::Queued | JobStatus::Downloading),
            JobStatus::Completed => matches!(from, JobStatus::Downloading | JobStatus::Completed),
            JobStatus::Failed => matches!(
                from,
                JobStatus::Queued | JobStatus::Downloading | JobStatus::Failed
            ),
            JobStatus::Cancelled => true,
        };
        if !allowed {
            return false;
        }
        let stamp = at.later(self.created_at);
        self.status = status;
        match status {
            JobStatus::Failed => {
                let stated = match &self.error {
                    Some(reason) => !reason.as_str().is_empty(),
                    None => false,
                };
                if !stated {
                    self.error = Some(UNSTATED_FAILURE.to_owned());
                }
            },
            _ => {
                self.error = None;
            },
        }
        match status {
            JobStatus::Downloading => {
                if self.started_at.is_none() {
                    self.started_at = Some(stamp);
                }
            },
            JobStatus::Completed | JobStatus::Failed | JobStatus::Cancelled => {
                self.completed_at = Some(stamp);
            },
            JobStatus::Queued => {},
        }
        true
    }

    /// Makes the job ready for another run.
    pub fn reset_for_retry(&mut self)
        ensures
            final(self)@ == reset_job(old(self)@),
            final(self).id == old(self).id,
            final(self).url == old(self).url,
            final(self).metadata == old(self).metadata,
            final(self).created_at == old(self).created_at,
            final(self).retry_count == old(self).retry_count,
    {
        self.status = JobStatus::Queued;
        self.progress = Progress::default();
        self.error = None;
        self.started_at = None;
        self.completed_at = None;
    }
}

impl Default for AppState {
    fn default() -> (r: Self)
        ensures
            r.jobs@.len() == 0,
            r.config@ == default_config(),
            !r.is_paused,
            r.concurrent_limit == 3,
    {
        AppState { jobs: Vec::new(), config: AppConfig::default(), is_paused: false, concurrent_limit: 3 }
    }
}

impl AppState {
    /// Whether some job has the given id.
    pub open spec fn has_job(&self, id: Seq<char>) -> bool {
        position_of(self.jobs@, id) < self.jobs@.len()
    }

    /// The first job with the given id.
    pub open spec fn job(&self, id: Seq<char>) -> DownloadJob
        recommends
            self.has_job(id),
    {
        self.jobs@[position_of(self.jobs@, id)]
    }

    /// Everything but the job records is the same in `self` and `other`.
    pub open spec fn same_settings(&self, other: &AppState) -> bool {
        &&& self.config == other.config
        &&& self.is_paused == other.is_paused
        &&& self.concurrent_limit == other.concurrent_limit
    }

    /// `self` is `before` with the first job of the given id replaced by
    /// `job`, and nothing else changed.
    pub open spec fn replaces_job(&self, before: &AppState, id: Seq<char>, job: DownloadJob) -> bool {
        &&& before.has_job(id)
        &&& self.jobs@ == before.jobs@.update(position_of(before.jobs@, id), job)
        &&& self.same_settings(before)
    }

    /// `self` is `before` with the first job of the given id replaced by a
    /// job that reads as `job`, and nothing else changed.
    pub open spec fn replaces_job_like(&self, before: &AppState, id: Seq<char>, job: JobView) -> bool {
        &&& before.has_job(id)
        &&& self.jobs@.len() == before.jobs@.len()
        &&& forall|i: int|
            0 <= i < before.jobs@.len() && i != position_of(before.jobs@, id)
                ==> #[trigger] self.jobs@[i] == before.jobs@[i]
        &&& self.jobs@[position_of(before.jobs@, id)]@ == job
        &&& self.jobs@[position_of(before.jobs@, id)].id == before.job(id).id
        &&& self.same_settings(before)
    }

    /// `self` is `before` after a request to set the status of the first job
    /// of the given id to `status` at time `at`: the job reads as
    /// `after_status` says, and nothing else changed. But for the unstated
    /// reason that a failure gets which has none, the job is `stepped` to
    /// the letter.
    pub open spec fn status_was_set(
        &self,
        before: &AppState,
        id: Seq<char>,
        status: JobStatus,
        at: Timestamp,
    ) -> bool {
        &&& self.replaces_job_like(before, id, after_status(before.job(id)@, status, at))
        &&& status != JobStatus::Failed || has_reason(before.job(id)) ==> self.replaces_job(
            before,
            id,
            stepped(before.job(id), status, at),
        )
    }

    /// `self` is `before` after the first job of the given id failed with
    /// `error` at time `at`: the job reads as `after_failure` says, and
    /// nothing else changed. An error that is not empty is the job's error
    /// to the letter.
    pub open spec fn failure_was_set(
        &self,
        before: &AppState,
        id: Seq<char>,
        error: String,
        at: Timestamp,
    ) -> bool {
        &&& self.replaces_job_like(before, id, after_failure(before.job(id)@, error@, at))
        &&& error@.len() > 0 ==> self.replaces_job(
            before,
            id,
            with_error(before.job(id), error, at),
        )
    }

    /// An empty store with the default settings.
    pub fn new() -> (r: Self)
        ensures
            r.jobs@.len() == 0,
            r.config@ == default_config(),
            !r.is_paused,
            r.concurrent_limit == 3,
    {
        Self::default()
    }

    /// The index of the first job with the given id.
    pub fn find_index(&self, job_id: &str) -> (r: Option<usize>)
        ensures
            match r {
                Some(i) => self.has_job(job_id@) && i == position_of(self.jobs@, job_id@),
                None => !self.has_job(job_id@),
            },
    {
        let mut i: usize = 0;
        while i < self.jobs.len()
            invariant
                i <= self.jobs.len(),
                forall|j: int| 0 <= j < i ==> (#[trigger] self.jobs@[j]).id@ != job_id@,
            decreases self.jobs.len() - i,
        {
            if same_text(self.jobs[i].id.as_str(), job_id) {
                proof {
                    position_of_bounds(self.jobs@, job_id@);
                }
                return Some(i);
            }
            i += 1;
        }
        proof {
            position_of_bounds(self.jobs@, job_id@);
        }
        None
    }

    /// An id that no job of the store has: a random draw; and, should the
    /// store hold the draw already, the draw lengthened with zeros until it
    /// is longer than every id of the store.
    pub fn fresh_id(&self) -> (id: String)
        ensures
            !self.has_job(id@),
            id@.len() >= 36,
    {
        let mut id = new_job_id();
        if self.find_index(id.as_str()).is_none() {
            return id;
        }
        let mut longest: usize = 0;
        let mut i: usize = 0;
        while i < self.jobs.len()
            invariant
                i <= self.jobs.len(),
                forall|j: int| 0 <= j < i ==> (#[trigger] self.jobs@[j]).id@.len() <= longest,
            decreases self.jobs.len() - i,
        {
            let n = self.jobs[i].id.as_str().unicode_len();
            if n > longest {
                longest = n;
            }
            i += 1;
        }
        let mut length: u128 = 36;
        while length <= longest as u128
            invariant
                id@.len() == length,
                36 <= length,
                length == 36 || length <= longest as u128 + 1,
            decreases longest as u128 + 1 - length,
        {
            crate::text::push_char(&mut id, '0');
            length += 1;
        }
        proof {
            position_of_bounds(self.jobs@, id@);
        }
        id
    }

    /// Appends a queued job for `url` under a new id, created now, and returns
    /// the id. No job of the store had that id before.
    pub fn add_job(&mut self, url: String) -> (job_id: String)
        ensures
            !old(self).has_job(job_id@),
            job_id@.len() >= 36,
            final(self).jobs@.len() == old(self).jobs@.len() + 1,
            final(self).jobs@.drop_last() == old(self).jobs@,
            final(self).jobs@.last().url == url,
            final(self).jobs@.last()@ == fresh_job(
                job_id@,
                url@,
                final(self).jobs@.last().created_at,
            ),
            final(self).same_settings(old(self)),
    {
        let id = self.fresh_id();
        let created_at = now();
        self.add_job_with(id, url, created_at)
    }

    /// Appends a queued job for `url` under the given id and time of creation,
    /// and returns the id.
    pub fn add_job_with(&mut self, id: String, url: String, created_at: Timestamp) -> (job_id:
        String)
        ensures
            job_id@ == id@,
            final(self).jobs@.len() == old(self).jobs@.len() + 1,
            final(self).jobs@.drop_last() == old(self).jobs@,
            final(self).jobs@.last().id == id,
            final(self).jobs@.last().url == url,
            final(self).jobs@.last()@ == fresh_job(id@, url@, created_at),
            final(self).same_settings(old(self)),
    {
        let job_id = id.clone();
        let job = DownloadJob::with_identity(id, url, created_at);
        self.jobs.push(job);
        assert(self.jobs@.drop_last() =~= old(self).jobs@);
        job_id
    }

    /// The first job with the given id, if there is one.
    pub fn get_job(&self, job_id: &str) -> (r: Option<&DownloadJob>)
        ensures
            match r {
                Some(job) => self.has_job(job_id@) && *job == self.job(job_id@),
                None => !self.has_job(job_id@),
            },
    {
        match self.find_index(job_id) {
            Some(i) => Some(&self.jobs[i]),
            None => None,
        }
    }

    /// The first job with the given id, for changing it in place. Whatever the
    /// caller leaves in it takes that job's place in the store.
    pub fn get_job_mut(&mut self, job_id: &str) -> (r: Option<&mut DownloadJob>)
        ensures
            match r {
                Some(job) => *job == old(self).job(job_id@) && final(self).replaces_job(
                    old(self),
                    job_id@,
                    *final(job),
                ),
                None => !old(self).has_job(job_id@) && *final(self) == *old(self),
            },
    {
        match self.find_index(job_id) {
            Some(i) => Some(&mut self.jobs[i]),
            None => None,
        }
    }

    /// Asks for the status of the first job with the given id to be set,
    /// stamped with the current time as the status calls for. The status is
    /// set where that is a step of the life cycle; where not, the job stays
    /// as it is. Returns whether there is such a job; without one the store
    /// is unchanged.
    pub fn update_job_status(&mut self, job_id: &str, status: JobStatus) -> (found: bool)
        ensures
            found == old(self).has_job(job_id@),
            found ==> exists|at: Timestamp| #[trigger]
                final(self).status_was_set(old(self), job_id@, status, at),
            !found ==> *final(self) == *old(self),
    {
        let at = now();
        let found = self.update_job_status_at(job_id, status, at);
        proof {
            if found {
                assert(final(self).status_was_set(old(self), job_id@, status, at));
            }
        }
        found
    }

    /// Asks for the status of the first job with the given id to be set at
    /// time `at`. Returns whether there is such a job; without one the store
    /// is unchanged.
    pub fn update_job_status_at(&mut self, job_id: &str, status: JobStatus, at: Timestamp) -> (found:
        bool)
        ensures
            found == old(self).has_job(job_id@),
            found ==> final(self).status_was_set(old(self), job_id@, status, at),
            !found ==> *final(self) == *old(self),
    {
        match self.find_index(job_id) {
            Some(i) => {
                self.jobs[i].set_status(status, at);
                proof {
                    position_of_bounds(old(self).jobs@, job_id@);
                    if status != JobStatus::Failed || has_reason(old(self).job(job_id@)) {
                        assert(self.jobs@ =~= old(self).jobs@.update(
                            i as int,
                            stepped(old(self).job(job_id@), status, at),
                        ));
                    }
                }
                true
            },
            None => false,
        }
    }

    /// Replaces the progress snapshot of the first job with the given id.
    /// Returns whether there is such a job; without one the store is
    /// unchanged.
    pub fn update_job_progress(&mut self, job_id: &str, progress: Progress) -> (found: bool)
        ensures
            found == old(self).has_job(job_id@),
            found ==> final(self).replaces_job(
                old(self),
                job_id@,
                (DownloadJob { progress, ..old(self).job(job_id@) }),
            ),
            !found ==> *final(self) == *old(self),
    {
        match self.find_index(job_id) {
            Some(i) => {
                self.jobs[i].progress = progress;
                true
            },
            None => false,
        }
    }

    /// Replaces the metadata of the first job with the given id. Returns
    /// whether there is such a job; without one the store is unchanged.
    pub fn update_job_metadata(&mut self, job_id: &str, metadata: JobMetadata) -> (found: bool)
        ensures
            found == old(self).has_job(job_id@),
            found ==> final(self).replaces_job(
                old(self),
                job_id@,
                (DownloadJob { metadata: Some(metadata), ..old(self).job(job_id@) }),
            ),
            !found ==> *final(self) == *old(self),
    {
        match self.find_index(job_id) {
            Some(i) => {
                self.jobs[i].metadata = Some(metadata);
                true
            },
            None => false,
        }
    }

    /// Marks the first job with the given id as failed with `error`, ended
    /// now, whatever its status was. An empty error is replaced by the
    /// unstated reason. Returns whether there is such a job; without one the
    /// store is unchanged.
    pub fn set_job_error(&mut self, job_id: &str, error: String) -> (found: bool)
        ensures
            found == old(self).has_job(job_id@),
            found ==> exists|at: Timestamp| #[trigger]
                final(self).failure_was_set(old(self), job_id@, error, at),
            !found ==> *final(self) == *old(self),
    {
        let at = now();
        let found = self.set_job_error_at(job_id, error, at);
        proof {
            if found {
                assert(final(self).failure_was_set(old(self), job_id@, error, at));
            }
        }
        found
    }

    /// Marks the first job with the given id as failed with `error`, ended at
    /// time `at`, whatever its status was. An empty error is replaced by the
    /// unstated reason.
    pub fn set_job_error_at(&mut self, job_id: &str, error: String, at: Timestamp) -> (found: bool)
        ensures
            found == old(self).has_job(job_id@),
            found ==> final(self).failure_was_set(old(self), job_id@, error, at),
            !found ==> *final(self) == *old(self),
    {
        match self.find_index(job_id) {
            Some(i) => {
                let reason = if error.as_str().is_empty() {
                    UNSTATED_FAILURE.to_owned()
                } else {
                    error
                };
                let job = &mut self.jobs[i];
                job.error = Some(reason);
                job.status = JobStatus::Failed;
                job.completed_at = Some(at.later(job.created_at));
                proof {
                    position_of_bounds(old(self).jobs@, job_id@);
                    if error@.len() > 0 {
                        assert(self.jobs@ =~= old(self).jobs@.update(
                            i as int,
                            with_error(old(self).job(job_id@), error, at),
                        ));
                    }
                }
                true
            },
            None => false,
        }
    }

    /// Removes every job with the given id and returns whether there was one.
    pub fn remove_job(&mut self, job_id: &str) -> (removed: bool)
        ensures
            removed == old(self).has_job(job_id@),
            final(self).jobs@ == without_id(old(self).jobs@, job_id@),
            final(self).same_settings(old(self)),
    {
        let mut all: Vec<DownloadJob> = Vec::new();
        std::mem::swap(&mut self.jobs, &mut all);
        let ghost before = all@;
        let mut removed = false;
        for job in it: all
            invariant
                it.seq() == before,
                self.jobs@ == without_id(before.take(it.index() as int), job_id@),
                removed == (position_of(before.take(it.index() as int), job_id@)
                    < it.index()),
                self.same_settings(old(self)),
        {
            proof {
                let i = it.index() as int;
                reveal(Seq::filter);
                assert(before.take(i + 1).drop_last() =~= before.take(i));
                assert(before.take(i + 1).last() == job);
                position_of_bounds(before.take(i), job_id@);
                position_of_bounds(before.take(i + 1), job_id@);
                let old_at = position_of(before.take(i), job_id@);
                let new_at = position_of(before.take(i + 1), job_id@);
                if old_at < i {
                    assert(before.take(i + 1)[old_at] == before.take(i)[old_at]);
                    if new_at > old_at {
                        assert(before.take(i + 1)[old_at].id@ != job_id@);
                    }
                } else if new_at < i {
                    assert(before.take(i + 1)[new_at] == before.take(i)[new_at]);
                    assert(before.take(i)[new_at].id@ != job_id@);
                }
            }
            if same_text(job.id.as_str(), job_id) {
                removed = true;
            } else {
                self.jobs.push(job);
            }
        }
        proof {
            assert(before.take(before.len() as int) =~= before);
        }
        removed
    }

    /// The jobs in the given status, in the order of the store.
    pub fn get_jobs_by_status(&self, status: &JobStatus) -> (r: Vec<&DownloadJob>)
        ensures
            r@.map_values(|j: &DownloadJob| *j) == with_status_of(self.jobs@, *status),
    {
        let mut r: Vec<&DownloadJob> = Vec::new();
        let mut i: usize = 0;
        proof {
            reveal(Seq::filter);
            assert(self.jobs@.take(0) =~= Seq::<DownloadJob>::empty());
            assert(r@.map_values(|j: &DownloadJob| *j) =~= Seq::<DownloadJob>::empty());
        }
        while i < self.jobs.len()
            invariant
                i <= self.jobs.len(),
                r@.map_values(|j: &DownloadJob| *j) == with_status_of(
                    self.jobs@.take(i as int),
                    *status,
                ),
            decreases self.jobs.len() - i,
        {
            let ghost before = r@;
            proof {
                reveal(Seq::filter);
                assert(self.jobs@.take(i + 1).drop_last() =~= self.jobs@.take(i as int));
            }
            if self.jobs[i].status == *status {
                r.push(&self.jobs[i]);
                assert(r@.map_values(|j: &DownloadJob| *j) =~= before.map_values(
                    |j: &DownloadJob| *j,
                ).push(self.jobs@[i as int]));
            }
            i += 1;
        }
        proof {
            assert(self.jobs@.take(self.jobs@.len() as int) =~= self.jobs@);
        }
        r
    }

    /// How many jobs are in the given status.
    pub fn count_jobs_by_status(&self, status: &JobStatus) -> (n: usize)
        ensures
            n == with_status_of(self.jobs@, *status).len(),
    {
        let mut n: usize = 0;
        let mut i: usize = 0;
        proof {
            reveal(Seq::filter);
            assert(self.jobs@.take(0) =~= Seq::<DownloadJob>::empty());
        }
        while i < self.jobs.len()
            invariant
                i <= self.jobs.len(),
                n <= i,
                n == with_status_of(self.jobs@.take(i as int), *status).len(),
            decreases self.jobs.len() - i,
        {
            proof {
                reveal(Seq::filter);
                assert(self.jobs@.take(i + 1).drop_last() =~= self.jobs@.take(i as int));
            }
            if self.jobs[i].status == *status {
                n += 1;
            }
            i += 1;
        }
        proof {
            assert(self.jobs@.take(self.jobs@.len() as int) =~= self.jobs@);
        }
        n
    }

    /// Removes the completed and the failed jobs. Cancelled jobs stay.
    pub fn clear_completed_jobs(&mut self)
        ensures
            final(self).jobs@ == unfinished(old(self).jobs@),
            final(self).same_settings(old(self)),
    {
        let mut all: Vec<DownloadJob> = Vec::new();
        std::mem::swap(&mut self.jobs, &mut all);
        let ghost before = all@;
        for job in it: all
            invariant
                it.seq() == before,
                self.jobs@ == unfinished(before.take(it.index() as int)),
                self.same_settings(old(self)),
        {
            proof {
                let i = it.index() as int;
                reveal(Seq::filter);
                assert(before.take(i + 1).drop_last() =~= before.take(i));
                assert(before.take(i + 1).last() == job);
            }
            if !matches!(job.status, JobStatus::Completed | JobStatus::Failed) {
                self.jobs.push(job);
            }
        }
        proof {
            assert(before.take(before.len() as int) =~= before);
        }
    }

    /// Stops admitting jobs.
    pub fn pause(&mut self)
        ensures
            final(self).is_paused,
            final(self).jobs == old(self).jobs,
            final(self).config == old(self).config,
            final(self).concurrent_limit == old(self).concurrent_limit,
    {
        self.is_paused = true;
    }

    /// Admits jobs again.
    pub fn resume(&mut self)
        ensures
            !final(self).is_paused,
            final(self).jobs == old(self).jobs,
            final(self).config == old(self).config,
            final(self).concurrent_limit == old(self).concurrent_limit,
    {
        self.is_paused = false;
    }

    /// Whether admission is paused.
    pub fn is_paused(&self) -> (r: bool)
        ensures
            r == self.is_paused,
    {
        self.is_paused
    }
}

} // verus!
