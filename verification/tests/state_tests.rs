use gytmdl_gui::clock::Timestamp;
use gytmdl_gui::decimal::Percentage;
use gytmdl_gui::state::{
    AppConfig, AppState, CoverFormat, DownloadJob, DownloadMode, DownloadStage, JobMetadata,
    JobStatus, Progress,
};

fn at(secs: i64) -> Timestamp {
    Timestamp { secs, nanos: 0 }
}

/// Adds a job and takes it to the given status along the life cycle.
fn job_in(state: &mut AppState, id: &str, status: JobStatus) {
    state.add_job_with(id.to_string(), "u".to_string(), at(1));
    if status == JobStatus::Completed {
        state.update_job_status_at(id, JobStatus::Downloading, at(2));
    }
    state.update_job_status_at(id, status, at(2));
    assert_eq!(state.get_job(id).unwrap().status, status);
}

#[test]
fn test_app_state_default() {
    let state = AppState::default();
    assert_eq!(state.jobs.len(), 0);
    assert_eq!(state.concurrent_limit, 3);
    assert!(!state.is_paused);
}

#[test]
fn test_app_config_default() {
    let config = AppConfig::default();
    assert_eq!(config.output_path, "./downloads");
    assert_eq!(config.temp_path, "./temp");
    assert_eq!(config.itag, "141");
    assert_eq!(config.concurrent_limit, 3);
    assert_eq!(config.cover_size, 1400);
    assert_eq!(config.cover_quality, 95);
    assert!(config.save_cover);
    assert!(!config.overwrite);
    assert!(!config.no_synced_lyrics);
}

#[test]
fn test_download_job_creation() {
    let url = "https://music.youtube.com/watch?v=test123".to_string();
    let job = DownloadJob::new(url.clone());

    assert_eq!(job.url, url);
    assert_eq!(job.status, JobStatus::Queued);
    assert!(job.metadata.is_none());
    assert!(job.error.is_none());
    assert!(job.started_at.is_none());
    assert!(job.completed_at.is_none());
    assert!(!job.id.is_empty());
}

#[test]
fn test_download_job_states() {
    let mut job = DownloadJob::new("https://test.com".to_string());

    // Initial state
    assert!(!job.is_terminal());
    assert!(!job.is_active());
    assert!(!job.can_retry());

    // Downloading state
    job.status = JobStatus::Downloading;
    assert!(!job.is_terminal());
    assert!(job.is_active());
    assert!(!job.can_retry());

    // Failed state
    job.status = JobStatus::Failed;
    assert!(job.is_terminal());
    assert!(!job.is_active());
    assert!(job.can_retry());

    // Completed state
    job.status = JobStatus::Completed;
    assert!(job.is_terminal());
    assert!(!job.is_active());
    assert!(!job.can_retry());

    // Cancelled state
    job.status = JobStatus::Cancelled;
    assert!(job.is_terminal());
    assert!(!job.is_active());
    assert!(job.can_retry());
}

#[test]
fn test_download_job_reset_for_retry() {
    let mut job = DownloadJob::new("https://test.com".to_string());
    job.status = JobStatus::Failed;
    job.error = Some("Network error".to_string());
    job.started_at = Some(at(1_700_000_000));
    job.completed_at = Some(at(1_700_000_100));

    job.reset_for_retry();

    assert_eq!(job.status, JobStatus::Queued);
    assert!(job.error.is_none());
    assert!(job.started_at.is_none());
    assert!(job.completed_at.is_none());
}

#[test]
fn test_app_state_add_job() {
    let mut state = AppState::new();
    let url = "https://music.youtube.com/watch?v=test123".to_string();

    let job_id = state.add_job(url.clone());

    assert_eq!(state.jobs.len(), 1);
    assert!(!job_id.is_empty());

    let job = state.get_job(&job_id).unwrap();
    assert_eq!(job.url, url);
    assert_eq!(job.status, JobStatus::Queued);
}

#[test]
fn test_app_state_get_job() {
    let mut state = AppState::new();
    let job_id = state.add_job("https://test.com".to_string());

    // Test getting existing job
    assert!(state.get_job(&job_id).is_some());

    // Test getting non-existent job
    assert!(state.get_job("non-existent-id").is_none());
}

#[test]
fn test_app_state_update_job_status() {
    let mut state = AppState::new();
    let job_id = state.add_job("https://test.com".to_string());

    // Update to downloading
    assert!(state.update_job_status(&job_id, JobStatus::Downloading));
    let job = state.get_job(&job_id).unwrap();
    assert_eq!(job.status, JobStatus::Downloading);
    assert!(job.started_at.is_some());

    // Update to completed
    assert!(state.update_job_status(&job_id, JobStatus::Completed));
    let job = state.get_job(&job_id).unwrap();
    assert_eq!(job.status, JobStatus::Completed);
    assert!(job.completed_at.is_some());

    // Test updating non-existent job
    assert!(!state.update_job_status("non-existent", JobStatus::Failed));
}

#[test]
fn test_app_state_update_job_progress() {
    let mut state = AppState::new();
    let job_id = state.add_job("https://test.com".to_string());

    let progress = Progress {
        stage: DownloadStage::DownloadingAudio,
        percentage: Some(Percentage { units: 50, decimals: 0 }),
        current_step: "Downloading...".to_string(),
        total_steps: Some(5),
        current_step_index: Some(3),
    };

    assert!(state.update_job_progress(&job_id, progress.clone()));
    let job = state.get_job(&job_id).unwrap();
    assert_eq!(job.progress.percentage, Some(Percentage { units: 50, decimals: 0 }));
    assert_eq!(job.progress.current_step, "Downloading...");

    // Test updating non-existent job
    assert!(!state.update_job_progress("non-existent", progress));
}

#[test]
fn test_app_state_update_job_metadata() {
    let mut state = AppState::new();
    let job_id = state.add_job("https://test.com".to_string());

    let metadata = JobMetadata {
        title: Some("Test Song".to_string()),
        artist: Some("Test Artist".to_string()),
        album: Some("Test Album".to_string()),
        duration: Some(180),
        thumbnail: Some("https://thumbnail.url".to_string()),
    };

    assert!(state.update_job_metadata(&job_id, metadata.clone()));
    let job = state.get_job(&job_id).unwrap();
    assert_eq!(job.metadata.as_ref().unwrap().title, Some("Test Song".to_string()));
    assert_eq!(job.metadata.as_ref().unwrap().artist, Some("Test Artist".to_string()));

    // Test updating non-existent job
    assert!(!state.update_job_metadata("non-existent", metadata));
}

#[test]
fn test_app_state_set_job_error() {
    let mut state = AppState::new();
    let job_id = state.add_job("https://test.com".to_string());

    let error_msg = "Network timeout".to_string();
    assert!(state.set_job_error(&job_id, error_msg.clone()));

    let job = state.get_job(&job_id).unwrap();
    assert_eq!(job.error, Some(error_msg));
    assert_eq!(job.status, JobStatus::Failed);
    assert!(job.completed_at.is_some());

    // Test setting error on non-existent job
    assert!(!state.set_job_error("non-existent", "Error".to_string()));
}

#[test]
fn test_app_state_remove_job() {
    let mut state = AppState::new();
    let job_id = state.add_job("https://test.com".to_string());

    assert_eq!(state.jobs.len(), 1);
    assert!(state.remove_job(&job_id));
    assert_eq!(state.jobs.len(), 0);

    // Test removing non-existent job
    assert!(!state.remove_job("non-existent"));
}

#[test]
fn test_app_state_get_jobs_by_status() {
    let mut state = AppState::new();
    let job_id1 = state.add_job("https://test1.com".to_string());
    let job_id2 = state.add_job("https://test2.com".to_string());
    let job_id3 = state.add_job("https://test3.com".to_string());

    state.update_job_status(&job_id1, JobStatus::Downloading);
    state.update_job_status(&job_id2, JobStatus::Downloading);
    state.update_job_status(&job_id2, JobStatus::Completed);
    // job_id3 remains Queued

    let queued_jobs = state.get_jobs_by_status(&JobStatus::Queued);
    let downloading_jobs = state.get_jobs_by_status(&JobStatus::Downloading);
    let completed_jobs = state.get_jobs_by_status(&JobStatus::Completed);

    assert_eq!(queued_jobs.len(), 1);
    assert_eq!(downloading_jobs.len(), 1);
    assert_eq!(completed_jobs.len(), 1);
    assert_eq!(queued_jobs[0].id, job_id3);
    assert_eq!(downloading_jobs[0].id, job_id1);
    assert_eq!(completed_jobs[0].id, job_id2);
}

#[test]
fn test_app_state_count_jobs_by_status() {
    let mut state = AppState::new();
    let job_id1 = state.add_job("https://test1.com".to_string());
    let _job_id2 = state.add_job("https://test2.com".to_string());

    assert_eq!(state.count_jobs_by_status(&JobStatus::Queued), 2);
    assert_eq!(state.count_jobs_by_status(&JobStatus::Downloading), 0);

    state.update_job_status(&job_id1, JobStatus::Downloading);
    assert_eq!(state.count_jobs_by_status(&JobStatus::Queued), 1);
    assert_eq!(state.count_jobs_by_status(&JobStatus::Downloading), 1);
}

#[test]
fn test_app_state_clear_completed_jobs() {
    let mut state = AppState::new();
    let job_id1 = state.add_job("https://test1.com".to_string());
    let job_id2 = state.add_job("https://test2.com".to_string());
    let job_id3 = state.add_job("https://test3.com".to_string());
    let _job_id4 = state.add_job("https://test4.com".to_string());

    state.update_job_status(&job_id1, JobStatus::Downloading);
    state.update_job_status(&job_id1, JobStatus::Completed);
    state.update_job_status(&job_id2, JobStatus::Failed);
    state.update_job_status(&job_id3, JobStatus::Downloading);
    // job_id4 remains Queued

    assert_eq!(state.jobs.len(), 4);
    state.clear_completed_jobs();
    assert_eq!(state.jobs.len(), 2);

    // Only downloading and queued jobs should remain
    let remaining_jobs: Vec<&JobStatus> = state.jobs.iter().map(|j| &j.status).collect();
    assert!(remaining_jobs.contains(&&JobStatus::Downloading));
    assert!(remaining_jobs.contains(&&JobStatus::Queued));
    assert!(!remaining_jobs.contains(&&JobStatus::Completed));
    assert!(!remaining_jobs.contains(&&JobStatus::Failed));
}

#[test]
fn test_app_state_pause_resume() {
    let mut state = AppState::new();

    assert!(!state.is_paused());

    state.pause();
    assert!(state.is_paused());

    state.resume();
    assert!(!state.is_paused());
}

#[test]
fn test_progress_default() {
    let progress = Progress::default();
    assert!(matches!(progress.stage, DownloadStage::Initializing));
    assert_eq!(progress.current_step, "Initializing...");
    assert!(progress.percentage.is_none());
    assert!(progress.total_steps.is_none());
    assert!(progress.current_step_index.is_none());
}

#[test]
fn test_app_state_thread_safety() {
    let mut state = AppState::new();
    for i in 0..10 {
        let url = format!("https://test{}.com", i);
        state.add_job(url);
    }
    assert_eq!(state.jobs.len(), 10);
}

#[test]
fn test_concurrent_job_status_updates() {
    let mut state = AppState::new();
    let job_ids: Vec<String> =
        (0..5).map(|i| state.add_job(format!("https://test{}.com", i))).collect();

    for (i, job_id) in job_ids.iter().enumerate() {
        state.update_job_status(job_id, JobStatus::Downloading);
        if i % 2 != 0 {
            state.update_job_status(job_id, JobStatus::Completed);
        }
    }

    assert_eq!(state.count_jobs_by_status(&JobStatus::Downloading), 3); // jobs 0, 2, 4
    assert_eq!(state.count_jobs_by_status(&JobStatus::Completed), 2); // jobs 1, 3
}

#[test]
fn test_concurrent_config_access() {
    let mut config = AppConfig::default();
    for i in 0..5usize {
        config.concurrent_limit = i + 1;
        config.cover_size = 1000 + (i * 100) as u32;
    }
    assert!(config.concurrent_limit >= 1 && config.concurrent_limit <= 5);
    assert!(config.cover_size >= 1000 && config.cover_size <= 1400);
}

// ---- exact values ----

#[test]
fn default_settings_in_full() {
    let c = AppConfig::default();
    assert_eq!(c.cookies_path, None);
    assert_eq!(c.download_mode, DownloadMode::Audio);
    assert_eq!(c.cover_format, CoverFormat::Jpg);
    assert_eq!(c.template_folder, "{album_artist}/{album}");
    assert_eq!(c.template_file, "{track:02d} {title}");
    assert_eq!(c.template_date, "%Y-%m-%d");
    assert_eq!(c.po_token, None);
    assert_eq!(c.exclude_tags, None);
    assert_eq!(c.truncate, None);
}

#[test]
fn a_fresh_job_is_queued_and_bare() {
    let job = DownloadJob::with_identity("id-1".to_string(), "u".to_string(), at(5));
    assert_eq!(job.id, "id-1");
    assert_eq!(job.url, "u");
    assert_eq!(job.status, JobStatus::Queued);
    assert_eq!(job.created_at, at(5));
    assert_eq!(job.started_at, None);
    assert_eq!(job.completed_at, None);
    assert_eq!(job.progress.stage, DownloadStage::Initializing);
    assert_eq!(job.progress.current_step, "Initializing...");
    assert_eq!(job.progress.percentage, None);
}

#[test]
fn job_ids_are_uuids() {
    let mut state = AppState::new();
    let a = state.add_job("u".to_string());
    let b = state.add_job("u".to_string());
    assert_eq!(a.len(), 36);
    assert_eq!(b.len(), 36);
    assert_ne!(a, b);
    assert_eq!(a.matches('-').count(), 4);
    assert_eq!(state.jobs[0].id, a);
    assert_eq!(state.jobs[1].id, b);
}

#[test]
fn status_changes_stamp_the_job() {
    let mut state = AppState::new();
    state.add_job_with("a".to_string(), "u".to_string(), at(1));

    assert!(state.update_job_status_at("a", JobStatus::Downloading, at(10)));
    assert_eq!(state.jobs[0].started_at, Some(at(10)));
    assert_eq!(state.jobs[0].completed_at, None);

    // a second entry into Downloading keeps the first start
    assert!(state.update_job_status_at("a", JobStatus::Downloading, at(20)));
    assert_eq!(state.jobs[0].started_at, Some(at(10)));

    assert!(state.update_job_status_at("a", JobStatus::Cancelled, at(30)));
    assert_eq!(state.jobs[0].status, JobStatus::Cancelled);
    assert_eq!(state.jobs[0].completed_at, Some(at(30)));

    // back to Queued touches no time stamp
    assert!(state.update_job_status_at("a", JobStatus::Queued, at(40)));
    assert_eq!(state.jobs[0].started_at, Some(at(10)));
    assert_eq!(state.jobs[0].completed_at, Some(at(30)));

    assert!(state.update_job_status_at("a", JobStatus::Failed, at(50)));
    assert_eq!(state.jobs[0].completed_at, Some(at(50)));
    // setting the status that the job has stamps it again
    assert!(state.update_job_status_at("a", JobStatus::Failed, at(60)));
    assert_eq!(state.jobs[0].completed_at, Some(at(60)));

    assert!(!state.update_job_status_at("b", JobStatus::Completed, at(70)));
}

#[test]
fn no_stamp_is_earlier_than_the_creation() {
    let mut state = AppState::new();
    state.add_job_with("a".to_string(), "u".to_string(), at(100));
    state.update_job_status_at("a", JobStatus::Downloading, at(50));
    assert_eq!(state.jobs[0].started_at, Some(at(100)));
    state.update_job_status_at("a", JobStatus::Completed, Timestamp { secs: 100, nanos: 7 });
    assert_eq!(state.jobs[0].completed_at, Some(Timestamp { secs: 100, nanos: 7 }));
    state.set_job_error_at("a", "e".to_string(), Timestamp { secs: 99, nanos: 999_999_999 });
    assert_eq!(state.jobs[0].completed_at, Some(at(100)));
    assert_eq!(at(3).later(at(4)), at(4));
    assert_eq!(at(4).later(at(3)), at(4));
    assert_eq!(
        Timestamp { secs: 4, nanos: 1 }.later(Timestamp { secs: 4, nanos: 2 }),
        Timestamp { secs: 4, nanos: 2 }
    );
}

#[test]
fn the_clock_is_read_for_stamps() {
    let mut state = AppState::new();
    let id = state.add_job("u".to_string());
    state.update_job_status(&id, JobStatus::Downloading);
    let started = state.jobs[0].started_at.unwrap();
    // some time after 2020 and before 2100
    assert!(started.secs > 1_577_836_800);
    assert!(started.secs < 4_102_444_800);
    assert!(state.jobs[0].created_at.secs > 1_577_836_800);
}

#[test]
fn set_error_at_fails_the_job() {
    let mut state = AppState::new();
    state.add_job_with("a".to_string(), "u".to_string(), at(1));
    assert!(state.set_job_error_at("a", "boom".to_string(), at(9)));
    assert_eq!(state.jobs[0].status, JobStatus::Failed);
    assert_eq!(state.jobs[0].error, Some("boom".to_string()));
    assert_eq!(state.jobs[0].completed_at, Some(at(9)));
    assert_eq!(state.jobs[0].started_at, None);
}

#[test]
fn only_a_failed_job_keeps_its_error() {
    let mut state = AppState::new();
    state.add_job_with("a".to_string(), "u".to_string(), at(1));
    state.set_job_error_at("a", "boom".to_string(), at(2));
    // failing again by status alone keeps the reason
    state.update_job_status_at("a", JobStatus::Failed, at(3));
    assert_eq!(state.jobs[0].error, Some("boom".to_string()));
    // any other status drops it
    state.update_job_status_at("a", JobStatus::Cancelled, at(4));
    assert_eq!(state.jobs[0].error, None);
    state.set_job_error_at("a", "boom".to_string(), at(5));
    state.update_job_status_at("a", JobStatus::Queued, at(6));
    assert_eq!(state.jobs[0].status, JobStatus::Queued);
    assert_eq!(state.jobs[0].error, None);
}

#[test]
fn a_status_is_set_only_along_the_life_cycle() {
    let all = [
        JobStatus::Queued,
        JobStatus::Downloading,
        JobStatus::Completed,
        JobStatus::Failed,
        JobStatus::Cancelled,
    ];
    let allowed = |from: JobStatus, to: JobStatus| {
        from == to
            || match to {
                JobStatus::Queued => from == JobStatus::Failed || from == JobStatus::Cancelled,
                JobStatus::Downloading => from == JobStatus::Queued,
                JobStatus::Completed => from == JobStatus::Downloading,
                JobStatus::Failed => from == JobStatus::Queued || from == JobStatus::Downloading,
                JobStatus::Cancelled => true,
            }
    };
    for from in all {
        for to in all {
            let mut state = AppState::new();
            state.add_job_with("a".to_string(), "u".to_string(), at(1));
            state.jobs[0].status = from;
            let before = state.jobs[0].duplicate();
            // the job is there, whatever comes of the request
            assert!(state.update_job_status_at("a", to, at(9)));
            let job = &state.jobs[0];
            if allowed(from, to) {
                assert_eq!(job.status, to, "{:?} -> {:?}", from, to);
            } else {
                assert_eq!(job.status, from, "{:?} -> {:?}", from, to);
                assert_eq!(job.completed_at, before.completed_at);
                assert_eq!(job.started_at, before.started_at);
                assert_eq!(job.error, before.error);
            }
        }
    }
    // a queued job is not completed, nor is a failed or a cancelled one
    for from in [JobStatus::Queued, JobStatus::Failed, JobStatus::Cancelled] {
        let mut job = DownloadJob::with_identity("a".to_string(), "u".to_string(), at(1));
        job.status = from;
        assert!(!job.set_status(JobStatus::Completed, at(2)));
        assert_eq!(job.status, from);
        assert_eq!(job.completed_at, None);
    }
}

#[test]
fn a_job_that_is_set_to_failed_gets_a_reason() {
    let mut state = AppState::new();
    state.add_job_with("a".to_string(), "u".to_string(), at(1));
    assert!(state.update_job_status_at("a", JobStatus::Failed, at(2)));
    assert_eq!(state.jobs[0].status, JobStatus::Failed);
    assert_eq!(state.jobs[0].error, Some("Job failed".to_string()));
    assert_eq!(state.jobs[0].completed_at, Some(at(2)));
}

#[test]
fn an_empty_error_is_replaced_by_the_unstated_reason() {
    let mut state = AppState::new();
    state.add_job_with("a".to_string(), "u".to_string(), at(1));
    assert!(state.set_job_error_at("a", "".to_string(), at(2)));
    assert_eq!(state.jobs[0].status, JobStatus::Failed);
    assert_eq!(state.jobs[0].error, Some("Job failed".to_string()));
    assert!(state.set_job_error_at("a", " ".to_string(), at(3)));
    assert_eq!(state.jobs[0].error, Some(" ".to_string()));
    // a queued job with an empty error that is set to failed gets the reason too
    state.add_job_with("b".to_string(), "u".to_string(), at(1));
    state.get_job_mut("b").unwrap().error = Some("".to_string());
    state.update_job_status_at("b", JobStatus::Failed, at(2));
    assert_eq!(state.jobs[1].error, Some("Job failed".to_string()));
}

#[test]
fn new_ids_differ_from_the_ids_of_the_store() {
    let mut state = AppState::new();
    let mut seen: Vec<String> = Vec::new();
    for i in 0..50 {
        let id = state.add_job(format!("u{}", i));
        assert!(!seen.contains(&id));
        assert_eq!(id.len(), 36);
        seen.push(id);
    }
    state.add_job_with("x".repeat(40), "u".to_string(), at(1));
    let id = state.fresh_id();
    assert!(state.get_job(&id).is_none());
    assert!(id.len() >= 36);
    assert_eq!(state.jobs[0].retry_count, 0);
}

#[test]
fn the_first_job_of_an_id_is_meant() {
    let mut state = AppState::new();
    state.add_job_with("same".to_string(), "first".to_string(), at(1));
    state.add_job_with("same".to_string(), "second".to_string(), at(2));
    state.add_job_with("other".to_string(), "third".to_string(), at(3));

    assert_eq!(state.get_job("same").unwrap().url, "first");
    assert_eq!(state.find_index("same"), Some(0));
    assert_eq!(state.find_index("other"), Some(2));
    assert_eq!(state.find_index("none"), None);

    state.update_job_status_at("same", JobStatus::Cancelled, at(4));
    assert_eq!(state.jobs[0].status, JobStatus::Cancelled);
    assert_eq!(state.jobs[1].status, JobStatus::Queued);

    // removal takes every job of the id
    assert!(state.remove_job("same"));
    assert_eq!(state.jobs.len(), 1);
    assert_eq!(state.jobs[0].id, "other");
}

#[test]
fn get_job_mut_changes_the_store() {
    let mut state = AppState::new();
    state.add_job_with("a".to_string(), "u".to_string(), at(1));
    state.add_job_with("b".to_string(), "v".to_string(), at(2));
    if let Some(job) = state.get_job_mut("b") {
        job.url = "w".to_string();
    }
    assert_eq!(state.jobs[1].url, "w");
    assert_eq!(state.jobs[0].url, "u");
    assert!(state.get_job_mut("c").is_none());
}

#[test]
fn clearing_keeps_cancelled_jobs_and_the_order() {
    let mut state = AppState::new();
    for (id, status) in [
        ("q", JobStatus::Queued),
        ("c", JobStatus::Completed),
        ("x", JobStatus::Cancelled),
        ("f", JobStatus::Failed),
        ("d", JobStatus::Downloading),
    ] {
        job_in(&mut state, id, status);
    }
    state.clear_completed_jobs();
    let left: Vec<&str> = state.jobs.iter().map(|j| j.id.as_str()).collect();
    assert_eq!(left, vec!["q", "x", "d"]);
}

#[test]
fn reset_for_retry_keeps_identity() {
    let mut job = DownloadJob::with_identity("a".to_string(), "u".to_string(), at(1));
    job.set_status(JobStatus::Downloading, at(2));
    job.set_status(JobStatus::Failed, at(3));
    job.error = Some("e".to_string());
    job.metadata = Some(JobMetadata {
        title: Some("t".to_string()),
        artist: None,
        album: None,
        duration: Some(1),
        thumbnail: None,
    });
    job.progress.stage = DownloadStage::Failed;
    job.reset_for_retry();
    assert_eq!(job.id, "a");
    assert_eq!(job.url, "u");
    assert_eq!(job.created_at, at(1));
    assert_eq!(job.status, JobStatus::Queued);
    assert_eq!(job.progress.stage, DownloadStage::Initializing);
    assert_eq!(job.progress.current_step, "Initializing...");
    assert!(job.metadata.is_some());
}

#[test]
fn duplicate_is_a_copy() {
    let mut job = DownloadJob::with_identity("a".to_string(), "u".to_string(), at(1));
    job.error = Some("e".to_string());
    job.started_at = Some(at(4));
    let copy = job.duplicate();
    assert_eq!(copy.id, job.id);
    assert_eq!(copy.url, job.url);
    assert_eq!(copy.error, job.error);
    assert_eq!(copy.started_at, job.started_at);
    assert_eq!(copy.status, job.status);
}
