use gytmdl_gui::clock::Timestamp;
use gytmdl_gui::gytmdl_wrapper::{BinaryProbe, GytmdlError, GytmdlWrapper};
use gytmdl_gui::queue_manager::{Admission, QueueManager};
use gytmdl_gui::state::{AppConfig, AppState, JobStatus};

fn found() -> BinaryProbe {
    BinaryProbe {
        sidecar_path: "/app/sidecars/gytmdl".to_string(),
        sidecar_exists: true,
        current_dir_path: Ok("/cwd/gytmdl".to_string()),
        current_dir_exists: false,
        on_search_path: None,
    }
}

fn manager(limit: usize) -> QueueManager {
    QueueManager::new("gytmdl", found(), limit).expect("a binary was found")
}

fn at(secs: i64) -> Timestamp {
    Timestamp { secs, nanos: 0 }
}

/// Adds a job and takes it to the given status along the life cycle.
fn job_in(state: &mut AppState, id: &str, status: JobStatus) {
    state.add_job_with(id.to_string(), "u".to_string(), at(1));
    if status == JobStatus::Completed {
        state.update_job_status_at(id, JobStatus::Downloading, at(2));
    }
    state.update_job_status_at(id, status, at(2));
    assert_eq!(state.get_job(id).unwrap().status, status);
}

#[test]
fn test_queue_manager_creation() {
    let state = AppState::new();
    if let Ok(manager) = QueueManager::new("gytmdl", found(), 3) {
        assert_eq!(manager.get_concurrent_limit(), 3);
        assert!(!manager.is_paused());
        assert_eq!(manager.running_count(), 0);
        assert_eq!(manager.queued_count(&state), 0);
    }
}

#[test]
fn test_pause_resume_functionality() {
    let mut state = AppState::new();
    let mut manager = manager(2);
    // Initially not paused
    assert!(!manager.is_paused());

    // Pause the queue
    manager.pause(&mut state);
    assert!(manager.is_paused());
    assert!(state.is_paused());

    // Resume the queue
    manager.resume(&mut state);
    assert!(!manager.is_paused());
    assert!(!state.is_paused());
}

#[test]
fn test_job_submission() {
    let mut state = AppState::new();
    let mut manager = manager(2);
    let job_id = state.add_job("https://music.youtube.com/watch?v=test".to_string());

    let result = manager.submit_job(job_id.clone());
    assert!(result.is_ok());
}

#[test]
fn test_calculate_backoff_delay() {
    assert_eq!(QueueManager::calculate_backoff_delay(0), 1000);
    assert_eq!(QueueManager::calculate_backoff_delay(1), 1000); // 1 second (2^0)
    assert_eq!(QueueManager::calculate_backoff_delay(2), 2000); // 2 seconds (2^1)
    assert_eq!(QueueManager::calculate_backoff_delay(3), 4000); // 4 seconds (2^2)
    assert_eq!(QueueManager::calculate_backoff_delay(4), 8000); // 8 seconds (2^3)

    // Test max delay cap
    let large_retry = QueueManager::calculate_backoff_delay(10);
    assert_eq!(large_retry, 30000); // Should be capped at 30 seconds
}

#[test]
fn test_concurrent_limit_update() {
    let mut state = AppState::new();
    let mut manager = manager(2);
    assert_eq!(manager.get_concurrent_limit(), 2);

    // Update concurrent limit
    let result = manager.set_concurrent_limit(&mut state, 5);
    assert!(result.is_ok());
    assert_eq!(manager.get_concurrent_limit(), 5);
    assert_eq!(state.config.concurrent_limit, 5);

    // Test invalid limit
    let result = manager.set_concurrent_limit(&mut state, 0);
    assert_eq!(result, Err("Concurrent limit must be greater than 0".to_string()));
    assert_eq!(manager.get_concurrent_limit(), 5); // Should remain unchanged
    assert_eq!(state.config.concurrent_limit, 5);
}

#[test]
fn test_queue_stats() {
    let mut state = AppState::new();
    let manager = manager(2);
    let job_id1 = state.add_job("https://test1.com".to_string());
    let job_id2 = state.add_job("https://test2.com".to_string());
    let job_id3 = state.add_job("https://test3.com".to_string());

    // Set different statuses
    state.update_job_status(&job_id1, JobStatus::Downloading);
    state.update_job_status(&job_id2, JobStatus::Downloading);
    state.update_job_status(&job_id2, JobStatus::Completed);
    state.update_job_status(&job_id3, JobStatus::Failed);

    let stats = manager.get_queue_stats(&state);
    assert_eq!(stats.total, 3);
    assert_eq!(stats.queued, 0);
    assert_eq!(stats.completed, 1);
    assert_eq!(stats.failed, 1);
    assert!(!stats.is_paused);
    // every number is a count of the jobs of the store
    assert_eq!(stats.downloading, 1);
    assert_eq!(stats.cancelled, 0);
}

#[test]
fn test_job_removal() {
    let mut state = AppState::new();
    let mut manager = manager(2);
    let job_id = state.add_job("https://test.com".to_string());

    // Verify job exists
    assert!(manager.get_job_info(&state, &job_id).is_some());

    // Remove the job
    let result = manager.remove_job(&mut state, &job_id);
    assert!(result.is_ok());

    // Verify job is removed
    assert!(manager.get_job_info(&state, &job_id).is_none());

    // a second removal finds nothing
    assert_eq!(manager.remove_job(&mut state, &job_id), Err("Job not found".to_string()));
}

#[test]
fn test_clear_completed_jobs() {
    let mut state = AppState::new();
    let manager = manager(2);
    let job_id1 = state.add_job("https://test1.com".to_string());
    let job_id2 = state.add_job("https://test2.com".to_string());
    let job_id3 = state.add_job("https://test3.com".to_string());
    let _job_id4 = state.add_job("https://test4.com".to_string());

    state.update_job_status(&job_id1, JobStatus::Downloading);
    state.update_job_status(&job_id1, JobStatus::Completed);
    state.update_job_status(&job_id2, JobStatus::Failed);
    state.update_job_status(&job_id3, JobStatus::Downloading);
    // job_id4 remains Queued

    let initial_stats = manager.get_queue_stats(&state);
    assert_eq!(initial_stats.total, 4);

    // Clear completed jobs
    let cleared_count = manager.clear_completed_jobs(&mut state).unwrap();
    assert_eq!(cleared_count, 2); // Should clear completed and failed

    let final_stats = manager.get_queue_stats(&state);
    assert_eq!(final_stats.total, 2); // Only downloading and queued should remain
}

#[test]
fn test_retry_job_validation() {
    let mut state = AppState::new();
    let manager = manager(2);
    let job_id = state.add_job("https://test.com".to_string());
    state.update_job_status(&job_id, JobStatus::Failed);

    // Should be able to retry a failed job
    let result = manager.retry_job(&mut state, job_id.clone());
    assert!(result.is_ok());

    // Job should now be queued again
    let job_info = manager.get_job_info(&state, &job_id).unwrap();
    assert_eq!(job_info.status, JobStatus::Queued);
}

#[test]
fn test_health_check() {
    let manager = manager(2);
    match manager.health_check(Ok("gytmdl 1.0.0".to_string())) {
        Ok(msg) => assert!(msg.contains("healthy")),
        Err(msg) => panic!("unexpected: {}", msg),
    }
    match manager.health_check(Err(GytmdlError::ProcessError("x".to_string()))) {
        Ok(msg) => panic!("unexpected: {}", msg),
        Err(msg) => assert!(msg.contains("Health check failed")),
    }
}

// ---- exact values ----

#[test]
fn health_check_messages() {
    let manager = manager(2);
    assert_eq!(
        manager.health_check(Ok("gytmdl 1.0.0".to_string())),
        Ok("Queue manager healthy. gytmdl version: gytmdl 1.0.0".to_string())
    );
    assert_eq!(
        manager.health_check(Err(GytmdlError::ProcessError("Binary test failed: no".to_string()))),
        Err("Health check failed: Process error: Binary test failed: no".to_string())
    );
}

#[test]
fn scheduler_without_a_binary() {
    let nowhere = BinaryProbe {
        sidecar_path: "/app/sidecars/gytmdl".to_string(),
        sidecar_exists: false,
        current_dir_path: Ok("/cwd/gytmdl".to_string()),
        current_dir_exists: false,
        on_search_path: None,
    };
    assert!(matches!(
        QueueManager::new("gytmdl", nowhere, 2),
        Err(GytmdlError::BinaryNotFound(_))
    ));
}

#[test]
fn backoff_doubles_up_to_thirty_seconds() {
    let expected = [1000u64, 1000, 2000, 4000, 8000, 16000, 30000, 30000];
    for (k, want) in expected.iter().enumerate() {
        assert_eq!(QueueManager::calculate_backoff_delay(k as u32), *want, "retry {}", k);
    }
    assert_eq!(QueueManager::calculate_backoff_delay(64), 30000);
    assert_eq!(QueueManager::calculate_backoff_delay(65), 30000);
    assert_eq!(QueueManager::calculate_backoff_delay(u32::MAX), 30000);
    let mut last = 0;
    for k in 0..100 {
        let d = QueueManager::calculate_backoff_delay(k);
        assert!(d >= last);
        assert!(d <= 30000);
        last = d;
    }
}

fn spawned(a: Admission) -> (String, u32) {
    match a {
        Admission::Spawn { job, retry_count } => (job.id, retry_count),
        other => panic!("expected a spawn, got {:?}", other),
    }
}

#[test]
fn admission_is_first_in_first_out_and_bounded() {
    let mut state = AppState::new();
    let mut m = manager(2);
    let ids: Vec<String> = (0..4)
        .map(|i| state.add_job_with(format!("job-{}", i), format!("https://t{}", i), at(1)))
        .collect();
    for id in &ids {
        m.submit_job(id.clone()).unwrap();
    }

    let (first, retries) = spawned(m.admit_next_at(&mut state, at(10)));
    assert_eq!(first, ids[0]);
    assert_eq!(retries, 0);
    assert_eq!(state.get_job(&ids[0]).unwrap().status, JobStatus::Downloading);
    assert_eq!(state.get_job(&ids[0]).unwrap().started_at, Some(at(10)));
    assert_eq!(m.running_count(), 1);

    let (second, _) = spawned(m.admit_next_at(&mut state, at(11)));
    assert_eq!(second, ids[1]);
    assert_eq!(m.running_count(), 2);

    // the ceiling is reached: nothing more is admitted, however often asked
    for _ in 0..5 {
        assert!(matches!(m.admit_next_at(&mut state, at(12)), Admission::Idle));
        assert_eq!(m.running_count(), 2);
        assert_eq!(state.count_jobs_by_status(&JobStatus::Downloading), 2);
    }
    assert_eq!(state.get_job(&ids[2]).unwrap().status, JobStatus::Queued);

    // a worker ends: its slot is free again
    m.reap(&vec![ids[0].clone()]);
    assert_eq!(m.running_count(), 1);
    let (third, _) = spawned(m.admit_next_at(&mut state, at(13)));
    assert_eq!(third, ids[2]);
    assert!(matches!(m.admit_next_at(&mut state, at(14)), Admission::Idle));
    assert!(m.running_count() <= m.get_concurrent_limit());
}

#[test]
fn admission_with_the_clock() {
    let mut state = AppState::new();
    let mut m = manager(1);
    let id = state.add_job("https://t".to_string());
    m.submit_job(id.clone()).unwrap();
    let (got, _) = spawned(m.admit_next(&mut state));
    assert_eq!(got, id);
    assert!(state.get_job(&id).unwrap().started_at.is_some());
}

#[test]
fn the_spawned_job_is_the_record_before_admission() {
    let mut state = AppState::new();
    let mut m = manager(1);
    let id = state.add_job("https://t".to_string());
    m.submit_job(id.clone()).unwrap();
    match m.admit_next_at(&mut state, at(1)) {
        Admission::Spawn { job, .. } => {
            assert_eq!(job.status, JobStatus::Queued);
            assert_eq!(job.started_at, None);
            assert_eq!(job.url, "https://t");
        }
        other => panic!("unexpected {:?}", other),
    }
}

#[test]
fn admission_waits_idles_and_stops() {
    let mut state = AppState::new();
    let mut m = manager(1);
    assert!(matches!(m.admit_next_at(&mut state, at(1)), Admission::Wait));

    let id = state.add_job("https://t".to_string());
    m.submit_job(id.clone()).unwrap();
    m.pause(&mut state);
    assert!(matches!(m.admit_next_at(&mut state, at(1)), Admission::Idle));
    assert_eq!(state.get_job(&id).unwrap().status, JobStatus::Queued);
    m.resume(&mut state);

    let zero = &mut manager(0);
    zero.submit_job(id.clone()).unwrap();
    assert!(matches!(zero.admit_next_at(&mut state, at(1)), Admission::Idle));

    let aborted = m.shutdown();
    assert!(aborted.is_empty());
    assert!(m.is_shutdown());
    assert!(matches!(m.admit_next_at(&mut state, at(1)), Admission::Stop));
    assert_eq!(state.get_job(&id).unwrap().status, JobStatus::Queued);
}

#[test]
fn submissions_of_jobs_that_are_gone_or_not_queued_are_dropped() {
    let mut state = AppState::new();
    let mut m = manager(3);
    let cancelled = state.add_job("https://a".to_string());
    let queued = state.add_job("https://b".to_string());
    m.submit_job("no-such-job".to_string()).unwrap();
    m.submit_job(cancelled.clone()).unwrap();
    m.submit_job(queued.clone()).unwrap();
    m.cancel_job(&mut state, &cancelled).unwrap();

    assert!(matches!(m.admit_next_at(&mut state, at(1)), Admission::Skip));
    assert!(matches!(m.admit_next_at(&mut state, at(1)), Admission::Skip));
    assert_eq!(state.get_job(&cancelled).unwrap().status, JobStatus::Cancelled);
    assert_eq!(m.running_count(), 0);
    let (got, _) = spawned(m.admit_next_at(&mut state, at(1)));
    assert_eq!(got, queued);
    assert!(matches!(m.admit_next_at(&mut state, at(1)), Admission::Wait));
}

#[test]
fn a_job_submitted_twice_takes_one_slot() {
    let mut state = AppState::new();
    let mut m = manager(3);
    let id = state.add_job("https://a".to_string());
    m.submit_job(id.clone()).unwrap();
    m.submit_job(id.clone()).unwrap();
    spawned(m.admit_next_at(&mut state, at(1)));
    // the second submission finds the job downloading
    assert!(matches!(m.admit_next_at(&mut state, at(2)), Admission::Skip));
    assert_eq!(m.running_count(), 1);
}

#[test]
fn cancelling_frees_the_slot_and_stamps_the_job() {
    let mut state = AppState::new();
    let mut m = manager(1);
    let id = state.add_job("https://a".to_string());
    m.submit_job(id.clone()).unwrap();
    spawned(m.admit_next_at(&mut state, at(1)));
    assert_eq!(m.running_count(), 1);

    assert!(m.cancel_job(&mut state, &id).is_ok());
    assert_eq!(m.running_count(), 0);
    let job = state.get_job(&id).unwrap();
    assert_eq!(job.status, JobStatus::Cancelled);
    assert!(job.completed_at.is_some());

    // a job that is not there is no error
    assert!(m.cancel_job(&mut state, "nobody").is_ok());
}

#[test]
fn shutdown_hands_out_the_workers() {
    let mut state = AppState::new();
    let mut m = manager(5);
    let a = state.add_job("https://a".to_string());
    let b = state.add_job("https://b".to_string());
    m.submit_job(a.clone()).unwrap();
    m.submit_job(b.clone()).unwrap();
    spawned(m.admit_next_at(&mut state, at(1)));
    spawned(m.admit_next_at(&mut state, at(1)));
    assert_eq!(m.shutdown(), vec![a, b]);
    assert_eq!(m.running_count(), 0);
}

#[test]
fn retry_is_granted_three_times() {
    let mut state = AppState::new();
    let m = manager(2);
    state.add_job_with("a".to_string(), "u".to_string(), at(1));
    state.update_job_status_at("a", JobStatus::Downloading, at(2));
    state.set_job_error_at("a", "boom".to_string(), at(3));

    let plan = m.retry_job(&mut state, "a".to_string()).unwrap();
    assert_eq!(plan.submission.job_id, "a");
    assert_eq!(plan.submission.retry_count, 1);
    assert_eq!(plan.delay_ms, 1000);
    let job = state.get_job("a").unwrap();
    assert_eq!(job.status, JobStatus::Queued);
    assert_eq!(job.retry_count, 1);
    assert_eq!(job.error, None);
    assert_eq!(job.started_at, None);
    assert_eq!(job.completed_at, None);
    assert_eq!(job.progress.current_step, "Initializing...");

    // a queued job cannot be retried
    assert_eq!(
        m.retry_job(&mut state, "a".to_string()).err(),
        Some("Job cannot be retried".to_string())
    );
    assert_eq!(
        m.retry_job(&mut state, "zzz".to_string()).err(),
        Some("Job not found".to_string())
    );

    // the count is the job's own: it survives the failures in between
    state.set_job_error_at("a", "failed again".to_string(), at(4));
    let plan = m.retry_job(&mut state, "a".to_string()).unwrap();
    assert_eq!((plan.submission.retry_count, plan.delay_ms), (2, 2000));
    state.set_job_error_at("a", "and again".to_string(), at(5));
    let plan = m.retry_job(&mut state, "a".to_string()).unwrap();
    assert_eq!((plan.submission.retry_count, plan.delay_ms), (3, 4000));

    // the fourth retry is refused, and the job stays failed
    state.set_job_error_at("a", "once more".to_string(), at(6));
    assert_eq!(
        m.retry_job(&mut state, "a".to_string()).err(),
        Some("Maximum retry attempts exceeded".to_string())
    );
    let job = state.get_job("a").unwrap();
    assert_eq!(job.status, JobStatus::Failed);
    assert_eq!(job.error, Some("once more".to_string()));
    assert_eq!(job.retry_count, 3);
    // what the error says of retries counts for nothing
    state.set_job_error_at("a", "retry_count: 0".to_string(), at(7));
    assert!(m.retry_job(&mut state, "a".to_string()).is_err());
}

#[test]
fn a_cancelled_job_can_be_retried_a_completed_one_cannot() {
    let mut state = AppState::new();
    let m = manager(2);
    job_in(&mut state, "x", JobStatus::Cancelled);
    assert_eq!(m.retry_job(&mut state, "x".to_string()).unwrap().submission.retry_count, 1);

    job_in(&mut state, "y", JobStatus::Completed);
    assert_eq!(
        m.retry_job(&mut state, "y".to_string()).err(),
        Some("Job cannot be retried".to_string())
    );
}

#[test]
fn queued_jobs_are_submitted_in_order() {
    let mut state = AppState::new();
    let mut m = manager(5);
    let a = state.add_job("https://a".to_string());
    let b = state.add_job("https://b".to_string());
    let c = state.add_job("https://c".to_string());
    state.update_job_status(&b, JobStatus::Downloading);
    state.update_job_status(&b, JobStatus::Completed);
    m.process_queued_jobs(&state).unwrap();
    assert_eq!(spawned(m.admit_next_at(&mut state, at(1))).0, a);
    assert_eq!(spawned(m.admit_next_at(&mut state, at(1))).0, c);
    assert!(matches!(m.admit_next_at(&mut state, at(1)), Admission::Wait));
}

#[test]
fn cancel_all_cancels_the_queued_and_the_running() {
    let mut state = AppState::new();
    let mut m = manager(5);
    for (id, status) in [
        ("q", JobStatus::Queued),
        ("c", JobStatus::Completed),
        ("d", JobStatus::Queued),
        ("f", JobStatus::Failed),
    ] {
        job_in(&mut state, id, status);
    }
    m.submit_job("d".to_string()).unwrap();
    spawned(m.admit_next_at(&mut state, at(3)));
    assert_eq!(m.running_count(), 1);

    assert_eq!(m.cancel_all_jobs(&mut state), Ok(2));
    let statuses: Vec<JobStatus> = state.jobs.iter().map(|j| j.status).collect();
    assert_eq!(
        statuses,
        vec![JobStatus::Cancelled, JobStatus::Completed, JobStatus::Cancelled, JobStatus::Failed]
    );
    assert_eq!(m.running_count(), 0);
    assert_eq!(state.jobs[1].completed_at, Some(at(2)));
    assert_eq!(m.cancel_all_jobs(&mut state), Ok(0));
}

#[test]
fn retry_all_retries_the_failed_that_have_retries_left() {
    let mut state = AppState::new();
    let m = manager(5);
    for (id, retries) in [("a", 0), ("b", 3), ("c", 1)] {
        state.add_job_with(id.to_string(), "u".to_string(), at(1));
        state.set_job_error_at(id, "boom".to_string(), at(2));
        state.get_job_mut(id).unwrap().retry_count = retries;
    }
    job_in(&mut state, "x", JobStatus::Cancelled);

    let plans = m.retry_all_failed_jobs(&mut state).unwrap();
    let got: Vec<(String, u32, u64)> = plans
        .into_iter()
        .map(|p| (p.submission.job_id, p.submission.retry_count, p.delay_ms))
        .collect();
    assert_eq!(got, vec![("a".to_string(), 1, 1000), ("c".to_string(), 2, 2000)]);
    let statuses: Vec<JobStatus> = state.jobs.iter().map(|j| j.status).collect();
    assert_eq!(
        statuses,
        vec![JobStatus::Queued, JobStatus::Failed, JobStatus::Queued, JobStatus::Cancelled]
    );
    let counts: Vec<u32> = state.jobs.iter().map(|j| j.retry_count).collect();
    assert_eq!(counts, vec![1, 3, 2, 0]);
}

#[test]
fn no_more_jobs_download_than_the_ceiling_allows() {
    let mut state = AppState::new();
    let mut m = manager(3);
    let ids: Vec<String> = (0..10).map(|i| state.add_job(format!("https://t{}", i))).collect();
    for id in &ids {
        m.submit_job(id.clone()).unwrap();
    }
    // the processes block for ever: no worker ends, however often the loop turns
    for _ in 0..40 {
        let _ = m.admit_next(&mut state);
        assert!(state.count_jobs_by_status(&JobStatus::Downloading) <= 3);
        assert!(m.running_count() <= 3);
        assert_eq!(state.count_jobs_by_status(&JobStatus::Downloading), m.running_count());
    }
    assert_eq!(state.count_jobs_by_status(&JobStatus::Downloading), 3);
    assert_eq!(state.count_jobs_by_status(&JobStatus::Queued), 7);
    assert_eq!(m.get_queue_stats(&state).downloading, 3);
}

#[test]
fn cancelling_takes_one_worker_off() {
    let mut state = AppState::new();
    let mut m = manager(3);
    let ids: Vec<String> = (0..3).map(|i| state.add_job(format!("https://t{}", i))).collect();
    for id in &ids {
        m.submit_job(id.clone()).unwrap();
        spawned(m.admit_next_at(&mut state, at(1)));
    }
    assert_eq!(m.running_count(), 3);
    m.cancel_job(&mut state, &ids[1]).unwrap();
    assert_eq!(m.running_count(), 2);
    assert!(!m.has_worker(&ids[1]));
    assert!(m.has_worker(&ids[0]));
    m.cancel_job(&mut state, &ids[1]).unwrap();
    assert_eq!(m.running_count(), 2);
    m.reap(&vec![ids[0].clone(), "nobody".to_string(), ids[0].clone()]);
    assert_eq!(m.running_count(), 1);
    assert!(m.has_worker(&ids[2]));
}

#[test]
fn dry_run_shows_the_command() {
    let m = manager(1);
    let mut config = AppConfig::default();
    config.save_cover = false;
    let message =
        m.test_download_dry_run(&config, "https://youtu.be/a\"b", false).unwrap();
    assert_eq!(
        message,
        "Dry run successful. Command would be: gytmdl [\"--output-path\", \"./downloads\", \"-i\", \"141\", \"--no-cover\", \"--template-folder\", \"{album_artist}/{album}\", \"--template-file\", \"{track:02d} {title}\", \"--template-date\", \"%Y-%m-%d\", \"https://youtu.be/a\\\"b\"]"
    );
    assert!(matches!(
        m.test_download_dry_run(&config, "nope", false),
        Err(GytmdlError::InvalidUrl(_))
    ));
}

#[test]
fn the_wrapper_of_the_scheduler() {
    let w = GytmdlWrapper::with_binary_path("/bin/tool".to_string(), true).unwrap();
    let m = QueueManager::with_wrapper(w, 4);
    assert_eq!(m.wrapper().get_binary_path(), "/bin/tool");
    assert_eq!(m.get_concurrent_limit(), 4);
}
