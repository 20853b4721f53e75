use gytmdl_gui::clock::Timestamp;
use gytmdl_gui::decimal::Percentage;
use gytmdl_gui::gytmdl_wrapper::{BinaryProbe, GytmdlError};
use gytmdl_gui::queue_manager::{Admission, JobResult, QueueManager};
use gytmdl_gui::state::{AppState, DownloadStage, JobStatus};
use gytmdl_gui::worker::{
    record_result, record_result_at, ExitOutcome, Worker, WorkerAction, WorkerEvent,
};

fn at(secs: i64) -> Timestamp {
    Timestamp { secs, nanos: 0 }
}

fn running_job(state: &mut AppState, id: &str) {
    state.add_job_with(id.to_string(), "https://youtu.be/x".to_string(), at(1));
    state.update_job_status_at(id, JobStatus::Downloading, at(2));
}

fn started(state: &mut AppState, id: &str) -> Worker {
    let (worker, first) = Worker::begin(state, id, "/bin/gytmdl");
    assert!(matches!(first, WorkerAction::TestBinary));
    worker
}

fn failure(action: WorkerAction) -> (String, String) {
    match action {
        WorkerAction::Finish(JobResult::Failed(id, message)) => (id, message),
        other => panic!("expected a failure, got {:?}", other),
    }
}

fn line(s: &str) -> String {
    s.to_string()
}

#[test]
fn starting_sets_the_initial_progress() {
    let mut state = AppState::new();
    running_job(&mut state, "a");
    state.jobs[0].progress.stage = DownloadStage::Finalizing;
    started(&mut state, "a");
    assert_eq!(state.jobs[0].progress.stage, DownloadStage::Initializing);
    assert_eq!(state.jobs[0].progress.current_step, "Initializing download...");
    assert_eq!(state.jobs[0].status, JobStatus::Downloading);
}

#[test]
fn a_whole_run() {
    let mut state = AppState::new();
    running_job(&mut state, "a");
    let mut w = started(&mut state, "a");

    assert!(matches!(w.step(&mut state, WorkerEvent::BinaryTestPassed), WorkerAction::Spawn));
    assert!(matches!(w.step(&mut state, WorkerEvent::Spawned), WorkerAction::CheckExit));
    assert!(matches!(w.step(&mut state, WorkerEvent::StillRunning), WorkerAction::ReadStdout));
    assert!(matches!(
        w.step(
            &mut state,
            WorkerEvent::StdoutLine(line("\x1b[32m[download] 25.0% of 5.0MiB at 1.0MiB/s ETA 00:04\x1b[0m"))
        ),
        WorkerAction::ReadStderr
    ));
    assert_eq!(state.jobs[0].progress.stage, DownloadStage::DownloadingAudio);
    assert_eq!(state.jobs[0].progress.percentage, Some(Percentage { units: 250, decimals: 1 }));
    assert_eq!(
        state.jobs[0].progress.current_step,
        "[download] 25.0% of 5.0MiB at 1.0MiB/s ETA 00:04"
    );

    // a harmless line on standard error counts as progress
    assert!(matches!(
        w.step(&mut state, WorkerEvent::StderrLine(line("  Remuxing audio stream  "))),
        WorkerAction::Pause
    ));
    assert_eq!(state.jobs[0].progress.stage, DownloadStage::Remuxing);
    assert!(matches!(w.step(&mut state, WorkerEvent::Paused), WorkerAction::CheckExit));

    // a line that says nothing leaves the progress alone
    assert!(matches!(w.step(&mut state, WorkerEvent::StillRunning), WorkerAction::ReadStdout));
    assert!(matches!(
        w.step(&mut state, WorkerEvent::StdoutLine(line("xyz"))),
        WorkerAction::ReadStderr
    ));
    assert_eq!(state.jobs[0].progress.stage, DownloadStage::Remuxing);

    // standard error closes first: only standard output is read from then on
    assert!(matches!(w.step(&mut state, WorkerEvent::StderrClosed), WorkerAction::Pause));
    assert!(matches!(w.step(&mut state, WorkerEvent::Paused), WorkerAction::CheckExit));
    assert!(matches!(w.step(&mut state, WorkerEvent::StillRunning), WorkerAction::ReadStdout));
    assert!(matches!(
        w.step(&mut state, WorkerEvent::StdoutLine(line("Finalizing download"))),
        WorkerAction::Pause
    ));
    assert!(matches!(w.step(&mut state, WorkerEvent::Paused), WorkerAction::CheckExit));
    assert!(matches!(w.step(&mut state, WorkerEvent::StillRunning), WorkerAction::ReadStdout));
    // both pipes closed: wait for the exit
    assert!(matches!(w.step(&mut state, WorkerEvent::StdoutClosed), WorkerAction::AwaitExit));
    match w.step(&mut state, WorkerEvent::Waited(ExitOutcome { success: true, code: Some(0) })) {
        WorkerAction::Finish(JobResult::Success(id)) => assert_eq!(id, "a"),
        other => panic!("unexpected {:?}", other),
    }
    // the run itself does not end the job: the result is recorded afterwards
    assert_eq!(state.jobs[0].status, JobStatus::Downloading);

    record_result_at(&mut state, "a", JobResult::Success(line("a")), at(9));
    assert_eq!(state.jobs[0].status, JobStatus::Completed);
    assert_eq!(state.jobs[0].completed_at, Some(at(9)));
    assert_eq!(state.jobs[0].progress.stage, DownloadStage::Completed);
    assert_eq!(state.jobs[0].progress.percentage, Some(Percentage { units: 100, decimals: 0 }));
    assert_eq!(state.jobs[0].progress.current_step, "Download completed successfully");
}

#[test]
fn pipes_closing_in_the_other_order() {
    let mut state = AppState::new();
    running_job(&mut state, "a");
    let mut w = started(&mut state, "a");
    assert!(matches!(w.step(&mut state, WorkerEvent::StdoutClosed), WorkerAction::ReadStderr));
    assert!(matches!(w.step(&mut state, WorkerEvent::StderrLine(line("ok"))), WorkerAction::Pause));
    assert!(matches!(w.step(&mut state, WorkerEvent::StillRunning), WorkerAction::ReadStderr));
    assert!(matches!(w.step(&mut state, WorkerEvent::StderrClosed), WorkerAction::AwaitExit));
    assert!(matches!(w.step(&mut state, WorkerEvent::StillRunning), WorkerAction::AwaitExit));
}

#[test]
fn an_error_line_on_standard_error_ends_the_run() {
    let mut state = AppState::new();
    running_job(&mut state, "a");
    let mut w = started(&mut state, "a");
    let (id, message) = failure(w.step(
        &mut state,
        WorkerEvent::StderrLine(line("  \x1b[31mERROR: Network timeout\x1b[0m ")),
    ));
    assert_eq!(id, "a");
    assert_eq!(message, "ERROR: Network timeout");
    // the progress is not touched by the error line
    assert_eq!(state.jobs[0].progress.current_step, "Initializing download...");

    // the same line on standard output is only progress, if anything
    assert!(matches!(
        w.step(&mut state, WorkerEvent::StdoutLine(line("ERROR: Network timeout"))),
        WorkerAction::ReadStderr
    ));
}

#[test]
fn the_exit_status_is_authoritative() {
    let mut state = AppState::new();
    running_job(&mut state, "a");
    let mut w = started(&mut state, "a");
    match w.step(&mut state, WorkerEvent::Exited(ExitOutcome { success: true, code: Some(0) })) {
        WorkerAction::Finish(JobResult::Success(id)) => assert_eq!(id, "a"),
        other => panic!("unexpected {:?}", other),
    }
    assert_eq!(
        failure(w.step(
            &mut state,
            WorkerEvent::Exited(ExitOutcome { success: false, code: Some(1) })
        ))
        .1,
        "Process exited with code: 1. Binary path: \"/bin/gytmdl\""
    );
    assert_eq!(
        failure(w.step(
            &mut state,
            WorkerEvent::Exited(ExitOutcome { success: false, code: Some(-11) })
        ))
        .1,
        "Process exited with code: -11. Binary path: \"/bin/gytmdl\""
    );
    assert_eq!(
        failure(w.step(
            &mut state,
            WorkerEvent::Exited(ExitOutcome { success: false, code: Some(2) })
        ))
        .1,
        "gytmdl process failed with exit code 2. Binary path: \"/bin/gytmdl\". This usually means the binary is not working correctly or missing dependencies."
    );
    assert_eq!(
        failure(w.step(&mut state, WorkerEvent::Exited(ExitOutcome { success: false, code: None })))
            .1,
        "Process was terminated by signal. Binary path: \"/bin/gytmdl\""
    );
}

#[test]
fn the_final_wait() {
    let mut state = AppState::new();
    running_job(&mut state, "a");
    let mut w = started(&mut state, "a");
    assert_eq!(
        failure(w.step(
            &mut state,
            WorkerEvent::Waited(ExitOutcome { success: false, code: Some(3) })
        ))
        .1,
        "Process exited with code: Some(3)"
    );
    assert_eq!(
        failure(w.step(&mut state, WorkerEvent::Waited(ExitOutcome { success: false, code: None })))
            .1,
        "Process exited with code: None"
    );
    assert_eq!(
        failure(w.step(&mut state, WorkerEvent::WaitFailed(line("gone")))).1,
        "Error waiting for process: gone"
    );
}

#[test]
fn failures_of_the_pipes_and_of_the_status() {
    let mut state = AppState::new();
    running_job(&mut state, "a");
    let mut w = started(&mut state, "a");
    assert_eq!(
        failure(w.step(&mut state, WorkerEvent::StdoutFailed(line("broken pipe")))).1,
        "Error reading stdout: broken pipe"
    );
    assert_eq!(
        failure(w.step(&mut state, WorkerEvent::StderrFailed(line("broken pipe")))).1,
        "Error reading stderr: broken pipe"
    );
    assert_eq!(
        failure(w.step(&mut state, WorkerEvent::ExitCheckFailed(line("no child")))).1,
        "Error checking process status: no child"
    );
}

#[test]
fn failures_to_spawn() {
    let mut state = AppState::new();
    running_job(&mut state, "a");
    let mut w = started(&mut state, "a");
    let missing = Worker::spawn_failure(&GytmdlError::BinaryNotFound(line("/bin/gytmdl")));
    assert_eq!(
        failure(w.step(&mut state, missing)).1,
        "gytmdl binary not found. Please build sidecar binaries or install gytmdl. Error: gytmdl binary not found at: /bin/gytmdl"
    );
    let config = Worker::spawn_failure(&GytmdlError::ConfigError(line("Failed to create output directory: denied")));
    assert_eq!(
        failure(w.step(&mut state, config)).1,
        "Failed to spawn process: Configuration error: Failed to create output directory: denied"
    );
    let os = Worker::spawn_failure(&GytmdlError::ProcessSpawnError(std::io::Error::new(
        std::io::ErrorKind::PermissionDenied,
        "denied",
    )));
    assert_eq!(
        failure(w.step(&mut state, os)).1,
        "Failed to spawn process: Failed to spawn gytmdl process: denied"
    );
}

#[test]
fn unreachable_executable_fails_the_job_without_a_process() {
    // the job is submitted and admitted
    let mut state = AppState::new();
    let mut manager = QueueManager::new(
        "gytmdl",
        BinaryProbe {
            sidecar_path: "/gone/gytmdl".to_string(),
            sidecar_exists: true,
            current_dir_path: Ok("/cwd/gytmdl".to_string()),
            current_dir_exists: false,
            on_search_path: None,
        },
        1,
    )
    .unwrap();
    let id = state.add_job("https://music.youtube.com/watch?v=x".to_string());
    manager.submit_job(id.clone()).unwrap();
    let job = match manager.admit_next(&mut state) {
        Admission::Spawn { job, .. } => job,
        other => panic!("unexpected {:?}", other),
    };

    // its worker learns that the tool cannot be run
    let path = manager.wrapper().get_binary_path().to_string();
    let (mut worker, first) = Worker::begin(&mut state, &job.id, &path);
    assert!(matches!(first, WorkerAction::TestBinary));
    let broken = GytmdlError::ProcessSpawnError(std::io::Error::new(
        std::io::ErrorKind::NotFound,
        "No such file or directory",
    ));
    let action = worker.step(&mut state, WorkerEvent::BinaryTestFailed(broken.to_string()));

    // the run ends there: no process was asked for
    let result = match action {
        WorkerAction::Finish(result) => result,
        other => panic!("a process was asked for: {:?}", other),
    };
    record_result(&mut state, &id, result);
    manager.reap(&vec![id.clone()]);

    let job = state.get_job(&id).unwrap();
    assert_eq!(job.status, JobStatus::Failed);
    assert_eq!(
        job.error,
        Some(
            "Binary test failed: Failed to spawn gytmdl process: No such file or directory. Binary path: \"/gone/gytmdl\""
                .to_string()
        )
    );
    assert!(job.completed_at.is_some());
    assert_eq!(manager.running_count(), 0);
}

#[test]
fn results_are_recorded_along_the_life_cycle() {
    let mut state = AppState::new();
    for (id, status) in [
        ("queued", JobStatus::Queued),
        ("running", JobStatus::Downloading),
        ("done", JobStatus::Completed),
        ("failed", JobStatus::Failed),
        ("cancelled", JobStatus::Cancelled),
    ] {
        state.add_job_with(id.to_string(), "u".to_string(), at(1));
        if status == JobStatus::Completed {
            state.update_job_status_at(id, JobStatus::Downloading, at(2));
        }
        state.update_job_status_at(id, status, at(2));
        state.get_job_mut(id).unwrap().error = None;
    }
    let status = |state: &AppState, id: &str| state.get_job(id).unwrap().status;

    // only a downloading job completes
    for id in ["queued", "done", "failed", "cancelled"] {
        let before = status(&state, id);
        record_result_at(&mut state, id, JobResult::Success(line(id)), at(5));
        assert_eq!(status(&state, id), before, "{}", id);
    }
    // a job that has ended does not fail any more
    for id in ["done", "failed", "cancelled"] {
        let before = status(&state, id);
        record_result_at(&mut state, id, JobResult::Failed(line(id), line("late")), at(5));
        assert_eq!(status(&state, id), before, "{}", id);
        assert_eq!(state.get_job(id).unwrap().error, None);
    }
    // a queued job may fail, a downloading job may fail
    record_result_at(&mut state, "queued", JobResult::Failed(line("queued"), line("tool unavailable")), at(6));
    assert_eq!(status(&state, "queued"), JobStatus::Failed);
    assert_eq!(state.get_job("queued").unwrap().error, Some(line("tool unavailable")));
    assert_eq!(state.get_job("queued").unwrap().completed_at, Some(at(6)));
    record_result_at(&mut state, "running", JobResult::Failed(line("running"), line("exit 1")), at(7));
    assert_eq!(status(&state, "running"), JobStatus::Failed);

    // any job may be cancelled
    record_result_at(&mut state, "done", JobResult::Cancelled(line("done")), at(8));
    assert_eq!(status(&state, "done"), JobStatus::Cancelled);
    assert_eq!(state.get_job("done").unwrap().completed_at, Some(at(8)));

    // a job that is gone changes nothing
    record_result_at(&mut state, "nobody", JobResult::Success(line("nobody")), at(9));
    assert_eq!(state.jobs.len(), 5);
}

#[test]
fn a_worker_of_a_job_that_is_gone() {
    let mut state = AppState::new();
    let mut w = started(&mut state, "ghost");
    assert!(matches!(
        w.step(&mut state, WorkerEvent::StdoutLine(line("Remuxing"))),
        WorkerAction::ReadStderr
    ));
    assert!(state.jobs.is_empty());
}
