use alchemist::drain::StreamTag;
use alchemist::paths::BuildMode;
use alchemist::paths::LaunchEnvironment;
use alchemist::supervisor::LaunchDescriptor;
use alchemist::supervisor::LaunchError;
use alchemist::supervisor::Phase;
use alchemist::supervisor::SpawnOutcome;
use alchemist::supervisor::Supervisor;

fn descriptor(path: &str) -> LaunchDescriptor {
    LaunchDescriptor {
        program: "python3".to_string(),
        script_path: path.to_string(),
    }
}

#[test]
fn dev_launch_with_script_present_returns_pid_message() {
    let env = LaunchEnvironment {
        current_dir: "/work/alchemist/src-tauri".to_string(),
        resource_dir: "/unused".to_string(),
    };
    let d = LaunchDescriptor::for_environment(BuildMode::Development, &env);
    assert_eq!(d.program, "python3");
    let mut s = Supervisor::new(d);
    assert_eq!(s.phase, Phase::NotStarted);

    s.check_script(true).expect("script present");
    assert_eq!(s.phase, Phase::Spawning);

    let ack = s
        .record_spawn(SpawnOutcome::Spawned {
            pid: Some(1234),
            stdout_captured: true,
            stderr_captured: true,
        })
        .expect("spawn succeeded");
    assert_eq!(ack, "Python backend started with PID: 1234");
    assert!(!ack.is_empty());
    assert_eq!(s.phase, Phase::Running);
}

#[test]
fn launch_without_script_returns_backend_not_found() {
    let mut s = Supervisor::new(descriptor("/nowhere/backend/flask_api.py"));
    let err = s.check_script(false).expect_err("script absent");
    assert_eq!(
        err,
        LaunchError::BackendNotFound {
            path: "/nowhere/backend/flask_api.py".to_string()
        }
    );
    // The attempt is terminally failed: the machine never reaches the
    // spawning phase, so no child process is ever created for it.
    assert_eq!(s.phase, Phase::Failed);
    assert_ne!(s.phase, Phase::Spawning);
}

#[test]
fn backend_not_found_message_names_the_path() {
    let err = LaunchError::BackendNotFound {
        path: "/tmp/backend/flask_api.py".to_string(),
    };
    assert_eq!(
        err.message(),
        "Python script not found at: /tmp/backend/flask_api.py"
    );
}

#[test]
fn spawn_refused_returns_spawn_failed() {
    let mut s = Supervisor::new(descriptor("/ok/flask_api.py"));
    s.check_script(true).unwrap();
    let err = s
        .record_spawn(SpawnOutcome::Refused {
            detail: "permission denied".to_string(),
        })
        .expect_err("os refused");
    assert_eq!(
        err,
        LaunchError::SpawnFailed {
            detail: "permission denied".to_string()
        }
    );
    assert_eq!(
        err.message(),
        "Failed to spawn python process: permission denied"
    );
    assert_eq!(s.phase, Phase::Failed);
}

#[test]
fn missing_stdout_pipe_fails_stream_capture() {
    let mut s = Supervisor::new(descriptor("/ok/flask_api.py"));
    s.check_script(true).unwrap();
    let err = s
        .record_spawn(SpawnOutcome::Spawned {
            pid: Some(7),
            stdout_captured: false,
            stderr_captured: true,
        })
        .expect_err("no stdout pipe");
    assert_eq!(
        err,
        LaunchError::StreamCaptureFailed {
            stream: StreamTag::Stdout
        }
    );
    assert_eq!(err.message(), "Failed to capture stdout");
    assert_eq!(s.phase, Phase::Failed);
}

#[test]
fn missing_stderr_pipe_fails_stream_capture() {
    let mut s = Supervisor::new(descriptor("/ok/flask_api.py"));
    s.check_script(true).unwrap();
    let err = s
        .record_spawn(SpawnOutcome::Spawned {
            pid: Some(7),
            stdout_captured: true,
            stderr_captured: false,
        })
        .expect_err("no stderr pipe");
    assert_eq!(
        err,
        LaunchError::StreamCaptureFailed {
            stream: StreamTag::Stderr
        }
    );
    assert_eq!(err.message(), "Failed to capture stderr");
    assert_eq!(s.phase, Phase::Failed);
}

#[test]
fn pid_unavailable_uses_placeholder() {
    let mut s = Supervisor::new(descriptor("/ok/flask_api.py"));
    s.check_script(true).unwrap();
    let ack = s
        .record_spawn(SpawnOutcome::Spawned {
            pid: None,
            stdout_captured: true,
            stderr_captured: true,
        })
        .expect("spawn succeeded");
    assert_eq!(ack, "Python backend started with PID: N/A");
    assert!(!ack.is_empty());
}

#[test]
fn full_lifecycle_reaches_exited() {
    let mut s = Supervisor::new(descriptor("/ok/flask_api.py"));
    s.check_script(true).unwrap();
    s.record_spawn(SpawnOutcome::Spawned {
        pid: Some(42),
        stdout_captured: true,
        stderr_captured: true,
    })
    .unwrap();
    assert_eq!(s.phase, Phase::Running);
    s.begin_exit_wait();
    assert_eq!(s.phase, Phase::Draining);
    s.record_exit();
    assert_eq!(s.phase, Phase::Exited);
}

#[test]
fn two_launches_get_independent_pids() {
    let mut first = Supervisor::new(descriptor("/ok/flask_api.py"));
    let mut second = Supervisor::new(descriptor("/ok/flask_api.py"));
    first.check_script(true).unwrap();
    second.check_script(true).unwrap();
    let ack_first = first
        .record_spawn(SpawnOutcome::Spawned {
            pid: Some(101),
            stdout_captured: true,
            stderr_captured: true,
        })
        .unwrap();
    let ack_second = second
        .record_spawn(SpawnOutcome::Spawned {
            pid: Some(202),
            stdout_captured: true,
            stderr_captured: true,
        })
        .unwrap();
    assert_eq!(ack_first, "Python backend started with PID: 101");
    assert_eq!(ack_second, "Python backend started with PID: 202");
    assert_ne!(ack_first, ack_second);
    assert_eq!(first.phase, Phase::Running);
    assert_eq!(second.phase, Phase::Running);
}
