use ctxopt_core::launch::cli_args;
use ctxopt_core::session::{
    finish_read, read_buffer, running_from_probe, settle_create, settle_flush, settle_kill,
    settle_read, settle_resize, settle_spawn, settle_wait, settle_write, ReadOutcome,
    READ_WINDOW,
};
use ctxopt_core::{LaunchPlan, PtyError, PtySize};
use portable_pty::ExitStatus;

fn filled(text: &[u8]) -> Vec<u8> {
    let mut buf = read_buffer();
    buf[..text.len()].copy_from_slice(text);
    buf
}

#[test]
fn read_buffer_is_one_window() {
    let buf = read_buffer();
    assert_eq!(buf.len(), READ_WINDOW);
    assert_eq!(READ_WINDOW, 8192);
    assert!(buf.iter().all(|b| *b == 0));
}

#[test]
fn read_returns_bytes_read() {
    let out = finish_read(filled(b"hello\r\n"), Ok(5)).unwrap();
    assert_eq!(out, b"hello");
}

#[test]
fn read_end_of_stream_is_empty_success() {
    let out = finish_read(filled(b"stale"), Ok(0)).unwrap();
    assert!(out.is_empty());
}

#[test]
fn read_would_block_is_empty_success() {
    let err = std::io::Error::from(std::io::ErrorKind::WouldBlock);
    let out = finish_read(filled(b"stale"), Err(err)).unwrap();
    assert!(out.is_empty());
}

#[test]
fn read_failure_is_read_error() {
    let err = std::io::Error::other("input/output error");
    match finish_read(read_buffer(), Err(err)) {
        Err(e @ PtyError::ReadError(_)) => {
            assert!(e.message().contains("read"));
            assert!(e.message().contains("input/output error"));
        }
        other => panic!("expected a read error, got {other:?}"),
    }
}

#[test]
fn settle_read_outcomes() {
    assert_eq!(settle_read(filled(b"abc"), ReadOutcome::Bytes(3)).unwrap(), b"abc");
    assert!(settle_read(filled(b"abc"), ReadOutcome::WouldBlock).unwrap().is_empty());
    let failed = settle_read(read_buffer(), ReadOutcome::Failed(std::io::Error::other("x")));
    assert!(matches!(failed, Err(PtyError::ReadError(_))));
}

#[test]
fn write_and_flush_failures_differ() {
    assert!(settle_write(Ok(())).is_ok());
    assert!(settle_flush(Ok(())).is_ok());
    let w = settle_write(Err(std::io::Error::other("gone")));
    assert!(matches!(w, Err(PtyError::WriteError(_))));
    let f = settle_flush(Err(std::io::Error::other("gone")));
    assert!(matches!(f, Err(PtyError::FlushError(_))));
}

#[test]
fn resize_success_updates_cached_size() {
    let mut size = PtySize::default();
    let r = settle_resize(&mut size, PtySize { rows: 40, cols: 120 }, Ok(()));
    assert!(r.is_ok());
    assert_eq!(size, PtySize { rows: 40, cols: 120 });
}

#[test]
fn resize_failure_keeps_cached_size() {
    let mut size = PtySize::default();
    let r = settle_resize(
        &mut size,
        PtySize { rows: 40, cols: 120 },
        Err(std::io::Error::other("ioctl failed")),
    );
    assert_eq!(size, PtySize { rows: 24, cols: 80 });
    match r {
        Err(e @ PtyError::ResizeError { rows: 40, cols: 120, .. }) => {
            assert!(e.message().contains("40x120"));
        }
        other => panic!("expected a resize error, got {other:?}"),
    }
}

#[test]
fn probe_decides_liveness() {
    assert!(running_from_probe(&Ok(None)));
    assert!(!running_from_probe(&Ok(Some(ExitStatus::with_exit_code(0)))));
    assert!(!running_from_probe(&Err(std::io::Error::other("x"))));
}

#[test]
fn wait_returns_exit_code() {
    assert_eq!(settle_wait(Ok(ExitStatus::with_exit_code(0))).unwrap(), 0);
    assert_eq!(settle_wait(Ok(ExitStatus::with_exit_code(3))).unwrap(), 3);
    let e = settle_wait(Err(std::io::Error::other("x")));
    assert!(matches!(e, Err(PtyError::WaitError(_))));
}

#[test]
fn kill_failure_is_kill_error() {
    assert!(settle_kill(Ok(())).is_ok());
    let e = settle_kill(Err(std::io::Error::other("no such process")));
    assert!(matches!(e, Err(PtyError::KillError(_))));
}

#[test]
fn plan_builds_command() {
    let plan = LaunchPlan::new(
        "printf",
        &["%s", "a b"],
        vec![("CTX_KEY".to_string(), "value".to_string())],
        Some("/tmp".to_string()),
    );
    assert_eq!(plan.program, "printf");
    assert_eq!(plan.args, vec!["%s".to_string(), "a b".to_string()]);
    let cmd = plan.to_command();
    let argv: Vec<&str> = cmd.get_argv().iter().map(|s| s.to_str().unwrap()).collect();
    assert_eq!(argv, vec!["printf", "%s", "a b"]);
    assert_eq!(cmd.get_env("CTX_KEY").and_then(|v| v.to_str()), Some("value"));
    assert_eq!(cmd.get_cwd().and_then(|c| c.to_str()), Some("/tmp"));
}

#[test]
fn plan_without_args_or_cwd() {
    let plan = LaunchPlan::new("true", &[], Vec::new(), None);
    let cmd = plan.to_command();
    assert_eq!(cmd.get_argv().len(), 1);
    assert!(cmd.get_cwd().is_none());
}

#[test]
fn cli_args_with_and_without_profile() {
    assert!(cli_args(None).is_empty());
    assert_eq!(cli_args(Some("work")), vec!["--profile".to_string(), "work".to_string()]);
}

#[test]
fn create_failure_keeps_cause() {
    assert_eq!(settle_create(Ok::<u8, std::io::Error>(7)).unwrap(), 7);
    let e = settle_create::<u8>(Err(std::io::Error::other("pty creation failed"))).unwrap_err();
    assert!(matches!(e, PtyError::CreateError(_)));
    assert!(e.message().contains("create"));
    assert_eq!(e.source().unwrap().to_string(), "pty creation failed");
}

#[test]
fn spawn_failure_names_command() {
    assert_eq!(settle_spawn("sh", Ok::<u8, std::io::Error>(1)).unwrap(), 1);
    let cause = std::io::Error::new(std::io::ErrorKind::NotFound, "command not found");
    let e = settle_spawn::<u8>("nonexistent_cmd", Err(cause)).unwrap_err();
    let msg = e.message();
    assert!(msg.contains("spawn") && msg.contains("nonexistent_cmd"), "{msg}");
    assert!(e.source().is_some());
}

#[test]
fn plan_last_entry_of_a_key_wins() {
    let plan = LaunchPlan::new(
        "env",
        &[],
        vec![
            ("CTX_A".to_string(), "1".to_string()),
            ("CTX_B".to_string(), "2".to_string()),
            ("CTX_A".to_string(), "3".to_string()),
        ],
        None,
    );
    let cmd = plan.to_command();
    assert_eq!(cmd.get_env("CTX_A").and_then(|v| v.to_str()), Some("3"));
    assert_eq!(cmd.get_env("CTX_B").and_then(|v| v.to_str()), Some("2"));
}

#[test]
fn plan_distinct_keys_all_set() {
    let plan = LaunchPlan::new(
        "env",
        &["-i"],
        vec![
            ("CTX_ONE".to_string(), "x".to_string()),
            ("CTX_TWO".to_string(), "y".to_string()),
        ],
        Some("/".to_string()),
    );
    let cmd = plan.to_command();
    assert_eq!(cmd.get_env("CTX_ONE").and_then(|v| v.to_str()), Some("x"));
    assert_eq!(cmd.get_env("CTX_TWO").and_then(|v| v.to_str()), Some("y"));
    assert_eq!(cmd.get_cwd().and_then(|c| c.to_str()), Some("/"));
    assert_eq!(cmd.get_argv().len(), 2);
}
