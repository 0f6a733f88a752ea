use ctxopt_core::PtyError;

#[test]
fn test_error_chain_preserved_write() {
    let io_err = std::io::Error::other("root cause");
    let pty_err = PtyError::write(io_err);

    let msg = pty_err.message();
    assert!(msg.contains("write"), "Expected 'write' in message: {msg}");
    assert!(pty_err.source().is_some(), "Source should be preserved");
}

#[test]
fn test_error_chain_preserved_flush() {
    let io_err = std::io::Error::other("flush failed");
    let pty_err = PtyError::flush(io_err);

    let msg = pty_err.message();
    assert!(msg.contains("flush"), "Expected 'flush' in message: {msg}");
    assert!(pty_err.source().is_some(), "Source should be preserved");
}

#[test]
fn test_spawn_error_includes_command() {
    let io_err = std::io::Error::new(std::io::ErrorKind::NotFound, "command not found");
    let pty_err = PtyError::spawn("nonexistent_cmd", io_err);

    let msg = pty_err.message();
    assert!(
        msg.contains("nonexistent_cmd"),
        "Expected command name in message: {msg}"
    );
    assert!(pty_err.source().is_some(), "Source should be preserved");
}

#[test]
fn test_resize_error_includes_dimensions() {
    let io_err = std::io::Error::other("resize failed");
    let pty_err = PtyError::resize(40, 120, io_err);

    let msg = pty_err.message();
    assert!(msg.contains("40"), "Expected rows in message: {msg}");
    assert!(msg.contains("120"), "Expected cols in message: {msg}");
    assert!(pty_err.source().is_some(), "Source should be preserved");
}

#[test]
fn test_create_error_preserves_source() {
    let io_err = std::io::Error::other("pty creation failed");
    let pty_err = PtyError::create(io_err);

    let msg = pty_err.message();
    assert!(
        msg.contains("create") || msg.contains("PTY"),
        "Expected create/PTY in message: {msg}"
    );
    assert!(pty_err.source().is_some(), "Source should be preserved");
}

#[test]
fn test_wait_error() {
    let io_err = std::io::Error::other("wait failed");
    let pty_err = PtyError::wait(io_err);

    let msg = pty_err.message();
    assert!(msg.contains("wait"), "Expected 'wait' in message: {msg}");
    assert!(pty_err.source().is_some(), "Source should be preserved");
}

#[test]
fn test_kill_error() {
    let io_err = std::io::Error::other("kill failed");
    let pty_err = PtyError::kill(io_err);

    let msg = pty_err.message();
    assert!(msg.contains("kill"), "Expected 'kill' in message: {msg}");
    assert!(pty_err.source().is_some(), "Source should be preserved");
}

#[test]
fn read_error_names_read_and_keeps_cause_text() {
    let pty_err = PtyError::read(std::io::Error::other("device gone"));
    assert_eq!(pty_err.message(), "Failed to read from PTY: device gone");
    assert_eq!(pty_err.source().unwrap().to_string(), "device gone");
}

#[test]
fn resize_headline_is_exact() {
    let pty_err = PtyError::resize(7, 0, std::io::Error::other("x"));
    assert_eq!(pty_err.headline(), "Failed to resize PTY to 7x0: ");
    let wide = PtyError::resize(65535, 10, std::io::Error::other("x"));
    assert_eq!(wide.headline(), "Failed to resize PTY to 65535x10: ");
}

#[test]
fn spawn_headline_is_exact() {
    let pty_err = PtyError::spawn("vim", std::io::Error::other("no such file"));
    assert_eq!(pty_err.message(), "Failed to spawn command `vim`: no such file");
}

#[test]
fn process_exited_has_no_cause() {
    let pty_err = PtyError::ProcessExited;
    assert!(pty_err.source().is_none());
    assert_eq!(pty_err.message(), "PTY process has exited");
    assert!(pty_err.message().contains("exited"));
}

#[test]
fn io_error_keeps_cause() {
    let pty_err = PtyError::IoError(std::io::Error::other("broken pipe"));
    assert_eq!(pty_err.message(), "IO error: broken pipe");
    assert!(pty_err.source().is_some());
}

#[test]
fn io_failure_converts_to_io_error() {
    let e: PtyError = std::io::Error::other("disk full").into();
    assert!(matches!(e, PtyError::IoError(_)));
    assert_eq!(e.message(), "IO error: disk full");
}

#[test]
fn constructors_keep_cause_and_name_operation() {
    let cases = vec![
        (PtyError::create(std::io::Error::other("c")), "create"),
        (PtyError::read(std::io::Error::other("c")), "read"),
        (PtyError::write(std::io::Error::other("c")), "write"),
        (PtyError::flush(std::io::Error::other("c")), "flush"),
        (PtyError::wait(std::io::Error::other("c")), "wait"),
        (PtyError::kill(std::io::Error::other("c")), "kill"),
    ];
    for (e, op) in cases {
        assert!(e.headline().contains(op), "{op}");
        assert_eq!(e.message(), format!("{}c", e.headline()));
        assert_eq!(e.source().unwrap().to_string(), "c");
    }
}
