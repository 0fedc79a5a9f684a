use release::command::{classify, join, CommandError, CommandSpec, EnvVar, ProcessStatus};

fn spec() -> CommandSpec {
    CommandSpec {
        program: "cargo".to_string(),
        args: vec!["+nightly".to_string(), "tauri".to_string(), "build".to_string()],
        env: vec![EnvVar { name: "RUSTFLAGS".to_string(), value: "-Zx".to_string() }],
        cwd: "/work".to_string(),
    }
}

#[test]
fn join_with_separator() {
    let parts = vec!["a".to_string(), "bc".to_string(), "d".to_string()];
    assert_eq!(join(&parts, " "), "a bc d");
    assert_eq!(join(&parts, ", "), "a, bc, d");
    assert_eq!(join(&vec!["only".to_string()], " "), "only");
    assert_eq!(join(&Vec::new(), " "), "");
}

#[test]
fn command_line_shows_program_and_args() {
    assert_eq!(spec().command_line(), "cargo +nightly tauri build");
}

#[test]
fn exit_zero_succeeds() {
    assert!(classify(&spec(), ProcessStatus::Exited(0)).is_ok());
}

#[test]
fn nonzero_exit_fails_with_command_and_code() {
    match classify(&spec(), ProcessStatus::Exited(101)) {
        Err(CommandError::Exit { command, code }) => {
            assert_eq!(command, "cargo +nightly tauri build");
            assert_eq!(code, 101);
        }
        _ => panic!("expected an exit failure"),
    }
}

#[test]
fn spawn_failure_keeps_system_text() {
    match classify(&spec(), ProcessStatus::SpawnFailed("No such file or directory".to_string())) {
        Err(CommandError::Spawn { program, message }) => {
            assert_eq!(program, "cargo");
            assert_eq!(message, "No such file or directory");
        }
        _ => panic!("expected a spawn failure"),
    }
}

#[test]
fn wait_failure_keeps_system_text() {
    match classify(&spec(), ProcessStatus::WaitFailed("interrupted".to_string())) {
        Err(CommandError::Wait { program, message }) => {
            assert_eq!(program, "cargo");
            assert_eq!(message, "interrupted");
        }
        _ => panic!("expected a wait failure"),
    }
}

#[test]
fn signal_is_distinct_from_exit_code() {
    match classify(&spec(), ProcessStatus::Terminated("signal: 9 (SIGKILL)".to_string())) {
        Err(CommandError::Abnormal { command, status }) => {
            assert_eq!(command, "cargo +nightly tauri build");
            assert_eq!(status, "signal: 9 (SIGKILL)");
        }
        _ => panic!("expected an abnormal termination"),
    }
}
