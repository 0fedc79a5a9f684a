use release::command::{classify, CommandError, ProcessStatus};
use release::config::{config_path, BUILD_MODE_CONFIG, DEFAULT_MODE_CONFIG};
use release::pipeline::{Action, Failure, Phase, Pipeline, Verdict};

struct Run {
    writes: Vec<(String, String)>,
    commands: Vec<(String, Vec<String>)>,
    file: Option<String>,
    exit: i32,
    verdict: Verdict,
}

/// Drives a run against simulated tools: the file system accepts or refuses
/// every write, and each tool exits with its given code.
fn drive(target: Option<&str>, writes_ok: bool, frontend_exit: i32, app_exit: i32) -> Run {
    let (mut p, mut action) = Pipeline::start(target.map(|t| t.to_string()), "/work".to_string());
    let mut run = Run { writes: Vec::new(), commands: Vec::new(), file: None, exit: -1, verdict: Verdict::Succeeded };
    for _ in 0..10 {
        action = match action {
            Action::Write(w) => {
                run.writes.push((w.path.clone(), w.contents.clone()));
                if writes_ok {
                    run.file = Some(w.contents.clone());
                    p.step(Ok(()))
                } else {
                    p.step(Err(Failure::Io("permission denied".to_string())))
                }
            }
            Action::Run(c) => {
                run.commands.push((c.program.clone(), c.args.clone()));
                let code = if c.program == "trunk" { frontend_exit } else { app_exit };
                let outcome = classify(&c, ProcessStatus::Exited(code)).map_err(Failure::Command);
                p.step(outcome)
            }
            Action::Exit(v) => {
                run.exit = v.exit_code();
                run.verdict = v;
                return run;
            }
        };
    }
    panic!("the run did not end");
}

#[test]
fn scenario_linux_both_succeed() {
    let run = drive(Some("x86_64-unknown-linux-gnu"), true, 0, 0);
    assert_eq!(run.file.as_deref(), Some(DEFAULT_MODE_CONFIG));
    assert_eq!(run.exit, 0);
    assert_eq!(run.verdict, Verdict::Succeeded);
    assert_eq!(run.writes.len(), 2);
    assert_eq!(run.writes[0], ("/work/.cargo/config.toml".to_string(), BUILD_MODE_CONFIG.to_string()));
    assert_eq!(run.writes[1], ("/work/.cargo/config.toml".to_string(), DEFAULT_MODE_CONFIG.to_string()));
    assert_eq!(run.commands.len(), 2);
    assert_eq!(run.commands[0].0, "trunk");
    assert_eq!(run.commands[0].1, vec!["build", "--release"]);
    assert_eq!(run.commands[1].0, "cargo");
    assert_eq!(run.commands[1].1, vec!["+nightly", "tauri", "build", "--target", "x86_64-unknown-linux-gnu"]);
}

#[test]
fn scenario_missing_triple() {
    let run = drive(None, true, 0, 0);
    assert!(run.writes.is_empty());
    assert!(run.commands.is_empty());
    assert_eq!(run.exit, 1);
    assert_eq!(run.verdict, Verdict::InputInvalid);
}

#[test]
fn empty_triple_is_not_usable() {
    let run = drive(Some(""), true, 0, 0);
    assert!(run.writes.is_empty());
    assert!(run.commands.is_empty());
    assert_eq!(run.exit, 1);
}

#[test]
fn scenario_frontend_fails() {
    let run = drive(Some("aarch64-apple-darwin"), true, 2, 0);
    assert_eq!(run.commands.len(), 1);
    assert!(run.commands.iter().all(|(program, _)| program != "cargo"));
    assert_eq!(run.file.as_deref(), Some(DEFAULT_MODE_CONFIG));
    assert_eq!(run.exit, 1);
    assert_eq!(run.verdict, Verdict::FrontendFailed);
}

#[test]
fn scenario_packaging_fails() {
    let run = drive(Some("x86_64-pc-windows-msvc"), true, 0, 101);
    assert_eq!(run.commands.len(), 2);
    assert_eq!(run.file.as_deref(), Some(DEFAULT_MODE_CONFIG));
    assert_eq!(run.exit, 1);
    assert_eq!(run.verdict, Verdict::AppFailed);
}

#[test]
fn failed_build_write_runs_nothing_and_restores_nothing() {
    let run = drive(Some("x86_64-unknown-linux-gnu"), false, 0, 0);
    assert_eq!(run.writes.len(), 1);
    assert_eq!(run.writes[0].1, BUILD_MODE_CONFIG);
    assert!(run.commands.is_empty());
    assert_eq!(run.exit, 1);
    assert_eq!(run.verdict, Verdict::ConfigWriteFailed);
}

#[test]
fn failed_restore_keeps_verdict() {
    let (mut p, _) = Pipeline::start(Some("x86_64-unknown-linux-gnu".to_string()), "/work".to_string());
    assert!(matches!(p.step(Ok(())), Action::Run(_)));
    assert!(matches!(p.step(Ok(())), Action::Run(_)));
    match p.step(Ok(())) {
        Action::Write(w) => assert_eq!(w.contents, DEFAULT_MODE_CONFIG),
        _ => panic!("expected the restoring write"),
    }
    assert_eq!(p.phase(), Phase::Restoring(Verdict::Succeeded));
    match p.step(Err(Failure::Io("disk full".to_string()))) {
        Action::Exit(v) => assert_eq!(v.exit_code(), 0),
        _ => panic!("expected the exit"),
    }
    assert_eq!(p.phase(), Phase::Finished(Verdict::Succeeded));
}

#[test]
fn restoring_write_comes_once() {
    let (mut p, _) = Pipeline::start(Some("aarch64-apple-darwin".to_string()), "/work".to_string());
    p.step(Ok(()));
    let mut writes = 0;
    for _ in 0..5 {
        if let Action::Write(w) = p.step(Err(Failure::Io("x".to_string()))) {
            assert_eq!(w.contents, DEFAULT_MODE_CONFIG);
            writes += 1;
        }
    }
    assert_eq!(writes, 1);
}

#[test]
fn exit_codes() {
    assert_eq!(Verdict::Succeeded.exit_code(), 0);
    assert_eq!(Verdict::InputInvalid.exit_code(), 1);
    assert_eq!(Verdict::ConfigWriteFailed.exit_code(), 1);
    assert_eq!(Verdict::FrontendFailed.exit_code(), 1);
    assert_eq!(Verdict::AppFailed.exit_code(), 1);
}

#[test]
fn config_path_under_root() {
    assert_eq!(config_path("/work"), "/work/.cargo/config.toml");
    assert_eq!(config_path("/work/"), "/work/.cargo/config.toml");
    assert_eq!(config_path(""), ".cargo/config.toml");
}

#[test]
fn pipeline_keeps_request() {
    let (p, _) = Pipeline::start(Some("aarch64-apple-darwin".to_string()), "/src/app".to_string());
    assert_eq!(p.target(), "aarch64-apple-darwin");
    assert_eq!(p.root(), "/src/app");
    assert_eq!(p.phase(), Phase::WritingBuildConfig);
}

#[test]
fn command_failure_carries_status() {
    let (mut p, _) = Pipeline::start(Some("x86_64-pc-windows-msvc".to_string()), "/work".to_string());
    let c = match p.step(Ok(())) {
        Action::Run(c) => c,
        _ => panic!("expected the frontend command"),
    };
    match classify(&c, ProcessStatus::Exited(2)) {
        Err(CommandError::Exit { command, code }) => {
            assert_eq!(command, "trunk build --release");
            assert_eq!(code, 2);
        }
        _ => panic!("expected an exit failure"),
    }
}
