use roguewave::{Arg, ArgKind, Command, CommandOutput, Error, Level, LocalCommand};

fn words(c: &Command) -> Vec<String> {
    c.argv
        .iter()
        .map(|a| match &a.kind {
            ArgKind::Escaped(s) => s.clone(),
            ArgKind::Raw(s) => format!("raw:{s}"),
        })
        .collect()
}

#[test]
fn new_command_has_defaults() {
    let c = Command::new(&["cat", "/tmp/1"]);
    assert_eq!(words(&c), vec!["cat", "/tmp/1"]);
    assert_eq!(c.command_log_level, Level::Info);
    assert_eq!(c.stdout_log_level, Level::Info);
    assert_eq!(c.stderr_log_level, Level::Error);
    assert!(!c.allow_failure);
}

#[test]
fn builder_appends_in_order() {
    let c = Command::new(&["bash"]).arg("-c").raw_arg("echo $HOME").args(&["x", "y"]).raw_args(&["|", "wc"]);
    assert_eq!(words(&c), vec!["bash", "-c", "raw:echo $HOME", "x", "y", "raw:|", "raw:wc"]);
}

#[test]
fn prepend_args_puts_arguments_first() {
    let c = Command::new(&["test2"]).prepend_args(&["echo", "test1"]);
    assert_eq!(words(&c), vec!["echo", "test1", "test2"]);
}

#[test]
fn user_wraps_in_sudo() {
    let c = Command::new(&["whoami"]).user(Some("user1"));
    assert_eq!(words(&c), vec!["sudo", "--login", "--user", "user1", "whoami"]);
    let d = Command::new(&["whoami"]).user(None);
    assert_eq!(words(&d), vec!["whoami"]);
}

#[test]
fn levels_and_failure_flag() {
    let c = Command::new(&["ls"]).hide_all_output().hide_command().allow_failure();
    assert_eq!(c.command_log_level, Level::Trace);
    assert_eq!(c.stdout_log_level, Level::Trace);
    assert_eq!(c.stderr_log_level, Level::Trace);
    assert!(c.allow_failure);
    let d = Command::new(&["ls"]).stdout_log_level(Level::Debug).stderr_log_level(Level::Warn).command_log_level(Level::Error);
    assert_eq!((d.command_log_level, d.stdout_log_level, d.stderr_log_level), (Level::Error, Level::Debug, Level::Warn));
}

#[test]
fn empty_command_is_refused() {
    let c = Command::new(&[]);
    assert_eq!(c.start(), Err(Error::EmptyCommand));
    let l = LocalCommand::new(&[]);
    assert_eq!(l.start(), Err(Error::EmptyCommand));
}

#[test]
fn start_logs_quoted_arguments() {
    let c = Command::new(&["echo", "a \"b\""]).raw_arg("> /tmp/x");
    assert_eq!(c.start().unwrap(), "running [\"echo\", \"a \\\"b\\\"\", Raw(\"> /tmp/x\")]");
}

#[test]
fn redacted_argument_is_not_logged() {
    let c = Command::new(&["psql", "--command"]).redacted_arg("PASSWORD 's3cret'", "PASSWORD '<redacted>'");
    let line = c.start().unwrap();
    assert!(!line.contains("s3cret"));
    assert_eq!(line, "running [\"psql\", \"--command\", PASSWORD '<redacted>']");
    match &c.argv[2] {
        Arg { kind: ArgKind::Escaped(v), display_placeholder: Some(p) } => {
            assert_eq!(v, "PASSWORD 's3cret'");
            assert_eq!(p, "PASSWORD '<redacted>'");
        }
        _ => panic!("unexpected argument"),
    }
}

#[test]
fn finish_succeeds_on_zero() {
    let c = Command::new(&["cat", "/tmp/1"]);
    let out = c.finish(Some(0), Ok("OK\n".to_string()), Ok(String::new())).unwrap();
    assert_eq!(out, CommandOutput { exit_code: 0, stdout: "OK\n".to_string(), stderr: String::new() });
}

#[test]
fn finish_fails_on_nonzero_unless_allowed() {
    let c = Command::new(&["cat", "/tmp/10"]);
    let err = "cat: /tmp/10: No such file or directory\n".to_string();
    assert_eq!(c.finish(Some(1), Ok(String::new()), Ok(err.clone())), Err(Error::Failed { code: 1 }));
    assert_eq!(c.finish_exit_code(Some(1), Ok(String::new()), Ok(err.clone())), Ok(1));
    let allowed = Command::new(&["cat", "/tmp/10"]).allow_failure();
    let out = allowed.finish(Some(1), Ok(String::new()), Ok(err.clone())).unwrap();
    assert_eq!(out.exit_code, 1);
    assert_eq!(out.stdout, "");
    assert_eq!(out.stderr, "cat: /tmp/10: No such file or directory\n");
}

#[test]
fn finish_needs_exit_code_and_valid_streams() {
    let c = Command::new(&["sleep", "9"]).allow_failure();
    assert_eq!(c.finish(None, Ok(String::new()), Ok(String::new())), Err(Error::MissingExitCode));
    assert_eq!(c.finish_exit_code(None, Ok(String::new()), Ok(String::new())), Err(Error::MissingExitCode));
    assert_eq!(c.finish(Some(0), Err(Error::InvalidUtf8), Ok(String::new())), Err(Error::InvalidUtf8));
    assert_eq!(c.finish_exit_code(Some(3), Ok(String::new()), Err(Error::InvalidUtf8)), Err(Error::InvalidUtf8));
}

#[test]
fn exit_code_matches_allowed_run() {
    for code in [0, 1, 2, 127] {
        let strict = Command::new(&["x"]);
        let via_run = Command::new(&["x"]).allow_failure().finish(Some(code), Ok("o".into()), Ok("e".into())).map(|o| o.exit_code);
        assert_eq!(strict.finish_exit_code(Some(code), Ok("o".into()), Ok("e".into())), via_run);
    }
}

#[test]
fn local_command_builder() {
    let c = LocalCommand::new(&["echo"]).arg("arg1").args(&["arg2", "arg3"]);
    assert_eq!(c.argv, vec!["echo", "arg1", "arg2", "arg3"]);
    assert_eq!(c.start().unwrap(), "running local command: [\"echo\", \"arg1\", \"arg2\", \"arg3\"]");
    let out = c.finish(Some(0), Ok("arg1 arg2 arg3\n".into()), Ok(String::new())).unwrap();
    assert_eq!(out.stdout, "arg1 arg2 arg3\n");
    assert_eq!(out.stderr, "");
}

#[test]
fn local_command_settings() {
    let c = LocalCommand::new(&["cat", "/tmp/21"]);
    assert_eq!((c.command_log_level, c.stdout_log_level, c.stderr_log_level), (Level::Info, Level::Info, Level::Error));
    assert!(c.finish(Some(1), Ok(String::new()), Ok(String::new())).is_err());
    let c = c.allow_failure().hide_all_output().hide_command();
    assert_eq!((c.command_log_level, c.stdout_log_level, c.stderr_log_level), (Level::Trace, Level::Trace, Level::Trace));
    let out = c.finish(Some(1), Ok(String::new()), Ok("cat: /tmp/21: No such file or directory\n".into())).unwrap();
    assert_eq!(out.exit_code, 1);
    assert_eq!(c.finish_exit_code(Some(1), Ok(String::new()), Ok(String::new())), Ok(1));
    let d = LocalCommand::new(&["x"]).stdout_log_level(Level::Warn).stderr_log_level(Level::Debug).command_log_level(Level::Error).hide_stdout().hide_stderr();
    assert_eq!((d.command_log_level, d.stdout_log_level, d.stderr_log_level), (Level::Error, Level::Trace, Level::Trace));
}
