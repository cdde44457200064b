use crankshaft_singularity::command::{
    command_from_words, failure_report, parse_command, run_container, run_words, success_report,
    CommandError, RunError,
};
use crankshaft_singularity::gateway::{
    exec_outcome, output_notice, pull_outcome, version_outcome,
};
use crankshaft_singularity::{ExecError, ProcessOutput, PullError, VersionError};

fn words(items: &[&str]) -> Vec<String> {
    items.iter().map(|s| s.to_string()).collect()
}

fn exited(code: Option<i32>, stdout: &[u8], stderr: &[u8]) -> ProcessOutput {
    ProcessOutput { code, stdout: stdout.to_vec(), stderr: stderr.to_vec() }
}

#[test]
fn exit_code_zero_is_success() {
    assert!(exited(Some(0), b"", b"").success());
}

#[test]
fn other_exit_codes_are_failures() {
    assert!(!exited(Some(1), b"", b"").success());
    assert!(!exited(Some(-1), b"", b"").success());
    assert!(!exited(Some(255), b"", b"").success());
}

#[test]
fn death_by_signal_is_a_failure() {
    assert!(!exited(None, b"", b"").success());
}

#[test]
fn pull_succeeds_on_exit_zero() {
    assert!(pull_outcome(Ok(exited(Some(0), b"done", b"warning"))).is_ok());
}

#[test]
fn pull_reports_stderr_on_failure() {
    match pull_outcome(Ok(exited(Some(255), b"", b"FATAL: no such image\n"))) {
        Err(PullError::NonZeroExit(stderr)) => assert_eq!(stderr, "FATAL: no such image\n"),
        other => panic!("unexpected result: {:?}", other),
    }
}

#[test]
fn pull_reports_spawn_failure() {
    match pull_outcome(Err("No such file or directory (os error 2)".to_string())) {
        Err(PullError::SpawnFailed(reason)) => {
            assert_eq!(reason, "No such file or directory (os error 2)")
        }
        other => panic!("unexpected result: {:?}", other),
    }
}

#[test]
fn pull_error_messages() {
    assert_eq!(
        PullError::NonZeroExit("boom".to_string()).message(),
        "Failed to pull image: boom"
    );
    assert_eq!(
        PullError::SpawnFailed("not found".to_string()).message(),
        "Failed to execute Singularity: not found"
    );
}

#[test]
fn exec_returns_the_output_on_exit_zero() {
    let output = exec_outcome(Ok(exited(Some(0), b"hi\n", b"note"))).unwrap();
    assert_eq!(output.code, Some(0));
    assert_eq!(output.stdout, b"hi\n".to_vec());
    assert_eq!(output.stderr, b"note".to_vec());
}

#[test]
fn exec_reports_stderr_on_failure() {
    match exec_outcome(Ok(exited(Some(2), b"partial", b"ls: no such file"))) {
        Err(ExecError::NonZeroExit(stderr)) => assert_eq!(stderr, "ls: no such file"),
        other => panic!("unexpected result: {:?}", other),
    }
    match exec_outcome(Ok(exited(None, b"", b"killed"))) {
        Err(ExecError::NonZeroExit(stderr)) => assert_eq!(stderr, "killed"),
        other => panic!("unexpected result: {:?}", other),
    }
}

#[test]
fn exec_reports_spawn_failure() {
    match exec_outcome(Err("Permission denied (os error 13)".to_string())) {
        Err(ExecError::SpawnFailed(reason)) => assert_eq!(reason, "Permission denied (os error 13)"),
        other => panic!("unexpected result: {:?}", other),
    }
}

#[test]
fn exec_error_messages() {
    assert_eq!(
        ExecError::NonZeroExit("boom".to_string()).message(),
        "Failed to execute command: boom"
    );
    assert_eq!(
        ExecError::SpawnFailed("not found".to_string()).message(),
        "Failed to execute Singularity: not found"
    );
    assert_eq!(ExecError::MissingImage.message(), "No image to execute in");
    assert_eq!(ExecError::MissingProgram.message(), "No program to execute");
}

#[test]
fn version_is_the_text_of_stdout() {
    let version = version_outcome(Ok(exited(Some(0), b"singularity version 3.8.7\n", b"")));
    assert_eq!(version.unwrap(), "singularity version 3.8.7\n");
}

#[test]
fn version_decodes_utf8_and_replaces_what_is_not() {
    let version = version_outcome(Ok(exited(Some(0), "caf\u{e9} \u{2713}".as_bytes(), b"")));
    assert_eq!(version.unwrap(), "caf\u{e9} \u{2713}");
    let version = version_outcome(Ok(exited(Some(0), b"v1\xff.2", b"")));
    assert_eq!(version.unwrap(), "v1\u{fffd}.2");
}

#[test]
fn version_reports_stderr_on_failure() {
    match version_outcome(Ok(exited(Some(1), b"ignored", b"bad \xc3 flag"))) {
        Err(VersionError::NonZeroExit(stderr)) => assert_eq!(stderr, "bad \u{fffd} flag"),
        other => panic!("unexpected result: {:?}", other),
    }
}

#[test]
fn version_reports_spawn_failure() {
    match version_outcome(Err("not found".to_string())) {
        Err(VersionError::SpawnFailed(reason)) => assert_eq!(reason, "not found"),
        other => panic!("unexpected result: {:?}", other),
    }
}

#[test]
fn version_error_messages() {
    assert_eq!(
        VersionError::NonZeroExit("boom".to_string()).message(),
        "Failed to get Singularity version: boom"
    );
    assert_eq!(VersionError::SpawnFailed("not found".to_string()).message(), "not found");
}

#[test]
fn command_string_splits_into_program_and_args() {
    let (program, args) = parse_command("echo 'hello world'").unwrap();
    assert_eq!(program, "echo");
    assert_eq!(args, words(&["hello world"]));
}

#[test]
fn command_with_only_a_program_has_no_args() {
    let (program, args) = parse_command("  ls  ").unwrap();
    assert_eq!(program, "ls");
    assert!(args.is_empty());
}

#[test]
fn command_quoting_and_escapes_are_resolved() {
    let (program, args) = parse_command("sh -c \"echo \\\"a b\\\"\" plain\\ word").unwrap();
    assert_eq!(program, "sh");
    assert_eq!(args, words(&["-c", "echo \"a b\"", "plain word"]));
}

#[test]
fn command_with_unbalanced_quote_is_invalid() {
    match parse_command("echo 'hello") {
        Err(CommandError::Invalid(line)) => assert_eq!(line, "echo 'hello"),
        other => panic!("unexpected result: {:?}", other),
    }
    match parse_command("echo \"hello") {
        Err(CommandError::Invalid(line)) => assert_eq!(line, "echo \"hello"),
        other => panic!("unexpected result: {:?}", other),
    }
    match parse_command("echo hello\\") {
        Err(CommandError::Invalid(line)) => assert_eq!(line, "echo hello\\"),
        other => panic!("unexpected result: {:?}", other),
    }
}

#[test]
fn command_without_words_is_empty() {
    match parse_command("") {
        Err(CommandError::Empty) => {}
        other => panic!("unexpected result: {:?}", other),
    }
    match parse_command("   \t ") {
        Err(CommandError::Empty) => {}
        other => panic!("unexpected result: {:?}", other),
    }
}

#[test]
fn command_error_messages() {
    assert_eq!(
        CommandError::Invalid("echo 'x".to_string()).message(),
        "invalid command `echo 'x`"
    );
    assert_eq!(CommandError::Empty.message(), "empty command");
}

#[test]
fn words_divide_into_first_and_rest() {
    let (program, args) =
        command_from_words("ignored", Some(words(&["a", "b", "c"]))).unwrap();
    assert_eq!(program, "a");
    assert_eq!(args, words(&["b", "c"]));
    let (program, args) = command_from_words("ignored", Some(words(&["only"]))).unwrap();
    assert_eq!(program, "only");
    assert!(args.is_empty());
}

#[test]
fn missing_words_name_the_line() {
    match command_from_words("the line", None) {
        Err(CommandError::Invalid(line)) => assert_eq!(line, "the line"),
        other => panic!("unexpected result: {:?}", other),
    }
    match command_from_words("the line", Some(vec![])) {
        Err(CommandError::Empty) => {}
        other => panic!("unexpected result: {:?}", other),
    }
}

#[test]
fn run_words_builds_a_plain_exec() {
    let argv = run_words("ubuntu:latest", "echo".to_string(), words(&["hello world"])).unwrap();
    assert_eq!(argv, words(&["exec", "ubuntu:latest", "echo", "hello world"]));
}

#[test]
fn run_words_refuses_empty_image_or_program() {
    match run_words("", "echo".to_string(), vec![]) {
        Err(ExecError::MissingImage) => {}
        other => panic!("unexpected result: {:?}", other),
    }
    match run_words("img", String::new(), vec![]) {
        Err(ExecError::MissingProgram) => {}
        other => panic!("unexpected result: {:?}", other),
    }
}

#[test]
fn run_container_builds_the_exec_of_a_command_line() {
    let argv = run_container("ubuntu:latest", "echo 'hello world' again").unwrap();
    assert_eq!(argv, words(&["exec", "ubuntu:latest", "echo", "hello world", "again"]));
}

#[test]
fn run_container_refuses_what_cannot_be_run() {
    match run_container("ubuntu:latest", "echo 'oops") {
        Err(RunError::Command(CommandError::Invalid(line))) => assert_eq!(line, "echo 'oops"),
        other => panic!("unexpected result: {:?}", other),
    }
    match run_container("ubuntu:latest", "") {
        Err(RunError::Command(CommandError::Empty)) => {}
        other => panic!("unexpected result: {:?}", other),
    }
    match run_container("", "echo hi") {
        Err(RunError::Exec(ExecError::MissingImage)) => {}
        other => panic!("unexpected result: {:?}", other),
    }
    match run_container("ubuntu:latest", "'' hi") {
        Err(RunError::Exec(ExecError::MissingProgram)) => {}
        other => panic!("unexpected result: {:?}", other),
    }
}

#[test]
fn reports_for_the_user() {
    assert_eq!(success_report(&exited(Some(0), b"hi\n", b"")), "Success: hi\n");
    assert_eq!(
        failure_report(&ExecError::NonZeroExit("boom".to_string())),
        "Failed to execute command: Failed to execute command: boom"
    );
    assert_eq!(
        failure_report(&ExecError::SpawnFailed("not found".to_string())),
        "Failed to execute command: Failed to execute Singularity: not found"
    );
}

#[test]
fn output_notice_shows_what_was_printed() {
    assert_eq!(output_notice(&exited(Some(0), b"hi\n", b"")), "Output: hi\n");
    assert_eq!(output_notice(&exited(Some(0), b"", b"")), "Output: ");
}
