use rsbash::BashCommand;
use rsbash::ChildStatus;
use rsbash::Process;
use rsbash::ProcessError;
use rsbash::collect_outputs;

#[test]
fn test_process_with_no_output() {
    let mut process = Process::new();
    let command = BashCommand::new("exit 23").unwrap();
    assert!(process.open(command).is_ok());
    assert_eq!(process.close().unwrap(), 23);
    assert_eq!(process.stdout().unwrap(), "".to_string());
    assert_eq!(process.stderr().unwrap(), "".to_string());
}

#[test]
fn test_process_with_simple_command() {
    let mut process = Process::new();
    let command = BashCommand::new("echo -n hi").unwrap();
    assert!(process.open(command).is_ok());
    assert_eq!(process.close().unwrap(), 0);
    assert_eq!(process.stdout().unwrap(), "hi".to_string());
    assert_eq!(process.stderr().unwrap(), "".to_string());
}

#[test]
fn test_process_with_stderr() {
    let mut process = Process::new();
    let command = BashCommand::new("echo -n hi >&2").unwrap();
    assert!(process.open(command).is_ok());
    assert_eq!(process.close().unwrap(), 0);
    assert_eq!(process.stdout().unwrap(), "".to_string());
    assert_eq!(process.stderr().unwrap(), "hi".to_string());
}

#[test]
fn test_process_with_both_stdout_and_stderr() {
    let mut process = Process::new();
    let command = BashCommand::new("echo -n hi && echo -n bye >&2").unwrap();
    assert!(process.open(command).is_ok());
    assert_eq!(process.close().unwrap(), 0);
    assert_eq!(process.stdout().unwrap(), "hi".to_string());
    assert_eq!(process.stderr().unwrap(), "bye".to_string());
}

#[test]
fn test_process_only_read_stdout() {
    let mut process = Process::new();
    let command = BashCommand::new("echo -n hi && echo -n bye >&2").unwrap();
    assert!(process.open(command).is_ok());
    assert_eq!(process.close().unwrap(), 0);
    assert_eq!(process.stdout().unwrap(), "hi".to_string());
}

#[test]
fn test_process_only_read_stderr() {
    let mut process = Process::new();
    let command = BashCommand::new("echo -n hi && echo -n bye >&2").unwrap();
    assert!(process.open(command).is_ok());
    assert_eq!(process.close().unwrap(), 0);
    assert_eq!(process.stderr().unwrap(), "bye".to_string());
}

#[test]
fn test_process_dont_read_either_stdout_or_stderr() {
    let mut process = Process::new();
    let command = BashCommand::new("echo -n hi && echo -n bye >&2").unwrap();
    assert!(process.open(command).is_ok());
    assert_eq!(process.close().unwrap(), 0);
}

#[test]
fn test_process_with_non_zero_return_code() {
    let mut process = Process::new();
    let command = BashCommand::new("echo -n hi; exit 4;").unwrap();
    assert!(process.open(command).is_ok());
    assert_eq!(process.close().unwrap(), 4);
    assert_eq!(process.stdout().unwrap(), "hi".to_string());
    assert_eq!(process.stderr().unwrap(), "".to_string());
}

#[test]
fn test_process_with_inner_bash_command() {
    let mut process = Process::new();
    let command =
        BashCommand::new("/usr/bin/env bash -c 'echo -n hi; echo -n bye >&2 && exit 55;'").unwrap();
    assert!(process.open(command).is_ok());
    assert_eq!(process.close().unwrap(), 55);
    assert_eq!(process.stdout().unwrap(), "hi".to_string());
    assert_eq!(process.stderr().unwrap(), "bye".to_string());
}

#[test]
fn test_process_with_multiline_command() {
    let mut process = Process::new();
    let command = BashCommand::new(MULTILINE).unwrap();
    assert!(process.open(command).is_ok());
    assert_eq!(process.close().unwrap(), 2);
    assert_eq!(process.stdout().unwrap(), "hibye".to_string());
    assert_eq!(process.stderr().unwrap(), "".to_string());
}

#[test]
fn test_process_with_multiline_bash_command() {
    let mut process = Process::new();
    let command = BashCommand::new(format!("bash -c '{MULTILINE}'").as_str()).unwrap();
    assert!(process.open(command).is_ok());
    assert_eq!(process.close().unwrap(), 2);
    assert_eq!(process.stdout().unwrap(), "hibye".to_string());
    assert_eq!(process.stderr().unwrap(), "".to_string());
}

#[test]
fn test_process_with_long_running_command() {
    let mut process = Process::new();
    let command = BashCommand::new("echo -n hi; sleep 2; echo -n bye >&2").unwrap();
    assert!(process.open(command).is_ok());
    assert_eq!(process.close().unwrap(), 0);
    assert_eq!(process.stdout().unwrap(), "hi".to_string());
    assert_eq!(process.stderr().unwrap(), "bye".to_string());
}

#[test]
fn test_process_with_stdin_larger_than_64kb() {
    let mut process = Process::new();
    let command = BashCommand::new("head -c 65537 /dev/zero | cat > /dev/null").unwrap();
    assert!(process.open(command).is_ok());
    assert_eq!(process.close().unwrap(), 0);
    assert_eq!(process.stdout().unwrap(), "".to_string());
    assert_eq!(process.stderr().unwrap(), "".to_string());
}

#[test]
fn test_process_with_stdout_larger_than_64kb() {
    let mut process = Process::new();
    let command = BashCommand::new("head -c 65537 /dev/zero").unwrap();
    assert!(process.open(command).is_ok());
    assert_eq!(process.close().unwrap(), 0);
    assert_eq!(process.stdout().unwrap().len(), 65537);
    assert_eq!(process.stderr().unwrap(), "".to_string());
}

#[test]
fn test_process_with_stderr_larger_than_64kb() {
    let mut process = Process::new();
    let command = BashCommand::new("head -c 65537 /dev/zero >&2").unwrap();
    assert!(process.open(command).is_ok());
    assert_eq!(process.close().unwrap(), 0);
    assert_eq!(process.stdout().unwrap(), "".to_string());
    assert_eq!(process.stderr().unwrap().len(), 65537);
}

#[test]
fn test_process_killed_by_signal_did_not_close_normally() {
    let mut process = Process::new();
    let command = BashCommand::new("echo -n partial; kill -9 $PPID; sleep 5").unwrap();
    assert!(process.open(command).is_ok());
    assert_eq!(process.close().unwrap_err(), ProcessError::OpenDidNotCloseNormally);
    // The partial output is discarded, never returned alongside the error.
    assert_eq!(process.stdout().unwrap(), "".to_string());
    assert_eq!(process.stderr().unwrap(), "".to_string());
}

#[test]
fn test_process_trailing_output_after_sleep_is_kept() {
    let mut process = Process::new();
    let command = BashCommand::new("sleep 1; echo -n late").unwrap();
    assert!(process.open(command).is_ok());
    assert_eq!(process.close().unwrap(), 0);
    assert_eq!(process.stdout().unwrap(), "late".to_string());
}

#[test]
fn test_collect_outputs_read_failure_yields_could_not_get_stdout() {
    let r = collect_outputs(ChildStatus::Exited(0), Err(None));
    assert_eq!(r.unwrap_err(), ProcessError::CouldNotGetStdout);
}

#[test]
fn test_collect_outputs_abnormal_termination_wins_over_read_failure() {
    let r = collect_outputs(ChildStatus::Signaled(9), Err(Some(5)));
    assert_eq!(r.unwrap_err(), ProcessError::OpenDidNotCloseNormally);
}

#[test]
fn test_collect_outputs_missing_streams_count_as_empty() {
    let r = collect_outputs(ChildStatus::Exited(3), Ok((None, None)));
    assert_eq!(r.unwrap(), (3, "".to_string(), "".to_string()));
}

#[test]
fn test_collect_outputs_packages_both_streams() {
    let r = collect_outputs(ChildStatus::Exited(0), Ok((Some(b"hi".to_vec()), Some(b"bye".to_vec()))));
    assert_eq!(r.unwrap(), (0, "hi".to_string(), "bye".to_string()));
}

const MULTILINE: &'static str = r#"
            echo -n hi && \
            echo -n bye && \
            exit 2
            "#;
