use rsbash::RashError;
use rsbash::shell::__command;
use tempfile::TempDir;

type Out = (i32, String, String);

const COMMAND: &'static str = "echo -n hi";

fn empty_string() -> String {
    String::default()
}

fn default_assertions(o: Out, expected_stdout: &str) -> () {
    assert_eq!(o, (0, expected_stdout.to_string(), empty_string()))
}

#[test]
fn test_commands_return_zero() {
    [
        "ls",
        "ls -l | cat -",
        "ls | cat $(echo '-')",
        "[[ 5 -eq $((3 + 2)) ]]",
        "/bin/sh -c 'echo hi'",
        "exit 0",
    ]
    .iter()
    .for_each(|c| {
        let (r, _, _) = __command(c).unwrap();
        assert_eq!(r, 0);
    });
}

#[test]
fn test_commands_return_non_zero() {
    [("i_am_not_a_valid_executable", 127), ("echo hi | grep 'bye'", 1), ("exit 54;", 54)]
        .iter()
        .for_each(move |(c, ret)| {
            let (r, _, _) = __command(c).unwrap();
            assert_eq!(r, *ret);
        });
}

#[test]
fn test_commands_stdout() {
    [
        ("", ""),
        ("echo hi", "hi\n"),
        ("echo hi >/dev/null", ""),
        ("echo -n $((3 + 2 - 1))", "4"),
    ]
    .iter()
    .for_each(move |(c, out)| {
        default_assertions(__command(c).unwrap(), out);
    });
}

#[test]
fn test_commands_stderr() -> Result<(), RashError> {
    Ok(assert_eq!(__command("echo -n 'hi' >&2")?, (0, empty_string(), "hi".to_string())))
}

#[test]
fn test_combined_stdout() -> Result<(), RashError> {
    Ok(default_assertions(__command("echo -n hi; echo -n bye 2>&1;")?, "hibye"))
}

#[test]
fn test_redirect_to_and_read_from_file() {
    let temp_dir = TempDir::new().unwrap();
    let path = temp_dir.path().to_str().unwrap();
    let script = format!("cd {path}; echo -n 'foo' > bar.txt; cat bar.txt;");

    default_assertions(__command(&script).unwrap(), "foo");

    temp_dir.close().unwrap();
}

#[test]
fn test_run_script() {
    let temp_dir = TempDir::new().unwrap();
    let path = temp_dir.path().to_str().unwrap();
    let message = "hi from within the script!";
    let script = format!(
        "cd {path}; echo -n \"echo -n '{message}'\" > bar.sh; chmod u+x bar.sh; ./bar.sh;"
    );

    default_assertions(__command(&script).unwrap(), message);

    temp_dir.close().unwrap();
}

#[test]
fn test_quotes() -> Result<(), RashError> {
    let message = "a new line \n a day keeps the doctors away";
    default_assertions(__command(&format!("echo -n '{}'", message))?, message);

    let message = "\"\"'blah' \'blah\' 'blah'''";
    let expected = "blah blah blah";
    default_assertions(__command(&format!("echo -n {}", message))?, expected);

    let message = "hello world";
    let expected = "hello world\n";
    default_assertions(__command(&format!("echo {}", message))?, expected);
    Ok(())
}

#[test]
fn test_comments() -> Result<(), RashError> {
    Ok(default_assertions(__command("#echo 'i am silent'")?, ""))
}

#[test]
fn test_backslashes() -> Result<(), RashError> {
    let c = "echo \
        -n \
        hi \
        there";

    Ok(default_assertions(__command(c)?, "hi there"))
}

#[test]
fn test_rash_with_a_single_string_literal() -> Result<(), RashError> {
    Ok(assert_eq!(__command("echo -n hi")?, (0, "hi".to_string(), empty_string())))
}

#[test]
fn test_rash_with_non_string_literals() -> Result<(), RashError> {
    let command = "echo -n hi".to_string();
    let expected = (0, "hi".to_string(), empty_string());

    assert_eq!(__command(&command)?, expected);
    assert_eq!(__command(COMMAND)?, expected);
    Ok(())
}

#[test]
fn test_rash_with_expressions() -> Result<(), RashError> {
    let message = "echo -n hi";
    let expected = (0, "hi".to_string(), empty_string());

    assert_eq!(__command(&message.to_string())?, expected);
    assert_eq!(__command(&format!("{message}"))?, expected);
    Ok(())
}

#[test]
fn test_rashf_with_a_single_string_literal() -> Result<(), RashError> {
    Ok(assert_eq!(__command(&format!("echo -n hi"))?, (0, "hi".to_string(), empty_string())))
}

#[test]
fn test_rashf_with_formatted_non_string_literals() -> Result<(), RashError> {
    let command = "echo -n hi".to_string();
    let expected = (0, "hi".to_string(), empty_string());

    assert_eq!(__command(&format!("{}", command))?, expected);
    assert_eq!(__command(&format!("{}", COMMAND))?, expected);
    Ok(())
}

#[test]
fn test_rashf_with_simple_formatting() -> Result<(), RashError> {
    let expected = (0, "hi bye".to_string(), empty_string());
    assert_eq!(__command(&format!("echo -n {} {}", "hi", "bye"))?, expected);

    let hi = "hi";
    let bye = "bye".to_string();
    Ok(assert_eq!(__command(&format!("echo -n {} {}", hi, bye))?, expected))
}

#[test]
fn test_rashf_with_variable_capture_formatting() -> Result<(), RashError> {
    let (one, two) = (1, 2);
    Ok(assert_eq!(
        __command(&format!("echo -n '{one} + {two}'"))?,
        (0, "1 + 2".to_string(), empty_string())
    ))
}

#[test]
fn test_rashf_with_positional_parameters() -> Result<(), RashError> {
    let (one, three) = (1, 3);
    Ok(assert_eq!(
        __command(&format!("echo -n '{one} + {two} + {three}'", two = 2))?,
        (0, "1 + 2 + 3".to_string(), empty_string())
    ))
}

#[test]
fn test_escaped_text_reaches_the_shell_unchanged() {
    // The escape / unescape round trip, run through a real shell: the quoted
    // form of an adversarial text comes back byte for byte.
    let message = "a 'quoted' word && $HOME `ls` \\ end";
    let quoted = rsbash::BashCommand::quote(message);
    let (ret, stdout, stderr) = __command(&format!("echo -n {}", quoted)).unwrap();
    assert_eq!(ret, 0);
    assert_eq!(stdout, message.to_string());
    assert_eq!(stderr, empty_string());
}

#[test]
fn test_command_with_null_byte_is_rejected() {
    let err = __command("echo \0hi").unwrap_err();
    assert_eq!(err, RashError::NullByteInCommand { pos: 27 });
}

#[test]
fn test_command_killed_by_signal_gives_kernel_error() {
    let err = __command("echo -n partial; kill -9 $PPID; sleep 5").unwrap_err();
    assert!(matches!(err, RashError::KernelError { .. }));
}

#[test]
fn test_command_with_invalid_utf8_stdout_fails_to_read_stdout() {
    let err = __command("printf '\\377'").unwrap_err();
    assert_eq!(err, RashError::FailedToReadStdout { message: "Couldn't get stdout.".to_string() });
}

#[test]
fn test_command_with_invalid_utf8_stderr_fails_to_read_stderr() {
    let err = __command("printf '\\377' >&2").unwrap_err();
    assert_eq!(err, RashError::FailedToReadStderr { message: "Couldn't get stderr.".to_string() });
}
