//! A self-contained runner in the style of `popen(3)`: the command is read
//! through bash inside a double-quoted string, only stdout is captured, and
//! every failure is reported inside the output rather than as an error value.

use vstd::prelude::*;
use vstd::utf8::decode_utf8;
use vstd::utf8::valid_utf8;

use crate::command::has_nul_char;
use crate::decimal::dec_int;
use crate::decimal::push_dec_i64;
use crate::os::ChildStatus;
use crate::os::bytes_or_empty;
use crate::os::bytes_to_string;
use crate::os::drain_child;
use crate::os::spawn_shell_stdout_piped;
use crate::os::strerror_text;
use crate::os::wait_child;
use crate::process::errno_or_zero;

verus! {

/// What the runner hands back: the child's return value and its stdout.
pub struct Output {
    pub return_value: i32,
    pub stdout: String,
}

/// The command line handed to the shell: the caller's text read through bash
/// inside a double-quoted string, so the outer shell expands it once.
pub open spec fn bash_command_line_spec(s: Seq<char>) -> Seq<char> {
    "/bin/bash -c \""@ + s + "\""@
}

fn into_bash_command(s: &str) -> (r: String)
    ensures
        r@ == bash_command_line_spec(s@),
{
    let mut r = String::from_str("/bin/bash -c \"");
    r.append(s);
    r.append("\"");
    proof {
        assert(r@ =~= bash_command_line_spec(s@));
    }
    r
}

/// The text of an error `Output`: the error code, a description of what
/// failed, and the OS's text for the code.
pub open spec fn error_message_spec(errno: int, description: Seq<char>, strerror: Seq<char>) -> Seq<
    char,
> {
    "ERROR: received error code "@ + dec_int(errno) + ".Description: "@ + description
        + ".strerror output: "@ + strerror
}

/// The captured text is an error message with the given code and description;
/// what the OS said of the code stands at its end.
pub open spec fn is_error_message(s: Seq<char>, errno: int, description: Seq<char>) -> bool {
    exists|strerror: Seq<char>| s == error_message_spec(errno, description, strerror)
}

/// An `Output` that reports a failure of the runner itself: the error code
/// stands in the return value and the message in the captured text.
fn error_output(errno: i32, description: &str, strerror: &str) -> (r: Output)
    ensures
        r.return_value == errno,
        r.stdout@ == error_message_spec(errno as int, description@, strerror@),
{
    let mut out = String::from_str("ERROR: received error code ");
    push_dec_i64(errno as i64, &mut out);
    out.append(".Description: ");
    out.append(description);
    out.append(".strerror output: ");
    out.append(strerror);
    proof {
        assert(out@ =~= error_message_spec(errno as int, description@, strerror@));
    }
    Output { return_value: errno, stdout: out }
}

fn error_with_code(errno: i32, description: &str) -> (r: Output)
    ensures
        r.return_value == errno,
        is_error_message(r.stdout@, errno as int, description@),
{
    let strerror = strerror_text(errno);
    let out = error_output(errno, description, strerror.as_str());
    proof {
        assert(out.stdout@ == error_message_spec(errno as int, description@, strerror@));
    }
    out
}

fn errno_or_zero_exec(errno: Option<i32>) -> (r: i32)
    ensures
        r as int == errno_or_zero(errno),
{
    match errno {
        Some(code) => code,
        None => 0,
    }
}

/// The OS error code a wait outcome carries, or zero where it carries none.
pub open spec fn wait_errno(waited: Result<ChildStatus, Option<i32>>) -> int {
    match waited {
        Ok(status) => 0,
        Err(errno) => errno_or_zero(errno),
    }
}

/// Turns the wait outcome and the drained stdout bytes into the `Output`: a
/// normal exit hands back its code and the decoded text, while text that does
/// not decode, an abnormal termination, and a failed wait are each reported as
/// an error message inside the `Output`.
pub fn assemble_output(waited: Result<ChildStatus, Option<i32>>, bytes: Vec<u8>) -> (r: Output)
    requires
        waited matches Ok(ChildStatus::Exited(code)) ==> code <= 255,
    ensures
        waited matches Ok(ChildStatus::Exited(code)) ==> ({
            if valid_utf8(bytes@) {
                r.return_value == code as i32 && r.stdout@ == decode_utf8(bytes@)
            } else {
                r.return_value == 0 && is_error_message(
                    r.stdout@,
                    0,
                    "The buffer wasn't valid utf-8."@,
                )
            }
        }),
        !(waited matches Ok(ChildStatus::Exited(_))) ==> (r.return_value == wait_errno(waited)
            && is_error_message(
            r.stdout@,
            wait_errno(waited),
            "WIFEXITED was false. The call to popen didn't exit normally."@,
        )),
{
    match waited {
        Ok(ChildStatus::Exited(code)) => {
            match bytes_to_string(bytes) {
                Some(stdout) => Output { return_value: code as i32, stdout },
                None => error_with_code(0, "The buffer wasn't valid utf-8."),
            }
        },
        Ok(_) => error_with_code(
            0,
            "WIFEXITED was false. The call to popen didn't exit normally.",
        ),
        Err(errno) => error_with_code(
            errno_or_zero_exec(errno),
            "WIFEXITED was false. The call to popen didn't exit normally.",
        ),
    }
}

/// Runs the caller's text through bash and captures its stdout; stderr is
/// inherited, as `popen(3)` in read mode leaves it.  A failure of the runner
/// itself is reported inside the `Output`: the OS error code as the return
/// value and a message in place of the captured text.
pub fn command(cmd: &str) -> (r: Output)
    requires
        !has_nul_char(cmd@),
{
    let formatted = into_bash_command(cmd);
    let mut child = match spawn_shell_stdout_piped(formatted.as_str()) {
        Ok(child) => child,
        Err(errno) => {
            return error_with_code(errno_or_zero_exec(errno), "popen returned null.");
        },
    };
    let drained = drain_child(&mut child);
    let waited = wait_child(&mut child);
    match drained {
        Ok((captured, _)) => assemble_output(waited, bytes_or_empty(captured)),
        Err(errno) => error_with_code(
            errno_or_zero_exec(errno),
            "Couldn't read file into buffer.",
        ),
    }
}

} // verus!
