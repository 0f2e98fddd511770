//! The seam between the verified supervisor and the operating system.
//!
//! Every call that reaches the OS — spawning the shell, draining the output
//! pipes, reaping the child — goes through one of the trusted functions
//! below, each a thin wrapper over one outside function.

use vstd::prelude::*;
use vstd::utf8::decode_utf8;
use vstd::utf8::valid_utf8;

verus! {

#[verifier::external_type_specification]
#[verifier::external_body]
pub struct ExPopen(subprocess::Popen);

#[verifier::external_type_specification]
#[verifier::external_body]
pub struct ExIoError(std::io::Error);

/// How a child process terminated, as the OS wait status reports it.
pub enum ChildStatus {
    /// The child exited normally with the given 8-bit exit code.
    Exited(u32),
    /// The child was terminated by the signal with the given number.
    Signaled(u8),
    /// The wait status describes neither a normal exit nor a signal.
    Other(i32),
    /// The child is gone but its exit status could not be obtained.
    Unknown,
}

/// Relies on subprocess::Popen::create: runs `/bin/sh -c <command>` with the
/// child's stdin, stdout and stderr each rewired to a fresh pipe; the parent
/// keeps the stdin write end and the two read ends.  On failure every
/// descriptor created for the attempt is closed again and the raw OS error
/// code, where one exists, is handed back.
#[verifier::external_body]
pub fn spawn_shell_piped(command: &str) -> (r: Result<subprocess::Popen, Option<i32>>) {
    match subprocess::Popen::create(
        &["/bin/sh", "-c", command],
        subprocess::PopenConfig {
            stdin: subprocess::Redirection::Pipe,
            stdout: subprocess::Redirection::Pipe,
            stderr: subprocess::Redirection::Pipe,
            ..Default::default()
        },
    ) {
        Ok(p) => Ok(p),
        Err(subprocess::PopenError::IoError(e)) => Err(e.raw_os_error()),
        Err(_) => Err(None),
    }
}

/// Relies on subprocess::Popen::create: runs `/bin/sh -c <command>` with only
/// the child's stdout rewired to a fresh pipe; stdin and stderr are inherited
/// from the parent, as `popen(3)` in read mode would leave them.
#[verifier::external_body]
pub fn spawn_shell_stdout_piped(command: &str) -> (r: Result<subprocess::Popen, Option<i32>>) {
    match subprocess::Popen::create(
        &["/bin/sh", "-c", command],
        subprocess::PopenConfig {
            stdout: subprocess::Redirection::Pipe,
            ..Default::default()
        },
    ) {
        Ok(p) => Ok(p),
        Err(subprocess::PopenError::IoError(e)) => Err(e.raw_os_error()),
        Err(_) => Err(None),
    }
}

/// Relies on subprocess::Popen::communicate_bytes: first closes the parent's
/// stdin pipe end, so the child sees end-of-input, then reads the child's
/// stdout and stderr pipes concurrently until each reaches end-of-stream —
/// which the OS signals once the child has exited and its write ends are
/// closed — and returns every byte each stream produced, in order.  A stream
/// that was not rewired to a pipe is reported as `None`.  On a read failure
/// the raw OS error code, where one exists, is handed back and the partial
/// capture is discarded.
#[verifier::external_body]
pub fn drain_child(child: &mut subprocess::Popen) -> (r: Result<
    (Option<Vec<u8>>, Option<Vec<u8>>),
    Option<i32>,
>) {
    child.stdin.take();
    match child.communicate_bytes(None) {
        Ok(captured) => Ok(captured),
        Err(e) => Err(e.raw_os_error()),
    }
}

/// Relies on subprocess::Popen::wait: blocks until the child has been reaped
/// and reports how it terminated.  On this crate's unix targets a normal exit
/// carries `WEXITSTATUS`, an 8-bit code.
#[verifier::external_body]
pub fn wait_child(child: &mut subprocess::Popen) -> (r: Result<ChildStatus, Option<i32>>)
    ensures
        r matches Ok(ChildStatus::Exited(code)) ==> code <= 255,
{
    match child.wait() {
        Ok(subprocess::ExitStatus::Exited(code)) => Ok(ChildStatus::Exited(code)),
        Ok(subprocess::ExitStatus::Signaled(sig)) => Ok(ChildStatus::Signaled(sig)),
        Ok(subprocess::ExitStatus::Other(what)) => Ok(ChildStatus::Other(what)),
        Ok(subprocess::ExitStatus::Undetermined) => Ok(ChildStatus::Unknown),
        Err(subprocess::PopenError::IoError(e)) => Err(e.raw_os_error()),
        Err(_) => Err(None),
    }
}

/// What a drained stream produced: a stream that was not rewired to a pipe
/// counts as empty.
pub open spec fn bytes_of(captured: Option<Vec<u8>>) -> Seq<u8> {
    match captured {
        Some(bytes) => bytes@,
        None => Seq::empty(),
    }
}

pub fn bytes_or_empty(captured: Option<Vec<u8>>) -> (r: Vec<u8>)
    ensures
        r@ == bytes_of(captured),
{
    match captured {
        Some(bytes) => bytes,
        None => Vec::new(),
    }
}

/// Relies on String::from_utf8: succeeds exactly on valid UTF-8 and returns
/// the decoded characters.
#[verifier::external_body]
pub fn bytes_to_string(bytes: Vec<u8>) -> (r: Option<String>)
    ensures
        r is Some <==> valid_utf8(bytes@),
        r matches Some(s) ==> s@ == decode_utf8(bytes@),
{
    String::from_utf8(bytes).ok()
}

/// Relies on std::io::Error::from_raw_os_error: the error value that stands
/// for the given raw OS error code.
#[verifier::external_body]
pub fn os_error_from_code(code: i32) -> (r: std::io::Error) {
    std::io::Error::from_raw_os_error(code)
}

/// Relies on ToString::to_string through std::io::Error's Display: the OS's
/// own text for the error, as `strerror(3)` would give it.
#[verifier::external_body]
pub fn os_error_text(e: &std::io::Error) -> (r: String) {
    e.to_string()
}

/// The OS's text for a raw error code.
pub fn strerror_text(code: i32) -> String {
    let e = os_error_from_code(code);
    os_error_text(&e)
}

} // verus!
