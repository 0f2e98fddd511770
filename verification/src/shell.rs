//! The public entry point: run a command and collect what it did.

use vstd::prelude::*;

use crate::command::BashCommand;
use crate::command::has_nul_char;
use crate::error::RashError;
use crate::os::strerror_text;
use crate::process::Process;
use crate::process::ProcessError;

verus! {

/// Turns a supervisor error into the caller-facing error, fetching the OS's
/// text for the errno the error carries.
fn to_rash_error(e: &ProcessError) -> (r: RashError)
    ensures
        (e is CouldNotGetStdout ==> r is FailedToReadStdout),
        (e is CouldNotGetStderr ==> r is FailedToReadStderr),
        !(e is CouldNotGetStdout) && !(e is CouldNotGetStderr) ==> r is KernelError,
{
    let strerror = strerror_text(e.os_error_code());
    RashError::from_process_error(e, strerror.as_str())
}

/// Runs the caller's text as a shell command and hands back the child's
/// return code and its captured stdout and stderr, or the one error that
/// stopped the run.  A text with an embedded NUL is rejected up front with
/// the byte offset of the first NUL in the built command line.
pub fn __command(c: &str) -> (r: Result<(i32, String, String), RashError>)
    ensures
        r is Ok ==> !has_nul_char(c@),
        has_nul_char(c@) ==> r matches Err(RashError::NullByteInCommand { .. }),
        !has_nul_char(c@) ==> !(r matches Err(RashError::NullByteInCommand { .. })),
        r matches Err(e) ==> (has_nul_char(c@) || e is KernelError || e is FailedToReadStdout
            || e is FailedToReadStderr),
        r matches Ok((code, _, _)) ==> 0 <= code <= 255,
{
    let command = match BashCommand::new(c) {
        Ok(command) => command,
        Err(e) => {
            return Err(e);
        },
    };
    let mut process = Process::new();
    if let Err(e) = process.open(command) {
        return Err(to_rash_error(&e));
    }
    let ret = match process.close() {
        Ok(ret) => ret,
        Err(e) => {
            return Err(to_rash_error(&e));
        },
    };
    let stdout = match process.stdout() {
        Ok(stdout) => stdout,
        Err(_) => unreached(),
    };
    let stderr = match process.stderr() {
        Ok(stderr) => stderr,
        Err(_) => unreached(),
    };
    Ok((ret, stdout, stderr))
}

} // verus!
