//! The error thrown if something went wrong in the processing of the command.

use vstd::prelude::*;

use crate::decimal::dec_int;
use crate::decimal::dec_nat;
use crate::decimal::push_dec_i64;
use crate::decimal::push_dec_usize;
use crate::process::ProcessError;
use crate::process::description_spec;
use crate::process::errno_spec;

verus! {

/// The error thrown if something went wrong in the processing of the command.
#[derive(Debug, PartialEq, Eq)]
pub enum RashError {
    /// The given command contained a null byte at the given byte offset.
    /// Commands must not contain null bytes as they are handed to the shell
    /// as C-style strings.
    NullByteInCommand { pos: usize },
    /// A system call failed.  The message contains the errno, a description
    /// of the call that failed, and the OS's own text for the errno.
    KernelError { message: String },
    /// We couldn't obtain stdout.  This occurs if the captured stdout is not
    /// valid UTF-8 or for any standard IO error kind.
    FailedToReadStdout { message: String },
    /// We couldn't obtain stderr.  This occurs if the captured stderr is not
    /// valid UTF-8 or for any standard IO error kind.
    FailedToReadStderr { message: String },
}

/// The text of a `KernelError`: the errno, the description of the failed
/// call, and the OS's text for the errno.
pub open spec fn kernel_message_spec(errno: int, description: Seq<char>, strerror: Seq<char>) -> Seq<char> {
    "Received errno "@ + dec_int(errno) + ", Description: "@ + description + ", strerror output: "@
        + strerror + "."@
}

/// The text that describes the whole error, one line per variant.  The inner
/// message is placed between plain double quotes.
pub open spec fn rash_message_spec(e: RashError) -> Seq<char> {
    match e {
        RashError::NullByteInCommand { pos } => "Null byte found in command at pos "@ + dec_nat(
            pos as nat,
        ),
        RashError::KernelError { message } => seq!['"'] + message@ + seq!['"'],
        RashError::FailedToReadStdout { message } => "Couldn't read stdout: \""@ + message@
            + seq!['"'],
        RashError::FailedToReadStderr { message } => "Couldn't read stderr: \""@ + message@
            + seq!['"'],
    }
}

impl RashError {
    pub fn format_kernel_error_message(errno: i32, description: &str, strerror: &str) -> (r:
        String)
        ensures
            r@ == kernel_message_spec(errno as int, description@, strerror@),
    {
        let mut out = String::from_str("Received errno ");
        push_dec_i64(errno as i64, &mut out);
        out.append(", Description: ");
        out.append(description);
        out.append(", strerror output: ");
        out.append(strerror);
        out.append(".");
        proof {
            assert(out@ =~= kernel_message_spec(errno as int, description@, strerror@));
        }
        out
    }

    /// Maps a supervisor error to the caller-facing error.  Setup and wait
    /// failures become a `KernelError` whose message holds the errno the
    /// error carries, its description, and the OS's text for that errno; a
    /// failure to obtain an output stream keeps its own description.
    pub fn from_process_error(e: &ProcessError, strerror: &str) -> (r: RashError)
        ensures
            ({
                match *e {
                    ProcessError::CouldNotGetStdout => (r matches RashError::FailedToReadStdout {
                        message,
                    } && message@ == description_spec(*e)),
                    ProcessError::CouldNotGetStderr => (r matches RashError::FailedToReadStderr {
                        message,
                    } && message@ == description_spec(*e)),
                    _ => (r matches RashError::KernelError { message } && message@
                        == kernel_message_spec(errno_spec(*e), description_spec(*e), strerror@)),
                }
            }),
    {
        match e {
            ProcessError::CouldNotGetStdout => RashError::FailedToReadStdout {
                message: e.description(),
            },
            ProcessError::CouldNotGetStderr => RashError::FailedToReadStderr {
                message: e.description(),
            },
            _ => {
                let description = e.description();
                RashError::KernelError {
                    message: RashError::format_kernel_error_message(
                        e.os_error_code(),
                        description.as_str(),
                        strerror,
                    ),
                }
            },
        }
    }

    /// The one-line text that describes the error.
    pub fn message(&self) -> (r: String)
        ensures
            r@ == rash_message_spec(*self),
    {
        proof {
            reveal_strlit("\"");
        }
        match self {
            RashError::NullByteInCommand { pos } => {
                let mut out = String::from_str("Null byte found in command at pos ");
                push_dec_usize(*pos, &mut out);
                out
            },
            RashError::KernelError { message } => {
                let mut out = String::from_str("\"");
                out.append(message.as_str());
                out.append("\"");
                proof {
                    assert(out@ =~= rash_message_spec(*self));
                }
                out
            },
            RashError::FailedToReadStdout { message } => {
                let mut out = String::from_str("Couldn't read stdout: \"");
                out.append(message.as_str());
                out.append("\"");
                proof {
                    assert(out@ =~= rash_message_spec(*self));
                }
                out
            },
            RashError::FailedToReadStderr { message } => {
                let mut out = String::from_str("Couldn't read stderr: \"");
                out.append(message.as_str());
                out.append("\"");
                proof {
                    assert(out@ =~= rash_message_spec(*self));
                }
                out
            },
        }
    }
}

} // verus!
