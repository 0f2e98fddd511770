//! The process supervisor: owns the child's lifecycle from spawn to reap.
//!
//! `open` hands the command line to a shell child whose three standard
//! streams are rewired to pipes; `close` drains both output pipes to
//! end-of-stream, reaps the child, and turns the wait status and the captured
//! bytes into a return code and two texts, or a typed error.

use vstd::prelude::*;
use vstd::utf8::decode_utf8;
use vstd::utf8::valid_utf8;

use crate::command::BashCommand;
use crate::decimal::dec_int;
use crate::decimal::push_dec_i64;
use crate::os::ChildStatus;
use crate::os::bytes_of;
use crate::os::bytes_or_empty;
use crate::os::bytes_to_string;
use crate::os::drain_child;
use crate::os::spawn_shell_piped;
use crate::os::wait_child;

verus! {

/// What went wrong inside the supervisor.
#[derive(Debug, PartialEq, Eq)]
pub enum ProcessError {
    /// The child could not be set up: pipe creation, fork or exec failed.
    /// Carries the underlying OS error code where one was available.  The
    /// spawn seam does not reveal which of the three calls failed, so every
    /// setup failure of the running supervisor surfaces as this variant.
    CouldNotFork { errno: Option<i32> },
    /// A pipe could not be created.  Carries the OS error code where
    /// available.  Part of the error taxonomy and of the caller-facing
    /// mapping; the running supervisor cannot tell this stage apart from the
    /// fork, so it reports `CouldNotFork` instead.
    CouldNotCreatePipe { errno: Option<i32> },
    /// A descriptor could not be duplicated onto the child's standard
    /// streams.  Carries the OS error code where available.  Like
    /// `CouldNotCreatePipe`, never produced by the running supervisor, which
    /// reports `CouldNotFork` for every setup failure.
    CouldNotDupFd { fd: i32, errno: Option<i32> },
    /// The child did not terminate via a normal exit.
    OpenDidNotCloseNormally,
    /// The captured stderr could not be obtained or was not valid text.
    CouldNotGetStderr,
    /// The captured stdout could not be obtained or was not valid text.
    CouldNotGetStdout,
}

pub open spec fn errno_or_zero(errno: Option<i32>) -> int {
    match errno {
        Some(code) => code as int,
        None => 0,
    }
}

/// The OS error code the error carries, or zero where it carries none.
pub open spec fn errno_spec(e: ProcessError) -> int {
    match e {
        ProcessError::CouldNotFork { errno } => errno_or_zero(errno),
        ProcessError::CouldNotCreatePipe { errno } => errno_or_zero(errno),
        ProcessError::CouldNotDupFd { fd, errno } => errno_or_zero(errno),
        ProcessError::OpenDidNotCloseNormally => 0,
        ProcessError::CouldNotGetStderr => 0,
        ProcessError::CouldNotGetStdout => 0,
    }
}

/// The one-line description of each error.
pub open spec fn description_spec(e: ProcessError) -> Seq<char> {
    match e {
        ProcessError::CouldNotFork { errno } => "Couldn't fork."@,
        ProcessError::CouldNotCreatePipe { errno } => "Couldn't create pipe."@,
        ProcessError::CouldNotDupFd { fd, errno } => "Couldn't dup fd "@ + dec_int(fd as int),
        ProcessError::OpenDidNotCloseNormally =>
            "process::open didn't close normally - WIFEXITED was false."@,
        ProcessError::CouldNotGetStderr => "Couldn't get stderr."@,
        ProcessError::CouldNotGetStdout => "Couldn't get stdout."@,
    }
}

impl ProcessError {
    /// The OS error code the error carries, or zero where it carries none.
    pub fn os_error_code(&self) -> (r: i32)
        ensures
            r as int == errno_spec(*self),
    {
        match self {
            ProcessError::CouldNotFork { errno: Some(code) } => *code,
            ProcessError::CouldNotCreatePipe { errno: Some(code) } => *code,
            ProcessError::CouldNotDupFd { errno: Some(code), .. } => *code,
            _ => 0,
        }
    }

    /// The one-line description of the error.
    pub fn description(&self) -> (r: String)
        ensures
            r@ == description_spec(*self),
    {
        match self {
            ProcessError::CouldNotFork { .. } => String::from_str("Couldn't fork."),
            ProcessError::CouldNotCreatePipe { .. } => String::from_str("Couldn't create pipe."),
            ProcessError::CouldNotDupFd { fd, .. } => {
                let mut out = String::from_str("Couldn't dup fd ");
                push_dec_i64(*fd as i64, &mut out);
                out
            },
            ProcessError::OpenDidNotCloseNormally => String::from_str(
                "process::open didn't close normally - WIFEXITED was false.",
            ),
            ProcessError::CouldNotGetStderr => String::from_str("Couldn't get stderr."),
            ProcessError::CouldNotGetStdout => String::from_str("Couldn't get stdout."),
        }
    }
}

/// Where a supervisor stands in its life: a child may be opened at most once,
/// and closed only while it runs.
pub enum Phase {
    Unopened,
    Running,
    Closed,
}

pub struct ProcessView {
    pub phase: Phase,
    pub stdout: Seq<char>,
    pub stderr: Seq<char>,
}

/// The supervisor of one shell child.
pub struct Process {
    phase: Phase,
    child: Option<subprocess::Popen>,
    stdout: String,
    stderr: String,
}

impl View for Process {
    type V = ProcessView;

    closed spec fn view(&self) -> ProcessView {
        ProcessView { phase: self.phase, stdout: self.stdout@, stderr: self.stderr@ }
    }
}

/// Turns the wait status and the captured bytes into the final triple.
///
/// An abnormal termination wins over everything and discards the captured
/// output; after that, stdout must decode before stderr is looked at.
pub fn assemble(status: ChildStatus, stdout_bytes: Vec<u8>, stderr_bytes: Vec<u8>) -> (r: Result<
    (i32, String, String),
    ProcessError,
>)
    requires
        status matches ChildStatus::Exited(code) ==> code <= 255,
    ensures
        !(status is Exited) ==> r == Err::<(i32, String, String), ProcessError>(
            ProcessError::OpenDidNotCloseNormally,
        ),
        status matches ChildStatus::Exited(code) ==> ({
            if !valid_utf8(stdout_bytes@) {
                r == Err::<(i32, String, String), ProcessError>(ProcessError::CouldNotGetStdout)
            } else if !valid_utf8(stderr_bytes@) {
                r == Err::<(i32, String, String), ProcessError>(ProcessError::CouldNotGetStderr)
            } else {
                r matches Ok((rc, so, se)) && rc == code as i32 && so@ == decode_utf8(
                    stdout_bytes@,
                ) && se@ == decode_utf8(stderr_bytes@)
            }
        }),
{
    match status {
        ChildStatus::Exited(code) => {
            match bytes_to_string(stdout_bytes) {
                None => Err(ProcessError::CouldNotGetStdout),
                Some(so) => {
                    match bytes_to_string(stderr_bytes) {
                        None => Err(ProcessError::CouldNotGetStderr),
                        Some(se) => Ok((code as i32, so, se)),
                    }
                },
            }
        },
        _ => Err(ProcessError::OpenDidNotCloseNormally),
    }
}

/// Turns the drain outcome and the wait status into the final triple.
///
/// An abnormal termination wins over a failed read; a failed read wins over
/// the text of either stream; a stream that was not rewired to a pipe counts
/// as empty.
pub fn collect_outputs(
    status: ChildStatus,
    drained: Result<(Option<Vec<u8>>, Option<Vec<u8>>), Option<i32>>,
) -> (r: Result<(i32, String, String), ProcessError>)
    requires
        status matches ChildStatus::Exited(code) ==> code <= 255,
    ensures
        !(status is Exited) ==> r == Err::<(i32, String, String), ProcessError>(
            ProcessError::OpenDidNotCloseNormally,
        ),
        status is Exited && drained is Err ==> r == Err::<(i32, String, String), ProcessError>(
            ProcessError::CouldNotGetStdout,
        ),
        status matches ChildStatus::Exited(code) ==> drained matches Ok((out, err)) ==> ({
            if !valid_utf8(bytes_of(out)) {
                r == Err::<(i32, String, String), ProcessError>(ProcessError::CouldNotGetStdout)
            } else if !valid_utf8(bytes_of(err)) {
                r == Err::<(i32, String, String), ProcessError>(ProcessError::CouldNotGetStderr)
            } else {
                r matches Ok((rc, so, se)) && rc == code as i32 && so@ == decode_utf8(
                    bytes_of(out),
                ) && se@ == decode_utf8(bytes_of(err))
            }
        }),
{
    match drained {
        Err(_) => {
            match status {
                ChildStatus::Exited(_) => Err(ProcessError::CouldNotGetStdout),
                _ => Err(ProcessError::OpenDidNotCloseNormally),
            }
        },
        Ok((out, err)) => assemble(status, bytes_or_empty(out), bytes_or_empty(err)),
    }
}

impl Process {
    /// The supervisor is consistent: while the child runs, its handle is
    /// held.
    pub closed spec fn wf(self) -> bool {
        self.phase is Running ==> self.child is Some
    }

    pub fn new() -> (r: Process)
        ensures
            r.wf(),
            r@.phase is Unopened,
            r@.stdout == Seq::<char>::empty(),
            r@.stderr == Seq::<char>::empty(),
    {
        Process {
            phase: Phase::Unopened,
            child: None,
            stdout: String::new(),
            stderr: String::new(),
        }
    }

    /// Spawns the shell child with its three standard streams rewired to
    /// pipes.  On success the supervisor is running; on failure nothing is
    /// retained and the supervisor may be opened again.  Every setup failure
    /// — pipe creation, fork or exec — surfaces as `CouldNotFork`: the spawn
    /// seam does not reveal which call failed.
    pub fn open(&mut self, command: BashCommand) -> (r: Result<(), ProcessError>)
        requires
            old(self).wf(),
            old(self)@.phase is Unopened,
        ensures
            final(self).wf(),
            r is Ok ==> final(self)@.phase is Running && final(self)@.stdout == old(self)@.stdout
                && final(self)@.stderr == old(self)@.stderr,
            r matches Err(e) ==> final(self)@ == old(self)@
                && e matches ProcessError::CouldNotFork { .. },
    {
        let text = command.command();
        match spawn_shell_piped(text.as_str()) {
            Ok(child) => {
                self.child = Some(child);
                self.phase = Phase::Running;
                Ok(())
            },
            Err(errno) => Err(ProcessError::CouldNotFork { errno }),
        }
    }

    /// Waits for the child and collects what it wrote.
    ///
    /// Drains both output pipes to end-of-stream — which the OS signals only
    /// once the exiting child has closed its write ends, so no trailing
    /// output is lost — then reaps the child and assembles the result.  On
    /// any error the captured output is discarded rather than returned
    /// alongside it.
    pub fn close(&mut self) -> (r: Result<i32, ProcessError>)
        requires
            old(self).wf(),
            old(self)@.phase is Running,
        ensures
            final(self).wf(),
            final(self)@.phase is Closed,
            r matches Ok(code) ==> 0 <= code <= 255,
            r matches Err(e) ==> final(self)@.stdout == old(self)@.stdout && final(self)@.stderr
                == old(self)@.stderr && (e is OpenDidNotCloseNormally || e is CouldNotGetStdout
                || e is CouldNotGetStderr),
    {
        self.phase = Phase::Closed;
        let mut child = match self.child.take() {
            Some(c) => c,
            None => unreached(),
        };
        let drained = drain_child(&mut child);
        let waited = wait_child(&mut child);
        let status = match waited {
            Ok(st) => st,
            Err(_) => ChildStatus::Unknown,
        };
        match collect_outputs(status, drained) {
            Ok((code, so, se)) => {
                self.stdout = so;
                self.stderr = se;
                Ok(code)
            },
            Err(e) => Err(e),
        }
    }

    /// The captured stdout; empty until `close` has succeeded.
    pub fn stdout(&self) -> (r: Result<String, ProcessError>)
        ensures
            r matches Ok(s) && s@ == self@.stdout,
    {
        Ok(self.stdout.clone())
    }

    /// The captured stderr; empty until `close` has succeeded.
    pub fn stderr(&self) -> (r: Result<String, ProcessError>)
        ensures
            r matches Ok(s) && s@ == self@.stderr,
    {
        Ok(self.stderr.clone())
    }
}

} // verus!
