//! Run shell commands and capture their exit code, stdout and stderr.
//!
//! The command text is shell-escaped so that the invoked shell sees it as one
//! opaque script, a child process is spawned running the shell against that
//! script, both output pipes are drained to end-of-stream, and the child's
//! exit status is turned into a return code or a typed error.

mod command;
mod decimal;
mod error;
mod os;
mod process;
mod rash;
pub mod shell;

pub use error::RashError;
pub use process::Process;
pub use process::ProcessError;
pub use process::Phase;
pub use process::ProcessView;
pub use command::BashCommand;
pub use rash::Output;
pub use rash::command;
pub use process::assemble;
pub use process::collect_outputs;
pub use rash::assemble_output;
pub use os::ChildStatus;
pub use decimal::dec_string_i64;
pub use command::into_bash_command;

