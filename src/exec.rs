//! What the library makes of a finished child process: its exit status and
//! output, and the path that a `which` lookup reported.

use vstd::prelude::*;
use crate::error::SandboxError;
use crate::text::{trim_white_space, trimmed};

verus! {

/// A finished command's exit status and output.
#[derive(Debug)]
pub struct CommandOutput {
    /// The exit status (-1 when the process ended without one).
    pub status: i32,
    /// Standard output.
    pub stdout: String,
    /// Standard error.
    pub stderr: String,
}

impl CommandOutput {
    /// Whether the command succeeded: exit status 0.
    pub fn success(&self) -> (r: bool)
        ensures
            r == (self.status == 0),
    {
        self.status == 0
    }
}

/// The path of `command` from the output of looking it up with `which`: the
/// trimmed output when the lookup succeeded, else `CommandNotFound`.
pub fn get_command_path(command: &str, lookup: &CommandOutput) -> (r: Result<String, SandboxError>)
    ensures
        lookup.status == 0 ==> (r matches Ok(p) && p@ == trimmed(lookup.stdout@)),
        lookup.status != 0 ==> (r matches Err(e) && e is CommandNotFound && e->CommandNotFound_0@ == command@),
{
    if lookup.success() {
        Ok(trim_white_space(lookup.stdout.as_str()))
    } else {
        Err(SandboxError::CommandNotFound(String::from_str(command)))
    }
}

} // verus!
