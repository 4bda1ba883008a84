//! Descriptions of one process-launch attempt.
//!
//! A `LaunchSpec` is immutable once constructed: the program name, its
//! argument list, an optional working directory, and whether the launch
//! captures output and waits (classification mode) or detaches
//! (service-startup mode). The host performs the actual spawn.

use vstd::prelude::*;

verus! {

/// One launch attempt: program, arguments, working directory, capture mode.
pub struct LaunchSpec {
    pub program: String,
    pub args: Vec<String>,
    pub working_dir: Option<String>,
    pub capture: bool,
}

/// A captured, waited-for launch of `script` under `interpreter` with the
/// input path as the sole script argument.
pub open spec fn capture_launch(
    l: LaunchSpec,
    interpreter: Seq<char>,
    script: Seq<char>,
    input: Seq<char>,
) -> bool {
    &&& l.program@ == interpreter
    &&& l.args@.len() == 2
    &&& l.args@[0]@ == script
    &&& l.args@[1]@ == input
    &&& l.working_dir is None
    &&& l.capture == true
}

/// A detached launch of `script` under `shell`, run from the directory
/// `dir`, with nothing captured and nothing waited for.
pub open spec fn service_launch(
    l: LaunchSpec,
    shell: Seq<char>,
    script: Seq<char>,
    dir: Seq<char>,
) -> bool {
    &&& l.program@ == shell
    &&& l.args@.len() == 1
    &&& l.args@[0]@ == script
    &&& l.working_dir is Some
    &&& l.working_dir->0@ == dir
    &&& l.capture == false
}

/// Builds the captured launch of a classification attempt.
pub fn capture_attempt(interpreter: String, script: String, input: String) -> (l: LaunchSpec)
    ensures
        capture_launch(l, interpreter@, script@, input@),
{
    LaunchSpec { program: interpreter, args: vec![script, input], working_dir: None, capture: true }
}

/// Builds the detached launch that starts the backend service.
pub fn service_attempt(shell: String, script: String, dir: String) -> (l: LaunchSpec)
    ensures
        service_launch(l, shell@, script@, dir@),
{
    LaunchSpec { program: shell, args: vec![script], working_dir: Some(dir), capture: false }
}

} // verus!
