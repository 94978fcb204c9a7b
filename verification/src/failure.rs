//! The driver's error values and the mapping of OS-level failures onto them.

use vstd::prelude::*;
use vstd::string::StringExecFns;

verus! {

/// A failure reported by a `compile` call.
///
/// `ProgramNotFound` means the external executable could not be located on
/// the search path at spawn time. `ShellCommand` covers every other failure
/// touching the external process: a spawn or write failure (with the
/// underlying OS error code, when one was available), an explicit `err`
/// sentinel, or the output stream closing before any sentinel (the last two
/// carry no code and no further detail).
#[derive(Debug, PartialEq, Eq)]
pub enum CompileFailure {
    ProgramNotFound { program: String },
    ShellCommand { program: String, err: Option<i32> },
}

/// The cause of a failed attempt to spawn the external process, as the
/// operating system reported it: the executable was not found on the search
/// path, or anything else, with the raw OS error code when one was given.
#[derive(Debug, PartialEq, Eq)]
pub enum SpawnError {
    NotFound,
    Other(Option<i32>),
}

/// The failure reported when the worker answers with the `err` sentinel or
/// closes its output stream before any sentinel: only the kind, no payload.
pub open spec fn is_protocol_failure(f: CompileFailure) -> bool {
    &&& f matches CompileFailure::ShellCommand { program, err }
    &&& program@ == "escript"@
    &&& err is None
}

/// Builds the no-detail failure shared by the `err` sentinel and a closed
/// output stream: the two causes are deliberately indistinguishable.
pub fn protocol_failure() -> (r: CompileFailure)
    ensures
        is_protocol_failure(r),
{
    CompileFailure::ShellCommand { program: String::from_str("escript"), err: None }
}

/// Maps a failed spawn to the driver's error: a missing executable is
/// `ProgramNotFound`; any other spawn failure is `ShellCommand`, carrying
/// the OS error code when one was available.
pub fn spawn_failure(cause: &SpawnError) -> (r: CompileFailure)
    ensures
        cause is NotFound ==> (r matches CompileFailure::ProgramNotFound { program }
            && program@ == "escript"@),
        cause matches SpawnError::Other(code) ==> (r matches CompileFailure::ShellCommand {
            program,
            err,
        } && program@ == "escript"@ && err == code),
{
    match cause {
        SpawnError::NotFound => CompileFailure::ProgramNotFound {
            program: String::from_str("escript"),
        },
        SpawnError::Other(code) => CompileFailure::ShellCommand {
            program: String::from_str("escript"),
            err: *code,
        },
    }
}

/// Maps a failed write on the worker's input pipe to the driver's error:
/// always `ShellCommand`, with the OS error code when one was available.
pub fn write_failure(code: Option<i32>) -> (r: CompileFailure)
    ensures
        r matches CompileFailure::ShellCommand { program, err } && program@ == "escript"@ && err
            == code,
{
    CompileFailure::ShellCommand { program: String::from_str("escript"), err: code }
}

} // verus!
