//! The cold backend executor: one external process per call.
//!
//! A cold call spawns a fresh backend process with positional arguments and
//! classifies what came back. The spawn itself is I/O and lives with the
//! daemon's outer layer; this module fixes the command to run and decides,
//! from the spawn's outcome, whether the call succeeded and which structured
//! error it failed with otherwise.

use vstd::prelude::*;

use crate::error::BackendError;
use crate::error::ErrorKind;
use crate::json::json_error_field;
use crate::json::json_error_message;
use crate::json::json_parses;
use crate::json::json_wellformed;
use crate::json::utf8_lossy;
use crate::json::utf8_lossy_of;

verus! {

/// A backend command ready to run: the ordered positional arguments handed
/// to the backend script. Order matters: the script reads them positionally.
#[derive(Debug)]
pub struct CliCommand {
    pub args: Vec<String>,
}

/// The texts of a sequence of strings.
pub open spec fn strings_model(s: Seq<String>) -> Seq<Seq<char>> {
    Seq::new(s.len(), |i: int| s[i]@)
}

/// What one spawned backend process came to.
///
/// `FailedToStart` carries the OS error text when the process could not be
/// started at all; `Completed` carries the exit status and the captured
/// output streams.
pub enum SpawnOutcome {
    FailedToStart(String),
    Completed { success: bool, stdout: Vec<u8>, stderr: Vec<u8> },
}

/// Classify a finished cold call.
///
/// In order: a process that never started fails as `BackendProcessFailed`
/// with the OS error text; a non-zero exit fails as `BackendNonzeroExit`,
/// with the structured `error` payload from standard output when there is
/// one and the raw standard error text otherwise; a zero exit whose standard
/// output is not one JSON document fails as `BackendOutputUnparseable`; a
/// zero exit with parseable output succeeds with that output verbatim.
pub fn classify_outcome(outcome: SpawnOutcome) -> (r: Result<Vec<u8>, BackendError>)
    ensures
        match outcome {
            SpawnOutcome::FailedToStart(e) => (r matches Err(be) && be.kind
                == ErrorKind::BackendProcessFailed && be.message@ == e@),
            SpawnOutcome::Completed { success, stdout, stderr } => {
                if !success {
                    match json_error_field(stdout@) {
                        Some(m) => (r matches Err(be) && be.kind == ErrorKind::BackendNonzeroExit
                            && be.message@ == m),
                        None => (r matches Err(be) && be.kind == ErrorKind::BackendNonzeroExit
                            && be.message@ == utf8_lossy_of(stderr@)),
                    }
                } else if json_wellformed(stdout@) {
                    r matches Ok(out) && out@ == stdout@
                } else {
                    (r matches Err(be) && be.kind == ErrorKind::BackendOutputUnparseable
                        && be.message@ == "backend output is not valid JSON"@)
                }
            },
        },
{
    match outcome {
        SpawnOutcome::FailedToStart(e) => Err(
            BackendError::new(ErrorKind::BackendProcessFailed, e),
        ),
        SpawnOutcome::Completed { success, stdout, stderr } => {
            if !success {
                match json_error_message(stdout.as_slice()) {
                    Some(m) => Err(BackendError::new(ErrorKind::BackendNonzeroExit, m)),
                    None => Err(
                        BackendError::new(
                            ErrorKind::BackendNonzeroExit,
                            utf8_lossy(stderr.as_slice()),
                        ),
                    ),
                }
            } else if json_parses(stdout.as_slice()) {
                Ok(stdout)
            } else {
                Err(
                    BackendError::new(
                        ErrorKind::BackendOutputUnparseable,
                        "backend output is not valid JSON".to_owned(),
                    ),
                )
            }
        },
    }
}

} // verus!
