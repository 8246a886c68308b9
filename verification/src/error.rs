//! The structured error taxonomy of dispatch and backend execution.

use vstd::prelude::*;

verus! {

/// The origin of a failure.
///
/// `UnknownMethod` and `MissingRequiredParam` are raised by validation before
/// any backend is touched. The `Backend*` kinds classify a failed backend
/// invocation: the process could not start, it exited non-zero, its output
/// was not parseable, the backend was unusable at startup, or the warm
/// runtime raised an otherwise unclassified internal fault.
#[derive(Clone, Copy, PartialEq, Eq, Structural, Debug)]
pub enum ErrorKind {
    UnknownMethod,
    MissingRequiredParam,
    BackendProcessFailed,
    BackendNonzeroExit,
    BackendOutputUnparseable,
    BackendUnavailable,
    BackendInternalError,
}

/// The wire tag of an error kind.
pub open spec fn tag_of(k: ErrorKind) -> Seq<char> {
    match k {
        ErrorKind::UnknownMethod => "unknown_method"@,
        ErrorKind::MissingRequiredParam => "missing_required_param"@,
        ErrorKind::BackendProcessFailed => "backend_process_failed"@,
        ErrorKind::BackendNonzeroExit => "backend_nonzero_exit"@,
        ErrorKind::BackendOutputUnparseable => "backend_output_unparseable"@,
        ErrorKind::BackendUnavailable => "backend_unavailable"@,
        ErrorKind::BackendInternalError => "backend_internal_error"@,
    }
}

impl ErrorKind {
    /// The tag under which this kind is reported to clients.
    pub fn tag(&self) -> (r: &'static str)
        ensures
            r@ == tag_of(*self),
    {
        match self {
            ErrorKind::UnknownMethod => "unknown_method",
            ErrorKind::MissingRequiredParam => "missing_required_param",
            ErrorKind::BackendProcessFailed => "backend_process_failed",
            ErrorKind::BackendNonzeroExit => "backend_nonzero_exit",
            ErrorKind::BackendOutputUnparseable => "backend_output_unparseable",
            ErrorKind::BackendUnavailable => "backend_unavailable",
            ErrorKind::BackendInternalError => "backend_internal_error",
        }
    }
}

/// A structured failure: an origin tag and a human-readable message.
#[derive(Debug)]
pub struct BackendError {
    pub kind: ErrorKind,
    pub message: String,
}

impl BackendError {
    /// Build an error from its tag and message.
    pub fn new(kind: ErrorKind, message: String) -> (r: Self)
        ensures
            r.kind == kind,
            r.message@ == message@,
    {
        BackendError { kind, message }
    }
}

} // verus!
