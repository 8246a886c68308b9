//! The warm backend executor: one persistent session reused across calls.
//!
//! A warm daemon opens its backend session exactly once, at startup, and
//! keeps it for the life of the process; a failed initialization is fatal to
//! startup. The session is not safe for concurrent use, so at most one
//! invocation against it may be in flight at any instant. This module keeps
//! that discipline in the executor's state: an invocation must be begun,
//! which demands that none is in flight, before its outcome may be turned in.
//! Verified callers therefore cannot overlap two invocations; the outer
//! layer, which owns the one executor value, serializes its request handlers
//! around it with a mutual-exclusion lock.
//!
//! The session I/O itself lives with the outer layer; this module decides
//! what each outcome means. A fatal internal fault of the external runtime
//! leaves the session dead: no further invocation can be begun, and the
//! daemon is expected to stop rather than serve calls that always fail.

use vstd::prelude::*;

use crate::error::BackendError;
use crate::error::ErrorKind;

verus! {

/// What one invocation against the live session came to: a structured
/// result payload, an error the external runtime reported for this one
/// call, or a fatal internal fault of the runtime itself.
pub enum SessionOutcome {
    Completed(Vec<u8>),
    OperationError(String),
    Fatal(String),
}

/// The warm executor: holds the one live backend session of the daemon.
#[derive(Debug)]
pub struct WarmExecutor {
    live: bool,
    in_flight: bool,
}

impl WarmExecutor {
    /// The session is usable.
    pub closed spec fn live(&self) -> bool {
        self.live
    }

    /// An invocation has been begun and its outcome not yet turned in.
    pub closed spec fn in_flight(&self) -> bool {
        self.in_flight
    }

    /// Open the one session of the daemon, exactly once, at startup.
    ///
    /// A failed initialization is fatal: the daemon must not start, rather
    /// than accept requests that will always fail.
    pub fn new(init_ok: bool) -> (r: Result<WarmExecutor, BackendError>)
        ensures
            init_ok ==> (r matches Ok(w) && w.live() && !w.in_flight()),
            !init_ok ==> (r matches Err(e) && e.kind == ErrorKind::BackendUnavailable
                && e.message@ == "warm backend session failed to initialize"@),
    {
        if init_ok {
            Ok(WarmExecutor { live: true, in_flight: false })
        } else {
            Err(
                BackendError::new(
                    ErrorKind::BackendUnavailable,
                    "warm backend session failed to initialize".to_owned(),
                ),
            )
        }
    }

    /// Begin one invocation against the session.
    ///
    /// Demands that the session is live and that no other invocation is in
    /// flight: two invocations can never overlap.
    pub fn begin_invocation(&mut self)
        requires
            old(self).live(),
            !old(self).in_flight(),
        ensures
            final(self).live(),
            final(self).in_flight(),
    {
        self.in_flight = true;
    }

    /// Turn in the outcome of the invocation in flight.
    ///
    /// A completed invocation yields its payload verbatim; an error the
    /// runtime reported for this call, and a fatal internal fault, both
    /// surface as `BackendInternalError` with the runtime's message
    /// preserved. A fatal fault additionally leaves the session dead.
    pub fn finish_invocation(&mut self, outcome: SessionOutcome) -> (r: Result<
        Vec<u8>,
        BackendError,
    >)
        requires
            old(self).in_flight(),
        ensures
            !final(self).in_flight(),
            match outcome {
                SessionOutcome::Completed(payload) => (r matches Ok(p) && p@ == payload@
                    && final(self).live() == old(self).live()),
                SessionOutcome::OperationError(m) => (r matches Err(e) && e.kind
                    == ErrorKind::BackendInternalError && e.message@ == m@ && final(self).live()
                    == old(self).live()),
                SessionOutcome::Fatal(m) => (r matches Err(e) && e.kind
                    == ErrorKind::BackendInternalError && e.message@ == m@ && !final(self).live()),
            },
    {
        self.in_flight = false;
        match outcome {
            SessionOutcome::Completed(payload) => Ok(payload),
            SessionOutcome::OperationError(m) => Err(
                BackendError::new(ErrorKind::BackendInternalError, m),
            ),
            SessionOutcome::Fatal(m) => {
                self.live = false;
                Err(BackendError::new(ErrorKind::BackendInternalError, m))
            },
        }
    }
}

} // verus!
