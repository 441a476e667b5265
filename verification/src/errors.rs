use vstd::prelude::*;

verus! {

/// Failures of the delivery pipeline. Negotiation-time failures
/// (`DeviceOpenError`, `UnsupportedParameterError`, `CommitError`) are
/// recoverable at the call site; `RuntimeWriteError` and `PollError` are
/// fatal to a running playback loop. The payload is the driver's negated
/// errno; an `UnsupportedParameterError` of zero marks a request the
/// capability space itself rules out, before any driver call.
#[derive(Clone, Copy, Debug, PartialEq, Eq, Structural)]
pub enum Error {
    DeviceOpenError(i32),
    UnsupportedParameterError(i32),
    CommitError(i32),
    RuntimeWriteError(i32),
    PollError(i32),
}

} // verus!
