//! Classification of a transport's answer, and the per-attempt decision the
//! retry loop takes from it.

use vstd::prelude::*;

use crate::model::AttemptResult;
use crate::model::RequestOutcome;
use crate::model::TransportError;
use crate::model::TransportEvent;
use crate::model::SERVER_ERROR_CUTOFF;

verus! {

/// A success status: the 2xx class.
pub open spec fn is_success_status(status: u16) -> bool {
    200 <= status < 300
}

/// A client error status: the 4xx class. Never retried.
pub open spec fn is_client_error_status(status: u16) -> bool {
    400 <= status < 500
}

/// A server error status: the 5xx class. Retried up to the cutoff.
pub open spec fn is_server_error_status(status: u16) -> bool {
    500 <= status < 600
}

/// The class of a received status. Statuses outside the three specified
/// classes (1xx, 3xx, and anything past 599) have no rule of their own and
/// fall through with the server errors, so every status lands in exactly
/// one class.
pub open spec fn spec_classify_status(status: u16) -> AttemptResult {
    if is_success_status(status) {
        AttemptResult::Success
    } else if is_client_error_status(status) {
        AttemptResult::ClientError
    } else {
        AttemptResult::ServerError
    }
}

/// Classifies a received status code.
pub fn classify_status(status: u16) -> (c: AttemptResult)
    ensures
        c == spec_classify_status(status),
{
    if 200 <= status && status < 300 {
        AttemptResult::Success
    } else if 400 <= status && status < 500 {
        AttemptResult::ClientError
    } else {
        AttemptResult::ServerError
    }
}

/// The classification of a whole attempt: a response is classified by its
/// status, and the absence of one is a transport failure.
pub open spec fn spec_classify_event(event: TransportEvent) -> AttemptResult {
    match event {
        TransportEvent::Response { status, .. } => spec_classify_status(status),
        TransportEvent::Failure { .. } => AttemptResult::TransportFailure,
    }
}

/// Classifies what the transport yielded for one attempt.
pub fn classify_event(event: &TransportEvent) -> (c: AttemptResult)
    ensures
        c == spec_classify_event(*event),
{
    match event {
        TransportEvent::Response { status, .. } => classify_status(*status),
        TransportEvent::Failure { .. } => AttemptResult::TransportFailure,
    }
}

/// The event is a response in the success class.
pub open spec fn yields_success(event: TransportEvent) -> bool {
    event matches TransportEvent::Response { status, .. } && is_success_status(status)
}

/// The event is a response in the client error class.
pub open spec fn yields_client_error(event: TransportEvent) -> bool {
    event matches TransportEvent::Response { status, .. } && is_client_error_status(status)
}

/// The event is a response in the server error class.
pub open spec fn yields_server_error(event: TransportEvent) -> bool {
    event matches TransportEvent::Response { status, .. } && is_server_error_status(status)
}

/// What the loop does after one attempt.
#[derive(Debug, PartialEq, Eq)]
pub enum StepDecision {
    /// The call ends now with this outcome.
    Finish(RequestOutcome),
    /// The call ends now with this transport error.
    Fail(TransportError),
    /// The loop tries again, recording the status it observed.
    Retry { status: u16 },
}

/// The decision taken at the given attempt index for the given event:
/// a success returns its body at once; a client error returns its status at
/// once; a transport failure fails the call at once; everything else is
/// retried, except at the cutoff attempt, where its status is returned.
pub open spec fn spec_decide(attempt: nat, event: TransportEvent) -> StepDecision {
    match event {
        TransportEvent::Failure { cause } => StepDecision::Fail(TransportError::Failed(cause)),
        TransportEvent::Response { status, text } => {
            if is_success_status(status) {
                StepDecision::Finish(RequestOutcome::Body(text))
            } else if is_client_error_status(status) {
                StepDecision::Finish(RequestOutcome::StatusCode(status))
            } else if attempt == SERVER_ERROR_CUTOFF as nat {
                StepDecision::Finish(RequestOutcome::StatusCode(status))
            } else {
                StepDecision::Retry { status }
            }
        },
    }
}

/// Takes the per-attempt decision.
pub fn decide_attempt(attempt: u8, event: TransportEvent) -> (d: StepDecision)
    ensures
        d == spec_decide(attempt as nat, event),
{
    match event {
        TransportEvent::Failure { cause } => StepDecision::Fail(TransportError::Failed(cause)),
        TransportEvent::Response { status, text } => {
            if 200 <= status && status < 300 {
                StepDecision::Finish(RequestOutcome::Body(text))
            } else if 400 <= status && status < 500 {
                StepDecision::Finish(RequestOutcome::StatusCode(status))
            } else if attempt == SERVER_ERROR_CUTOFF {
                StepDecision::Finish(RequestOutcome::StatusCode(status))
            } else {
                StepDecision::Retry { status }
            }
        },
    }
}

} // verus!
