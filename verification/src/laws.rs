//! The laws of the retry loop, stated over the loop's own model and proved
//! once for every script, method, and budget.

use vstd::prelude::*;

use crate::classify::yields_client_error;
use crate::classify::yields_server_error;
use crate::classify::yields_success;
use crate::classify::spec_decide;
use crate::classify::StepDecision;
use crate::model::valid_method_token;
use crate::model::RequestOutcome;
use crate::model::TransportError;
use crate::model::TransportEvent;
use crate::requester::run_from;
use crate::requester::spec_execute;

verus! {

/// A transport that answers every attempt with a success status yields the
/// first response's body: the transport is invoked exactly once.
pub proof fn lemma_success_returns_first_body(
    method: Seq<char>,
    events: Seq<TransportEvent>,
    max_attempts: nat,
)
    requires
        valid_method_token(method),
        max_attempts >= 1,
        events.len() >= max_attempts,
        forall|i: int| 0 <= i < events.len() ==> yields_success(#[trigger] events[i]),
    ensures
        spec_execute(method, events, max_attempts).0 == Ok::<RequestOutcome, TransportError>(
            RequestOutcome::Body(events[0]->Response_text),
        ),
        spec_execute(method, events, max_attempts).1 == 1,
{
    assert(spec_decide(0, events[0]) == StepDecision::Finish(
        RequestOutcome::Body(events[0]->Response_text),
    ));
}

/// A transport that answers every attempt with a client error yields the
/// first response's status code: the transport is invoked exactly once,
/// whatever the budget.
pub proof fn lemma_client_error_returns_first_status(
    method: Seq<char>,
    events: Seq<TransportEvent>,
    max_attempts: nat,
)
    requires
        valid_method_token(method),
        max_attempts >= 1,
        events.len() >= max_attempts,
        forall|i: int| 0 <= i < events.len() ==> yields_client_error(#[trigger] events[i]),
    ensures
        spec_execute(method, events, max_attempts).0 == Ok::<RequestOutcome, TransportError>(
            RequestOutcome::StatusCode(events[0]->Response_status),
        ),
        spec_execute(method, events, max_attempts).1 == 1,
{
    assert(spec_decide(0, events[0]) == StepDecision::Finish(
        RequestOutcome::StatusCode(events[0]->Response_status),
    ));
}

/// A transport that answers every attempt with a server error is invoked
/// exactly twice, and the call returns the second attempt's status code,
/// however large the budget: a third attempt is never made. A budget of a
/// single attempt stops before the cutoff can be reached, so this law
/// speaks of budgets of at least two.
pub proof fn lemma_server_error_stops_at_cutoff(
    method: Seq<char>,
    events: Seq<TransportEvent>,
    max_attempts: nat,
)
    requires
        valid_method_token(method),
        max_attempts >= 2,
        events.len() >= max_attempts,
        forall|i: int| 0 <= i < events.len() ==> yields_server_error(#[trigger] events[i]),
    ensures
        spec_execute(method, events, max_attempts).0 == Ok::<RequestOutcome, TransportError>(
            RequestOutcome::StatusCode(events[1]->Response_status),
        ),
        spec_execute(method, events, max_attempts).1 == 2,
{
    assert(spec_decide(0, events[0]) == StepDecision::Retry {
        status: events[0]->Response_status,
    });
    assert(spec_decide(1, events[1]) == StepDecision::Finish(
        RequestOutcome::StatusCode(events[1]->Response_status),
    ));
    assert(run_from(events, 1, max_attempts, events[0]->Response_status) == (
        Ok::<RequestOutcome, TransportError>(
            RequestOutcome::StatusCode(events[1]->Response_status),
        ),
        1nat,
    ));
}

/// A transport that answers with a server error and then with a success
/// makes the call retry once and return the second response's body: the
/// transport is invoked exactly twice.
pub proof fn lemma_server_error_then_success(
    method: Seq<char>,
    events: Seq<TransportEvent>,
    max_attempts: nat,
)
    requires
        valid_method_token(method),
        max_attempts >= 2,
        events.len() >= max_attempts,
        yields_server_error(events[0]),
        yields_success(events[1]),
    ensures
        spec_execute(method, events, max_attempts).0 == Ok::<RequestOutcome, TransportError>(
            RequestOutcome::Body(events[1]->Response_text),
        ),
        spec_execute(method, events, max_attempts).1 == 2,
{
    assert(spec_decide(0, events[0]) == StepDecision::Retry {
        status: events[0]->Response_status,
    });
    assert(run_from(events, 1, max_attempts, events[0]->Response_status) == (
        Ok::<RequestOutcome, TransportError>(RequestOutcome::Body(events[1]->Response_text)),
        1nat,
    ));
}

/// A transport failure on the first attempt ends the call at once with the
/// transport error, carrying its cause: one invocation, no retry.
pub proof fn lemma_transport_failure_is_fatal(
    method: Seq<char>,
    events: Seq<TransportEvent>,
    max_attempts: nat,
)
    requires
        valid_method_token(method),
        max_attempts >= 1,
        events.len() >= max_attempts,
        events[0] is Failure,
    ensures
        spec_execute(method, events, max_attempts).0 == Err::<RequestOutcome, TransportError>(
            TransportError::Failed(events[0]->Failure_cause),
        ),
        spec_execute(method, events, max_attempts).1 == 1,
{
    assert(spec_decide(0, events[0]) == StepDecision::Fail(
        TransportError::Failed(events[0]->Failure_cause),
    ));
}

/// The outcome of a call depends only on the method, the events the
/// transport yields, and the budget: two calls with identical inputs
/// against a stateless transport agree in outcome and in how often the
/// transport is invoked.
pub proof fn lemma_execute_deterministic(
    method_a: Seq<char>,
    method_b: Seq<char>,
    events_a: Seq<TransportEvent>,
    events_b: Seq<TransportEvent>,
    max_attempts: nat,
)
    requires
        method_a == method_b,
        events_a == events_b,
    ensures
        spec_execute(method_a, events_a, max_attempts) == spec_execute(
            method_b,
            events_b,
            max_attempts,
        ),
{
}

} // verus!
