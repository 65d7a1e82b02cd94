//! The requester: it owns the transport handle and the retry policy, and
//! its retry loop turns a script of transport events into one outcome.

use vstd::prelude::*;

use crate::classify::spec_decide;
use crate::classify::StepDecision;
use crate::classify::decide_attempt;
use crate::model::valid_header_value;
use crate::model::valid_method_token;
use crate::model::RequestOutcome;
use crate::model::RequestSpec;
use crate::model::RetryPolicy;
use crate::model::TransportError;
use crate::model::TransportEvent;
use crate::model::TransportInitError;
use crate::model::DEFAULT_MAX_ATTEMPTS;
use crate::transport::build_client;
use crate::transport::parse_method;
use crate::transport::ScriptedTransport;

verus! {

/// What the retry loop produces from the given attempt index on, when the
/// transport yields the given events: the outcome of the call, and how many
/// further attempts the loop makes. `last_status` is the status recorded by
/// the most recent retried attempt; if the budget runs out, the loop
/// returns it rather than fall into an undefined state.
pub open spec fn run_from(
    events: Seq<TransportEvent>,
    attempt: nat,
    max_attempts: nat,
    last_status: u16,
) -> (Result<RequestOutcome, TransportError>, nat)
    decreases max_attempts - attempt,
{
    if attempt >= max_attempts {
        (Ok(RequestOutcome::StatusCode(last_status)), 0)
    } else {
        match spec_decide(attempt, events[attempt as int]) {
            StepDecision::Finish(outcome) => (Ok(outcome), 1),
            StepDecision::Fail(err) => (Err(err), 1),
            StepDecision::Retry { status } => {
                let tail = run_from(events, attempt + 1, max_attempts, status);
                (tail.0, tail.1 + 1)
            },
        }
    }
}

/// The whole call: a method that is no HTTP token fails fast, before any
/// transport activity; otherwise the retry loop runs from the first
/// attempt. The pair is the outcome and the number of transport
/// invocations.
pub open spec fn spec_execute(
    method: Seq<char>,
    events: Seq<TransportEvent>,
    max_attempts: nat,
) -> (Result<RequestOutcome, TransportError>, nat) {
    if !valid_method_token(method) {
        (Err(TransportError::InvalidMethod), 0)
    } else {
        run_from(events, 0, max_attempts, 0)
    }
}

/// A requester: the owned transport handle and the fixed retry policy.
/// It holds no mutable state of its own across calls.
pub struct RetryingRequester {
    pub client: reqwest::Client,
    pub policy: RetryPolicy,
}

impl RetryingRequester {
    /// A requester is well formed when its policy allows an attempt.
    pub open spec fn wf(self) -> bool {
        self.policy.wf()
    }

    /// Builds a requester that identifies itself to remote servers with the
    /// given string, with the default retry budget. Construction fails
    /// exactly when the transport rejects the identity string.
    pub fn new(identity: &str) -> (r: Result<RetryingRequester, TransportInitError>)
        ensures
            r is Ok <==> valid_header_value(identity@),
            r matches Ok(requester) ==> requester.wf() && requester.policy.max_attempts
                == DEFAULT_MAX_ATTEMPTS,
            r matches Err(e) ==> e == TransportInitError::InvalidIdentity,
    {
        match build_client(identity) {
            Some(client) => Ok(
                RetryingRequester {
                    client,
                    policy: RetryPolicy { max_attempts: DEFAULT_MAX_ATTEMPTS },
                },
            ),
            None => Err(TransportInitError::InvalidIdentity),
        }
    }

    /// Performs the request described by `request` against the scripted
    /// transport, retrying as the policy directs, and returns the outcome.
    /// The transport is invoked exactly as often as `spec_execute` says,
    /// consuming that many scripted events.
    pub fn execute_with_retry(
        &self,
        request: &RequestSpec,
        transport: &mut ScriptedTransport,
    ) -> (r: Result<RequestOutcome, TransportError>)
        requires
            self.wf(),
            old(transport).wf(),
            old(transport).script@.len() >= self.policy.max_attempts,
        ensures
            final(transport).wf(),
            r == spec_execute(
                request.method@,
                old(transport).script@,
                self.policy.max_attempts as nat,
            ).0,
            final(transport).calls == old(transport).calls + spec_execute(
                request.method@,
                old(transport).script@,
                self.policy.max_attempts as nat,
            ).1,
            final(transport).script@ == old(transport).script@.skip(
                spec_execute(
                    request.method@,
                    old(transport).script@,
                    self.policy.max_attempts as nat,
                ).1 as int,
            ),
    {
        let ghost script0 = transport.script@;
        let ghost calls0: usize = transport.calls;
        let ghost max_n: nat = self.policy.max_attempts as nat;
        match parse_method(request.method.as_str()) {
            Err(err) => {
                proof {
                    assert(script0.skip(0) =~= script0);
                }
                return Err(err);
            },
            Ok(_verb) => {},
        }
        let ghost target = run_from(script0, 0, max_n, 0);
        let max_attempts = self.policy.max_attempts;
        let mut attempt: u8 = 0;
        let mut last_status: u16 = 0;
        #[verifier::loop_isolation(false)]
        while attempt < max_attempts
            invariant
                attempt <= max_attempts,
                max_n == max_attempts as nat,
                script0.len() >= max_attempts,
                transport.wf(),
                transport.calls == calls0 + attempt,
                transport.script@ == script0.skip(attempt as int),
                target == run_from(script0, 0, max_n, 0),
                run_from(script0, attempt as nat, max_n, last_status).0 == target.0,
                attempt + run_from(script0, attempt as nat, max_n, last_status).1 == target.1,
            decreases max_attempts - attempt,
        {
            let event = transport.next_event();
            proof {
                assert(script0.skip(attempt as int)[0] == script0[attempt as int]);
                assert(script0.skip(attempt as int).skip(1) =~= script0.skip(attempt as int + 1));
            }
            match decide_attempt(attempt, event) {
                StepDecision::Finish(outcome) => {
                    return Ok(outcome);
                },
                StepDecision::Fail(err) => {
                    return Err(err);
                },
                StepDecision::Retry { status } => {
                    last_status = status;
                },
            }
            attempt = attempt + 1;
        }
        Ok(RequestOutcome::StatusCode(last_status))
    }
}

} // verus!
