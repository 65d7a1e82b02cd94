//! The transport boundary: the opaque client of the `reqwest` crate and its
//! trusted construction, method parsing, and a scripted transport that
//! replays a fixed list of events for the verified loop.

use vstd::prelude::*;

use crate::model::valid_header_value;
use crate::model::valid_method_token;
use crate::model::TransportError;
use crate::model::TransportEvent;

verus! {

#[verifier::external_type_specification]
#[verifier::external_body]
pub struct ExClient(reqwest::Client);

#[verifier::external_type_specification]
#[verifier::external_body]
pub struct ExMethod(reqwest::Method);

/// Relies on reqwest::Method::from_bytes: it accepts exactly the nonempty
/// strings of RFC 9110 token characters and rejects every other byte.
#[verifier::external_body]
fn method_from_bytes(method: &str) -> (r: Option<reqwest::Method>)
    ensures
        r is Some <==> valid_method_token(method@),
{
    reqwest::Method::from_bytes(method.as_bytes()).ok()
}

/// Relies on reqwest::ClientBuilder with only a user agent configured and no
/// optional features: build fails exactly when the user agent string is not
/// a valid header value (each character tab, or at least 32 and not delete).
#[verifier::external_body]
pub(crate) fn build_client(identity: &str) -> (r: Option<reqwest::Client>)
    ensures
        r is Some <==> valid_header_value(identity@),
{
    reqwest::Client::builder().user_agent(identity).build().ok()
}

/// Turns a method string into the transport's verb value, failing fast on
/// anything that is not an HTTP token.
pub fn parse_method(method: &str) -> (r: Result<reqwest::Method, TransportError>)
    ensures
        r is Ok <==> valid_method_token(method@),
        r matches Err(e) ==> e == TransportError::InvalidMethod,
{
    match method_from_bytes(method) {
        Some(m) => Ok(m),
        None => Err(TransportError::InvalidMethod),
    }
}

/// A transport that yields a fixed script of events, one per invocation,
/// and counts how often it was invoked. It stands in for a stateless remote
/// end when the retry loop is exercised.
pub struct ScriptedTransport {
    /// The events not yet yielded, front first.
    pub script: Vec<TransportEvent>,
    /// How many times the transport has been invoked.
    pub calls: usize,
}

impl ScriptedTransport {
    /// The invocation count can still grow by one for every scripted event
    /// that remains.
    pub open spec fn wf(self) -> bool {
        self.calls + self.script@.len() <= usize::MAX
    }

    /// A fresh transport that has not been invoked yet.
    pub fn new(script: Vec<TransportEvent>) -> (t: ScriptedTransport)
        ensures
            t.script == script,
            t.calls == 0,
            t.wf(),
    {
        let remaining: usize = script.len();
        assert(remaining as nat == script@.len());
        ScriptedTransport { script, calls: 0 }
    }

    /// Yields the next scripted event and counts the invocation.
    pub fn next_event(&mut self) -> (event: TransportEvent)
        requires
            old(self).wf(),
            old(self).script@.len() > 0,
        ensures
            final(self).wf(),
            event == old(self).script@[0],
            final(self).script@ == old(self).script@.skip(1),
            final(self).calls == old(self).calls + 1,
    {
        let event = self.script.remove(0);
        self.calls = self.calls + 1;
        proof {
            assert(self.script@ =~= old(self).script@.skip(1));
        }
        event
    }
}

} // verus!
