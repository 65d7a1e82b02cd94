//! The data the retry loop works over: request descriptions, outcomes,
//! errors, the retry policy, and the character rules the transport applies
//! to method tokens and header values.

use vstd::prelude::*;

verus! {

/// The retry budget a requester is built with.
pub const DEFAULT_MAX_ATTEMPTS: u8 = 3;

/// The attempt index at which a server error is returned instead of retried.
pub const SERVER_ERROR_CUTOFF: u8 = 1;

/// What one call asks of the transport: a URL, an HTTP verb token, and an
/// optional text body, treated as empty when absent.
pub struct RequestSpec {
    pub url: String,
    pub method: String,
    pub body: Option<String>,
}

/// The final data result of a call: the text of a successful response, or
/// the terminal non-success status code. A status-based outcome is data,
/// never an error.
#[derive(Debug, PartialEq, Eq)]
pub enum RequestOutcome {
    Body(String),
    StatusCode(u16),
}

/// A failure to complete a request/response exchange. It ends the call at
/// once; nothing here is retried.
#[derive(Debug, PartialEq, Eq)]
pub enum TransportError {
    /// The method string is not an HTTP verb token; no request was issued.
    InvalidMethod,
    /// The exchange itself failed; carries the underlying cause.
    Failed(String),
}

/// A construction-time failure to set up the transport.
#[derive(Debug, PartialEq, Eq)]
pub enum TransportInitError {
    /// The identity string is not a valid header value.
    InvalidIdentity,
}

/// The per-attempt classification of what the transport yielded.
#[derive(Debug, PartialEq, Eq)]
pub enum AttemptResult {
    Success,
    ClientError,
    ServerError,
    TransportFailure,
}

/// What the transport yields for one attempt: a response with its status and
/// text, or a failure to complete the exchange, with its cause.
#[derive(Clone)]
pub enum TransportEvent {
    Response { status: u16, text: String },
    Failure { cause: String },
}

/// The retry budget: how many attempts the loop may make. Fixed when the
/// requester is built and never mutated afterward.
#[derive(Clone, Copy, Debug)]
pub struct RetryPolicy {
    pub max_attempts: u8,
}

impl RetryPolicy {
    /// A policy is well formed when it allows at least one attempt.
    pub open spec fn wf(self) -> bool {
        self.max_attempts >= 1
    }
}

/// The body text handed to the transport: the given body, or empty when
/// there is none.
pub open spec fn spec_effective_body(body: Option<String>) -> Seq<char> {
    match body {
        Some(text) => text@,
        None => Seq::<char>::empty(),
    }
}

/// Materializes the body text for one attempt.
pub fn effective_body(body: &Option<String>) -> (r: String)
    ensures
        r@ == spec_effective_body(*body),
{
    match body {
        Some(text) => text.clone(),
        None => String::new(),
    }
}

/// One character of an HTTP token (RFC 9110 `tchar`): what the transport
/// accepts in a method verb.
pub open spec fn is_tchar(c: char) -> bool {
    ||| c == '!'
    ||| c == '#'
    ||| c == '$'
    ||| c == '%'
    ||| c == '&'
    ||| c == '\''
    ||| c == '*'
    ||| c == '+'
    ||| c == '-'
    ||| c == '.'
    ||| c == '^'
    ||| c == '_'
    ||| c == '`'
    ||| c == '|'
    ||| c == '~'
    ||| ('0' as u32 <= c as u32 && c as u32 <= '9' as u32)
    ||| ('A' as u32 <= c as u32 && c as u32 <= 'Z' as u32)
    ||| ('a' as u32 <= c as u32 && c as u32 <= 'z' as u32)
}

/// A method string the transport accepts: a nonempty run of token
/// characters.
pub open spec fn valid_method_token(s: Seq<char>) -> bool {
    s.len() > 0 && forall|i: int| 0 <= i < s.len() ==> is_tchar(#[trigger] s[i])
}

/// One character the transport accepts in an outbound identity header
/// value: horizontal tab, or anything that is neither one of the other
/// control characters nor delete.
pub open spec fn is_header_value_char(c: char) -> bool {
    c == '\t' || (c as u32 >= 32 && c as u32 != 127)
}

/// An identity string the transport accepts as a header value.
pub open spec fn valid_header_value(s: Seq<char>) -> bool {
    forall|i: int| 0 <= i < s.len() ==> is_header_value_char(#[trigger] s[i])
}

} // verus!
