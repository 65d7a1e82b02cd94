use retry_http::model::RequestOutcome;
use retry_http::model::RequestSpec;
use retry_http::model::RetryPolicy;
use retry_http::model::TransportError;
use retry_http::model::TransportEvent;
use retry_http::requester::RetryingRequester;
use retry_http::transport::ScriptedTransport;

fn requester() -> RetryingRequester {
    RetryingRequester::new("retry-client/0.1").unwrap()
}

fn get_spec() -> RequestSpec {
    RequestSpec {
        url: "http://example.test/resource".to_string(),
        method: "GET".to_string(),
        body: None,
    }
}

fn response(status: u16, text: &str) -> TransportEvent {
    TransportEvent::Response {
        status,
        text: text.to_string(),
    }
}

fn failure(cause: &str) -> TransportEvent {
    TransportEvent::Failure {
        cause: cause.to_string(),
    }
}

#[test]
fn success_returns_body_on_first_attempt() {
    let requester = requester();
    let mut transport = ScriptedTransport::new(vec![
        response(200, "hello"),
        response(200, "hello"),
        response(200, "hello"),
    ]);
    let outcome = requester.execute_with_retry(&get_spec(), &mut transport);
    assert_eq!(outcome, Ok(RequestOutcome::Body("hello".to_string())));
    assert_eq!(transport.calls, 1);
}

#[test]
fn client_error_returns_status_on_first_attempt() {
    let requester = requester();
    let mut transport = ScriptedTransport::new(vec![
        response(404, ""),
        response(404, ""),
        response(404, ""),
    ]);
    let outcome = requester.execute_with_retry(&get_spec(), &mut transport);
    assert_eq!(outcome, Ok(RequestOutcome::StatusCode(404)));
    assert_eq!(transport.calls, 1);
}

#[test]
fn server_errors_stop_at_second_attempt() {
    let requester = requester();
    assert_eq!(requester.policy.max_attempts, 3);
    let mut transport = ScriptedTransport::new(vec![
        response(500, ""),
        response(502, ""),
        response(503, ""),
    ]);
    let outcome = requester.execute_with_retry(&get_spec(), &mut transport);
    assert_eq!(outcome, Ok(RequestOutcome::StatusCode(502)));
    assert_eq!(transport.calls, 2);
}

#[test]
fn server_error_then_success_recovers() {
    let requester = requester();
    let mut transport = ScriptedTransport::new(vec![
        response(500, ""),
        response(200, "recovered"),
        response(500, ""),
    ]);
    let outcome = requester.execute_with_retry(&get_spec(), &mut transport);
    assert_eq!(outcome, Ok(RequestOutcome::Body("recovered".to_string())));
    assert_eq!(transport.calls, 2);
}

#[test]
fn transport_failure_is_fatal_on_first_attempt() {
    let requester = requester();
    let mut transport = ScriptedTransport::new(vec![
        failure("connection refused"),
        response(200, "never reached"),
        response(200, "never reached"),
    ]);
    let outcome = requester.execute_with_retry(&get_spec(), &mut transport);
    assert_eq!(
        outcome,
        Err(TransportError::Failed("connection refused".to_string()))
    );
    assert_eq!(transport.calls, 1);
}

#[test]
fn identical_runs_yield_identical_outcomes() {
    let requester = requester();
    let script = vec![response(500, ""), response(201, "made"), response(500, "")];
    let mut first = ScriptedTransport::new(script.clone());
    let mut second = ScriptedTransport::new(script);
    let outcome_first = requester.execute_with_retry(&get_spec(), &mut first);
    let outcome_second = requester.execute_with_retry(&get_spec(), &mut second);
    assert_eq!(outcome_first, outcome_second);
    assert_eq!(first.calls, second.calls);
}

#[test]
fn redirect_class_falls_through_with_server_errors() {
    let requester = requester();
    let mut transport = ScriptedTransport::new(vec![
        response(301, ""),
        response(302, ""),
        response(303, ""),
    ]);
    let outcome = requester.execute_with_retry(&get_spec(), &mut transport);
    assert_eq!(outcome, Ok(RequestOutcome::StatusCode(302)));
    assert_eq!(transport.calls, 2);
}

#[test]
fn exhausted_budget_returns_last_status() {
    let mut requester = requester();
    requester.policy = RetryPolicy { max_attempts: 1 };
    let mut transport = ScriptedTransport::new(vec![response(503, "")]);
    let outcome = requester.execute_with_retry(&get_spec(), &mut transport);
    assert_eq!(outcome, Ok(RequestOutcome::StatusCode(503)));
    assert_eq!(transport.calls, 1);
}

#[test]
fn invalid_method_fails_before_any_transport_activity() {
    let requester = requester();
    let mut transport = ScriptedTransport::new(vec![
        response(200, "never sent"),
        response(200, "never sent"),
        response(200, "never sent"),
    ]);
    let spec = RequestSpec {
        url: "http://example.test/resource".to_string(),
        method: "NOT A TOKEN".to_string(),
        body: None,
    };
    let outcome = requester.execute_with_retry(&spec, &mut transport);
    assert_eq!(outcome, Err(TransportError::InvalidMethod));
    assert_eq!(transport.calls, 0);
}
