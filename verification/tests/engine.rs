use printavo::error::Error;
use printavo::request::{Method, Outcome, Request, Response};
use printavo::{AuthState, Printavo, Version};

fn base_request() -> Request {
    Request {
        method: Method::Get,
        url: "https://www.printavo.com/api/v1/orders".to_string(),
        query: vec![("page".to_string(), "2".to_string())],
        headers: Vec::new(),
        body: None,
    }
}

fn token_client() -> Printavo {
    Printavo {
        auth_state: AuthState::TokenAuth {
            email: "user@example.com".to_string(),
            token: "SECRET-REDACTED".to_string(),
        },
        base_url: url::Url::parse("https://www.printavo.com").unwrap(),
        version: Version::V1,
        default_headers: Vec::new(),
    }
}

fn unauthorized() -> Outcome {
    Outcome::Failure {
        status: Some(401),
        message: "401 Unauthorized".to_string(),
    }
}

fn count_key(req: &Request, key: &str) -> usize {
    req.query.iter().filter(|p| p.0 == key).count()
}

#[test]
fn anonymous_execute_sends_request_unchanged() {
    let client = Printavo::default();
    let req = base_request();
    let outcomes = vec![Outcome::Success(Response {
        status: 200,
        body: "{}".to_string(),
    })];
    let report = client.execute(&req, &outcomes);
    assert_eq!(report.attempts, 1);
    assert_eq!(report.sent.len(), 1);
    assert_eq!(count_key(&report.sent[0], "email"), 0);
    assert_eq!(count_key(&report.sent[0], "token"), 0);
    assert_eq!(report.sent[0].query, req.query);
}

#[test]
fn anonymous_execute_never_retries_a_401() {
    let client = Printavo::default();
    let req = base_request();
    let outcomes = vec![unauthorized()];
    let report = client.execute(&req, &outcomes);
    assert_eq!(report.attempts, 1);
    match report.result {
        Err(Error::Http { status, .. }) => assert_eq!(status, Some(401)),
        _ => panic!("expected a transport error"),
    }
}

#[test]
fn token_auth_appends_each_credential_parameter_exactly_once() {
    let client = token_client();
    let req = base_request();
    let outcomes = vec![
        unauthorized(),
        unauthorized(),
        unauthorized(),
        unauthorized(),
    ];
    let report = client.execute(&req, &outcomes);
    for sent in &report.sent {
        assert_eq!(count_key(sent, "email"), 1);
        assert_eq!(count_key(sent, "token"), 1);
        assert_eq!(sent.query.len(), req.query.len() + 2);
        assert_eq!(sent.query[0], req.query[0]);
        assert_eq!(
            sent.query[1],
            ("email".to_string(), "user@example.com".to_string())
        );
        assert_eq!(
            sent.query[2],
            ("token".to_string(), "SECRET-REDACTED".to_string())
        );
    }
}

#[test]
fn persistent_401_makes_exactly_four_attempts_then_surfaces_it() {
    let client = token_client();
    let req = base_request();
    let outcomes = vec![
        unauthorized(),
        unauthorized(),
        unauthorized(),
        unauthorized(),
    ];
    let report = client.execute(&req, &outcomes);
    assert_eq!(report.attempts, 4);
    assert_eq!(report.sent.len(), 4);
    match report.result {
        Err(Error::Http { status, .. }) => assert_eq!(status, Some(401)),
        _ => panic!("expected a transport error with status 401"),
    }
}

#[test]
fn retry_short_circuits_on_the_first_success() {
    let client = token_client();
    let req = base_request();
    let outcomes = vec![
        unauthorized(),
        Outcome::Success(Response {
            status: 200,
            body: "payload".to_string(),
        }),
    ];
    let report = client.execute(&req, &outcomes);
    assert_eq!(report.attempts, 2);
    match report.result {
        Ok(resp) => {
            assert_eq!(resp.status, 200);
            assert_eq!(resp.body, "payload");
        }
        Err(_) => panic!("expected the 200 payload"),
    }
}

#[test]
fn a_completed_401_response_is_classified_like_a_401_failure() {
    let client = token_client();
    let req = base_request();
    let outcomes = vec![
        Outcome::Success(Response {
            status: 401,
            body: "denied".to_string(),
        }),
        Outcome::Success(Response {
            status: 200,
            body: "payload".to_string(),
        }),
    ];
    let report = client.execute(&req, &outcomes);
    assert_eq!(report.attempts, 2);
    match report.result {
        Ok(resp) => assert_eq!(resp.status, 200),
        Err(_) => panic!("expected the 200 payload"),
    }
}

#[test]
fn non_401_failure_is_surfaced_immediately() {
    let client = token_client();
    let req = base_request();
    let outcomes = vec![Outcome::Failure {
        status: Some(500),
        message: "server error".to_string(),
    }];
    let report = client.execute(&req, &outcomes);
    assert_eq!(report.attempts, 1);
    match report.result {
        Err(Error::Http { status, message }) => {
            assert_eq!(status, Some(500));
            assert_eq!(message, "server error");
        }
        _ => panic!("expected a transport error with status 500"),
    }
}

#[test]
fn non_401_response_is_returned_without_retry() {
    let client = token_client();
    let req = base_request();
    let outcomes = vec![Outcome::Success(Response {
        status: 500,
        body: "oops".to_string(),
    })];
    let report = client.execute(&req, &outcomes);
    assert_eq!(report.attempts, 1);
    match report.result {
        Ok(resp) => assert_eq!(resp.status, 500),
        Err(_) => panic!("a completed response is returned as-is"),
    }
}

#[test]
fn transport_failure_without_status_is_not_retried() {
    let client = token_client();
    let req = base_request();
    let outcomes = vec![Outcome::Failure {
        status: None,
        message: "connection reset".to_string(),
    }];
    let report = client.execute(&req, &outcomes);
    assert_eq!(report.attempts, 1);
    match report.result {
        Err(Error::Http { status, message }) => {
            assert_eq!(status, None);
            assert_eq!(message, "connection reset");
        }
        _ => panic!("expected a transport error"),
    }
}

#[test]
fn error_describe_names_the_kind() {
    let e = Error::Http {
        status: Some(500),
        message: "server error".to_string(),
    };
    assert_eq!(e.describe(), "HTTP Error: server error");
    let e = Error::Json {
        path: "data[0].id".to_string(),
        message: "expected an unsigned integer".to_string(),
    };
    assert_eq!(
        e.describe(),
        "JSON Error in data[0].id: expected an unsigned integer"
    );
    let e = Error::Url {
        message: "relative URL without a base".to_string(),
    };
    assert_eq!(e.describe(), "Url parse error: relative URL without a base");
}
