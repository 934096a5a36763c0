use zeroentropy_community::{
    calculate_retry_delay, choose_error_message, error_from_response, error_message, is_success,
    next_action, should_retry, Client, ClientError, EnvDefaults, RetryAction,
};

/// Runs the retry loop of one logical call against a scripted server and returns
/// the number of requests sent, the final status and the delays waited.
fn run_call(max_retries: u32, responses: &[u16]) -> (usize, u16, Vec<u64>) {
    let mut retries_done: u32 = 0;
    let mut sent: usize = 0;
    let mut delays = Vec::new();
    loop {
        let status = responses[sent];
        sent += 1;
        match next_action(retries_done, max_retries, status) {
            RetryAction::Retry { attempt, delay_ms } => {
                retries_done = attempt;
                delays.push(delay_ms);
            }
            RetryAction::Finish => return (sent, status, delays),
        }
    }
}

#[test]
fn retryable_statuses() {
    for status in [408u16, 409, 429, 500, 502, 503, 599] {
        assert!(should_retry(status), "{status}");
    }
    for status in [0u16, 200, 201, 204, 299, 400, 401, 403, 404, 422, 407, 410, 499, 600, 601, 65535] {
        assert!(!should_retry(status), "{status}");
    }
}

#[test]
fn backoff_delays() {
    assert_eq!(calculate_retry_delay(1), 500);
    assert_eq!(calculate_retry_delay(2), 1000);
    assert_eq!(calculate_retry_delay(3), 2000);
    assert_eq!(calculate_retry_delay(4), 4000);
    assert_eq!(calculate_retry_delay(5), 8000);
    assert_eq!(calculate_retry_delay(6), 8000);
    assert_eq!(calculate_retry_delay(64), 8000);
    assert_eq!(calculate_retry_delay(u32::MAX), 8000);
}

#[test]
fn rate_limited_twice_then_success() {
    let (sent, status, delays) = run_call(2, &[429, 429, 200]);
    assert_eq!(sent, 3);
    assert_eq!(status, 200);
    assert!(is_success(status));
    assert_eq!(delays, vec![500, 1000]);
}

#[test]
fn server_errors_exhaust_retries() {
    let (sent, status, _) = run_call(2, &[500, 500, 500, 200]);
    assert_eq!(sent, 3);
    assert_eq!(status, 500);
    assert!(!is_success(status));
    let err = error_from_response(status, Some("boom".to_string()));
    assert!(matches!(err, ClientError::InternalServerError(ref m) if m == "boom"));
}

#[test]
fn not_found_is_not_retried() {
    let (sent, status, delays) = run_call(2, &[404, 200]);
    assert_eq!(sent, 1);
    assert!(delays.is_empty());
    let err = error_from_response(status, Some("{\"message\":\"Collection not found\"}".to_string()));
    assert!(matches!(err, ClientError::NotFound(ref m) if m == "Collection not found"));
}

#[test]
fn conflict_with_unparsable_body() {
    let (sent, status, _) = run_call(2, &[409, 409, 409]);
    assert_eq!(sent, 3);
    let err = error_from_response(status, Some("already there <html>".to_string()));
    assert!(matches!(err, ClientError::Conflict(ref m) if m == "already there <html>"));
}

#[test]
fn zero_retry_budget_sends_once() {
    assert_eq!(run_call(0, &[503, 200]).0, 1);
    assert_eq!(next_action(2, 2, 500), RetryAction::Finish);
    assert_eq!(next_action(1, 3, 408), RetryAction::Retry { attempt: 2, delay_ms: 1000 });
    assert_eq!(next_action(0, 3, 200), RetryAction::Finish);
}

#[test]
fn status_table() {
    let m = || "msg".to_string();
    assert!(matches!(ClientError::from_status(400, m()), ClientError::BadRequest(_)));
    assert!(matches!(ClientError::from_status(401, m()), ClientError::AuthenticationError(_)));
    assert!(matches!(ClientError::from_status(403, m()), ClientError::PermissionDenied(_)));
    assert!(matches!(ClientError::from_status(404, m()), ClientError::NotFound(_)));
    assert!(matches!(ClientError::from_status(409, m()), ClientError::Conflict(_)));
    assert!(matches!(ClientError::from_status(422, m()), ClientError::UnprocessableEntity(_)));
    assert!(matches!(ClientError::from_status(429, m()), ClientError::RateLimitExceeded(_)));
    assert!(matches!(ClientError::from_status(500, m()), ClientError::InternalServerError(_)));
    assert!(matches!(ClientError::from_status(599, m()), ClientError::InternalServerError(_)));
    assert!(matches!(
        ClientError::from_status(600, m()),
        ClientError::Api { status: 600, ref message } if message == "msg"
    ));
    assert!(matches!(
        ClientError::from_status(418, m()),
        ClientError::Api { status: 418, .. }
    ));
}

#[test]
fn error_descriptions() {
    let s = |e: ClientError| e.to_string();
    assert_eq!(s(ClientError::BadRequest("x".into())), "Bad request: x");
    assert_eq!(s(ClientError::AuthenticationError("x".into())), "Authentication failed: x");
    assert_eq!(s(ClientError::PermissionDenied("x".into())), "Permission denied: x");
    assert_eq!(s(ClientError::UnprocessableEntity("x".into())), "Unprocessable entity: x");
    assert_eq!(s(ClientError::RateLimitExceeded("x".into())), "Rate limit exceeded: x");
    assert_eq!(s(ClientError::InternalServerError("x".into())), "Internal server error: x");
    assert_eq!(
        s(ClientError::Api { status: 418, message: "teapot".into() }),
        "API error (418): teapot"
    );
    assert!(s(ClientError::InvalidApiKey).starts_with("Invalid API key"));
}

#[test]
fn error_message_sources() {
    assert_eq!(error_message(None), "Unknown error");
    assert_eq!(error_message(Some("{\"message\":\"quota\"}".to_string())), "quota");
    assert_eq!(error_message(Some("{\"detail\":\"x\"}".to_string())), "{\"detail\":\"x\"}");
    assert_eq!(error_message(Some("{\"message\":42}".to_string())), "{\"message\":42}");
    assert_eq!(error_message(Some("not json".to_string())), "not json");
    assert_eq!(error_message(Some(String::new())), "");
    assert_eq!(choose_error_message(None, Some("m".to_string())), "Unknown error");
    assert_eq!(choose_error_message(Some("raw".to_string()), Some("m".to_string())), "m");
    assert_eq!(choose_error_message(Some("raw".to_string()), None), "raw");
}

#[test]
fn missing_api_key_is_rejected() {
    assert!(matches!(Client::builder().build(), Err(ClientError::InvalidApiKey)));
    assert!(matches!(Client::from_env(EnvDefaults::none()), Err(ClientError::InvalidApiKey)));
    assert!(matches!(Client::new(String::new()), Err(ClientError::InvalidApiKey)));
    let env = EnvDefaults { api_key: None, base_url: Some("http://localhost".to_string()) };
    assert!(matches!(Client::builder().build_with_env(env), Err(ClientError::InvalidApiKey)));
}

#[test]
fn configuration_defaults_and_fallbacks() {
    let c = Client::new("k".to_string()).unwrap();
    assert_eq!(c.api_key(), "k");
    assert_eq!(c.base_url(), "https://api.zeroentropy.dev/v1");
    assert_eq!(c.timeout_ms(), 60_000);
    assert_eq!(c.max_retries(), 2);

    let env = EnvDefaults {
        api_key: Some("env-key".to_string()),
        base_url: Some("http://localhost:8080".to_string()),
    };
    let c = Client::from_env(env).unwrap();
    assert_eq!(c.api_key(), "env-key");
    assert_eq!(c.base_url(), "http://localhost:8080");

    let env = EnvDefaults {
        api_key: Some("env-key".to_string()),
        base_url: Some("http://localhost:8080".to_string()),
    };
    let c = Client::builder()
        .api_key("explicit".to_string())
        .base_url("http://example.test".to_string())
        .build_with_env(env)
        .unwrap();
    assert_eq!(c.api_key(), "explicit");
    assert_eq!(c.base_url(), "http://example.test");
}

#[test]
fn request_url_and_authorization() {
    let c = Client::builder()
        .api_key("secret".to_string())
        .base_url("http://localhost/v1".to_string())
        .max_retries(4)
        .build()
        .unwrap();
    assert_eq!(c.endpoint_url("/models/rerank"), "http://localhost/v1/models/rerank");
    assert_eq!(c.authorization(), "Bearer secret");
    assert_eq!(c.max_retries(), 4);
    assert_eq!(c.next_action(3, 503), RetryAction::Retry { attempt: 4, delay_ms: 4000 });
    assert_eq!(c.next_action(4, 503), RetryAction::Finish);
}

#[test]
fn carried_error_descriptions() {
    let json = serde_json::from_str::<u8>("x").unwrap_err();
    let expected = format!("JSON error: {}", json);
    assert_eq!(ClientError::Json(json).to_string(), expected);

    let io = std::io::Error::new(std::io::ErrorKind::NotFound, "no such file");
    assert_eq!(ClientError::Io(io).to_string(), "IO error: no such file");

    let b64 = base64::DecodeError::InvalidPadding;
    let expected = format!("Base64 error: {}", b64);
    assert_eq!(ClientError::Base64(b64).to_string(), expected);
}
