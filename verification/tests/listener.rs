use ynab_cli::auth::listener::{
    callback_params, callback_response, extract_code, FAILURE_BODY, SUCCESS_BODY,
};
use ynab_cli::error::Error;

fn code_of(request_line: &str) -> Result<String, Error> {
    let params = callback_params(request_line)?;
    extract_code(&params, "expected-state")
}

#[test]
fn callback_with_matching_state_yields_code() {
    let code = code_of("GET /callback?code=abc123&state=expected-state HTTP/1.1\r\n").unwrap();
    assert_eq!(code, "abc123");
}

#[test]
fn callback_values_are_url_decoded() {
    let params = callback_params("GET /callback?code=a%2Fb+c&state=s%20t HTTP/1.1").unwrap();
    assert_eq!(
        params,
        vec![
            ("code".to_string(), "a/b c".to_string()),
            ("state".to_string(), "s t".to_string())
        ]
    );
}

#[test]
fn callback_state_mismatch_is_refused() {
    let err = code_of("GET /callback?code=abc123&state=wrong-state HTTP/1.1").unwrap_err();
    assert!(matches!(err, Error::Config(ref msg) if msg == "OAuth state mismatch — try again"));
}

#[test]
fn callback_denial_is_refused() {
    let err = code_of("GET /callback?error=access_denied&state=expected-state HTTP/1.1").unwrap_err();
    assert!(matches!(err, Error::Config(ref msg) if msg == "authorization was denied"));
}

#[test]
fn callback_missing_parts_are_refused() {
    let err = code_of("GET /callback?state=expected-state HTTP/1.1").unwrap_err();
    assert!(matches!(err, Error::Config(ref msg) if msg == "OAuth callback missing code"));
    let err = code_of("GET /callback?code=x HTTP/1.1").unwrap_err();
    assert!(matches!(err, Error::Config(ref msg) if msg == "OAuth callback missing state"));
    let err = code_of("GET /callback HTTP/1.1").unwrap_err();
    assert!(matches!(err, Error::Config(ref msg) if msg == "OAuth callback missing code"));
}

#[test]
fn later_parameter_overrides_earlier() {
    let code = code_of("GET /cb?code=one&code=two&state=bad&state=expected-state HTTP/1.1").unwrap();
    assert_eq!(code, "two");
}

#[test]
fn request_line_without_target_is_malformed() {
    for line in ["GET", "", "   ", "GET    "] {
        let err = callback_params(line).unwrap_err();
        assert!(matches!(err, Error::Config(ref msg) if msg == "malformed OAuth callback request"));
    }
}

#[test]
fn response_counts_body_bytes() {
    let r = callback_response(SUCCESS_BODY);
    assert!(r.starts_with("HTTP/1.1 200 OK\r\n"));
    assert!(r.contains(&format!("Content-Length: {}\r\n", SUCCESS_BODY.len())));
    assert!(r.ends_with("\r\n\r\nAuthorized — you can close this tab."));
    assert_eq!(
        callback_response("hi"),
        "HTTP/1.1 200 OK\r\nContent-Type: text/html; charset=utf-8\r\nContent-Length: 2\r\nConnection: close\r\n\r\nhi"
    );
    assert!(callback_response(FAILURE_BODY).contains("Authorization failed"));
}
