use logtura_cf_tail::api::{
    tail_session_from_response, tails_endpoint, trim_end_slashes, ApiError, CfEnvelope,
    CfError, TailResult,
};
use logtura_cf_tail::clock::Timestamp;

fn envelope(success: bool, errors: Option<Vec<&str>>) -> CfEnvelope {
    CfEnvelope {
        success,
        errors: errors.map(|v| {
            v.into_iter().map(|m| CfError { message: m.to_string() }).collect()
        }),
        result: TailResult {
            id: "tail-id".to_string(),
            expires_at: Timestamp { secs: 1_778_601_600, nanos: 0 },
            url: "wss://example.com/tail".to_string(),
        },
    }
}

#[test]
fn creates_tail_session() {
    let url = tails_endpoint("http://127.0.0.1:1234", "acct", "my-worker");
    assert_eq!(url, "http://127.0.0.1:1234/accounts/acct/workers/scripts/my-worker/tails");

    let session = tail_session_from_response(
        "my-worker",
        200,
        "200 OK",
        "{}",
        Ok(envelope(true, None)),
    )
    .unwrap();

    assert_eq!(session.id, "tail-id");
    assert_eq!(session.url, "wss://example.com/tail");
    assert_eq!(session.expires_at.secs, 1_778_601_600);
}

#[test]
fn endpoint_trims_slashes_and_encodes_ids() {
    let url = tails_endpoint("https://api.cloudflare.com/client/v4//", "acct 1", "my/worker?é");
    assert_eq!(
        url,
        "https://api.cloudflare.com/client/v4/accounts/acct%201/workers/scripts/my%2Fworker%3F%C3%A9/tails"
    );
}

#[test]
fn endpoint_keeps_unreserved_characters() {
    let url = tails_endpoint("b", "A-z_0.9~", "w");
    assert_eq!(url, "b/accounts/A-z_0.9~/workers/scripts/w/tails");
}

#[test]
fn trim_end_slashes_removes_only_trailing_slashes() {
    assert_eq!(trim_end_slashes("/a/b///"), "/a/b");
    assert_eq!(trim_end_slashes("///"), "");
    assert_eq!(trim_end_slashes("a"), "a");
}

#[test]
fn error_status_reports_joined_messages() {
    let err = tail_session_from_response(
        "w",
        404,
        "404 Not Found",
        "{}",
        Ok(envelope(true, Some(vec!["first", "second"]))),
    )
    .unwrap_err();
    assert_eq!(err.message(), "Cloudflare tail create failed for w: HTTP 404 Not Found: first; second");
}

#[test]
fn unsuccessful_envelope_without_errors_is_refused() {
    let err = tail_session_from_response("w", 200, "200 OK", "{}", Ok(envelope(false, None)))
        .unwrap_err();
    assert!(matches!(err, ApiError::CreateFailed { .. }));
    assert_eq!(err.message(), "Cloudflare tail create failed for w: HTTP 200 OK");
}

#[test]
fn success_status_bounds() {
    assert!(tail_session_from_response("w", 299, "299", "", Ok(envelope(true, None))).is_ok());
    assert!(tail_session_from_response("w", 300, "300", "", Ok(envelope(true, None))).is_err());
    assert!(tail_session_from_response("w", 199, "199", "", Ok(envelope(true, None))).is_err());
}

#[test]
fn unparsed_body_is_reported_with_the_body() {
    let err = tail_session_from_response(
        "w",
        500,
        "500 Internal Server Error",
        "oops",
        Err("expected value".to_string()),
    )
    .unwrap_err();
    match &err {
        ApiError::UnreadableResponse { detail, .. } => assert_eq!(detail, "expected value"),
        other => panic!("unexpected {:?}", other),
    }
    assert_eq!(err.message(), "parsing Cloudflare tail response for w: oops");
}
