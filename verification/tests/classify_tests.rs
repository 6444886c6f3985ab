//! Response classification: success, partial failure, API errors,
//! transport failures, and malformed bodies.

use langfuse_tracker::HttpReply;
use langfuse_tracker::LangFuseTrackerError;
use langfuse_tracker::classify_response;

fn response(status: u16, body: &str) -> HttpReply {
    HttpReply::Response { status, body: body.as_bytes().to_vec() }
}

#[test]
fn ok_on_200_with_empty_errors() {
    let r = classify_response(response(200, "{\"errors\": []}"));
    assert!(r.is_ok());
}

#[test]
fn ok_on_200_without_errors_key() {
    let r = classify_response(response(200, "{\"successes\": [1, 2, 3]}"));
    assert!(r.is_ok());
}

#[test]
fn ok_on_200_with_non_object_body() {
    let r = classify_response(response(200, "[1, 2, 3]"));
    assert!(r.is_ok());
}

#[test]
fn partial_batch_error_on_200_with_errors() {
    let r = classify_response(response(200, "{\"errors\": [{\"id\": \"x\", \"status\": 400}]}"));
    match r {
        Err(LangFuseTrackerError::PartialBatchError { errors }) => {
            assert_eq!(errors.len(), 1);
            assert_eq!(errors[0].id.as_deref(), Some(b"x".as_slice()));
            assert_eq!(errors[0].status, Some(400));
            assert!(errors[0].message.is_none());
        },
        _ => panic!("expected a partial batch error"),
    }
}

#[test]
fn partial_batch_error_on_207() {
    let r = classify_response(response(
        207,
        "{\"errors\": [{\"id\": \"a\", \"status\": 500, \"message\": \"boom\"}]}",
    ));
    match r {
        Err(LangFuseTrackerError::PartialBatchError { errors }) => {
            assert_eq!(errors.len(), 1);
            assert_eq!(errors[0].id.as_deref(), Some(b"a".as_slice()));
            assert_eq!(errors[0].status, Some(500));
            assert_eq!(errors[0].message.as_deref(), Some(b"boom".as_slice()));
        },
        _ => panic!("expected a partial batch error"),
    }
}

#[test]
fn ok_on_207_with_empty_errors() {
    let r = classify_response(response(207, "{\"errors\": []}"));
    assert!(r.is_ok());
}

#[test]
fn partial_failure_entries_survive_odd_shapes() {
    let body = "{\"successes\": [1, {\"deep\": [true, null]}], \
                \"errors\": [{\"id\": \"a\", \"extra\": {\"k\": [1.5e3, \"v\"]}}, \"weird\", 7]}";
    let r = classify_response(response(200, body));
    match r {
        Err(LangFuseTrackerError::PartialBatchError { errors }) => {
            assert_eq!(errors.len(), 3);
            assert_eq!(errors[0].id.as_deref(), Some(b"a".as_slice()));
            assert!(errors[0].status.is_none());
            assert!(errors[1].id.is_none());
            assert!(errors[2].id.is_none());
        },
        _ => panic!("expected a partial batch error"),
    }
}

#[test]
fn api_error_on_401() {
    let r = classify_response(response(401, "unauthorized"));
    match r {
        Err(LangFuseTrackerError::ApiError { status_code, message }) => {
            assert_eq!(status_code, 401);
            assert_eq!(message, b"unauthorized".to_vec());
        },
        _ => panic!("expected an api error"),
    }
}

#[test]
fn api_error_on_500_and_300() {
    assert!(matches!(
        classify_response(response(500, "oops")),
        Err(LangFuseTrackerError::ApiError { status_code: 500, .. })
    ));
    assert!(matches!(
        classify_response(response(300, "")),
        Err(LangFuseTrackerError::ApiError { status_code: 300, .. })
    ));
}

#[test]
fn transport_error_without_parsing() {
    let r = classify_response(HttpReply::Transport("connection refused".to_string()));
    match r {
        Err(LangFuseTrackerError::TransportError(m)) => {
            assert_eq!(m, "connection refused");
        },
        _ => panic!("expected a transport error"),
    }
}

#[test]
fn serialization_error_on_malformed_body() {
    assert!(matches!(
        classify_response(response(200, "not json")),
        Err(LangFuseTrackerError::SerializationError)
    ));
    assert!(matches!(
        classify_response(response(200, "{\"errors\": [}")),
        Err(LangFuseTrackerError::SerializationError)
    ));
    assert!(matches!(
        classify_response(response(200, "{\"a\": 1} trailing")),
        Err(LangFuseTrackerError::SerializationError)
    ));
    assert!(matches!(
        classify_response(response(200, "")),
        Err(LangFuseTrackerError::SerializationError)
    ));
}

#[test]
fn error_body_is_not_parsed_for_api_errors() {
    // A 4xx body need not be JSON; it is carried as text.
    let r = classify_response(response(400, "<html>bad</html>"));
    assert!(matches!(r, Err(LangFuseTrackerError::ApiError { status_code: 400, .. })));
}

#[test]
fn status_capture_limits() {
    // A fractional or huge status is left uncaptured; the entry still counts.
    let body = "{\"errors\": [{\"status\": 4.5}, {\"status\": 12345678901}]}";
    match classify_response(response(200, body)) {
        Err(LangFuseTrackerError::PartialBatchError { errors }) => {
            assert_eq!(errors.len(), 2);
            assert!(errors[0].status.is_none());
            assert!(errors[1].status.is_none());
        },
        _ => panic!("expected a partial batch error"),
    }
}

#[test]
fn string_escapes_are_carried_verbatim() {
    let body = "{\"errors\": [{\"id\": \"a\\\"b\"}]}";
    match classify_response(response(200, body)) {
        Err(LangFuseTrackerError::PartialBatchError { errors }) => {
            assert_eq!(errors[0].id.as_deref(), Some(b"a\\\"b".as_slice()));
        },
        _ => panic!("expected a partial batch error"),
    }
}

#[test]
fn later_errors_member_wins() {
    let body = "{\"errors\": [{\"id\": \"a\"}], \"errors\": []}";
    assert!(classify_response(response(200, body)).is_ok());
}

#[test]
fn unknown_error_constructor() {
    let e = LangFuseTrackerError::unknown("something odd".to_string());
    assert!(matches!(e, LangFuseTrackerError::Unknown(m) if m == "something odd"));
}

#[test]
fn invalid_escapes_and_raw_controls_are_malformed() {
    // An unknown escape, a short unicode escape, and a raw control byte.
    assert!(matches!(
        classify_response(response(200, "{\"errors\": [\"a\\qb\"]}")),
        Err(LangFuseTrackerError::SerializationError)
    ));
    assert!(matches!(
        classify_response(response(200, "\"\\u12\"")),
        Err(LangFuseTrackerError::SerializationError)
    ));
    assert!(matches!(
        classify_response(response(200, "\"a\nb\"")),
        Err(LangFuseTrackerError::SerializationError)
    ));
    // Valid escapes pass.
    assert!(classify_response(response(200, "\"a\\n\\t\\\\\\\"\\u0041b\"")).is_ok());
}

#[test]
fn parser_agrees_with_a_reference_parser() {
    // The classifier treats a 2xx body as malformed exactly when it is
    // not well-formed JSON; serde_json is the reference. Inputs avoid
    // the few places the two differ by design: numbers beyond f64
    // range and unpaired surrogate escapes.
    let cases = [
        "{}",
        "[]",
        "  {  } ",
        "null",
        "true",
        "false",
        "0",
        "-0",
        "3.25",
        "1e5",
        "-2.5E-3",
        "\"hello\"",
        "\"\\u00e9\\n\"",
        "[1, [2, [3, {\"a\": []}]]]",
        "{\"a\": {\"b\": {\"c\": [true, null, \"x\"]}}}",
        "{\"dup\": 1, \"dup\": 2}",
        "",
        "   ",
        "{",
        "}",
        "[1,]",
        "{\"a\":}",
        "{\"a\" 1}",
        "{a: 1}",
        "[1 2]",
        "01",
        "1.",
        ".5",
        "+1",
        "truex",
        "nul",
        "\"unterminated",
        "{} []",
        "{\"a\": 1,}",
        "[1,]",
        "[,1]",
        "[\"\\q\"]",
        "\t\n {\"a\"\t:\n 1}",
        "\"\\u00E9\"",
        "\"\\/\"",
        "0.1e+1",
        "123e",
        "-",
        "{\"\": 0}",
        "[[],[[]],{}]",
        "{\"errors\": [{},{}]}",
    ];
    for s in cases {
        let mine = classify_response(response(200, s)).is_ok()
            || !matches!(
                classify_response(response(200, s)),
                Err(LangFuseTrackerError::SerializationError)
            );
        let reference = serde_json::from_str::<serde_json::Value>(s).is_ok();
        assert_eq!(mine, reference, "disagreement on input: {s:?}");
    }
}

#[test]
fn status_capture_boundary() {
    let body = "{\"errors\": [{\"status\": 999999999}, {\"status\": 1000000000}, {\"status\": 0}]}";
    match classify_response(response(200, body)) {
        Err(LangFuseTrackerError::PartialBatchError { errors }) => {
            assert_eq!(errors[0].status, Some(999999999));
            assert!(errors[1].status.is_none());
            assert_eq!(errors[2].status, Some(0));
        },
        _ => panic!("expected a partial batch error"),
    }
}

#[test]
fn deeply_nested_bodies_parse() {
    let mut body = String::new();
    for _ in 0..60 {
        body.push('[');
    }
    body.push_str("null");
    for _ in 0..60 {
        body.push(']');
    }
    assert!(classify_response(response(200, &body)).is_ok());
}

#[test]
fn error_field_of_an_entry_is_captured() {
    let body = "{\"errors\": [{\"id\": \"x\", \"status\": 400, \"error\": \"invalid body\"}, {\"error\": 7}]}";
    match classify_response(response(200, body)) {
        Err(LangFuseTrackerError::PartialBatchError { errors }) => {
            assert_eq!(errors.len(), 2);
            assert_eq!(errors[0].error.as_deref(), Some(b"invalid body".as_slice()));
            assert_eq!(errors[0].message, None);
            assert!(errors[1].error.is_none());
        },
        _ => panic!("expected a partial batch error"),
    }
}
