//! Request building: URLs, auth headers, trace creation, spans, and
//! the single-call interaction payload.

use langfuse_tracker::EventBody;
use langfuse_tracker::InteractionMetadata;
use langfuse_tracker::LangFuseConfig;
use langfuse_tracker::LangfuseEvent;
use langfuse_tracker::TraceBody;
use langfuse_tracker::ingestion_request;
use langfuse_tracker::ObservationLevel;
use langfuse_tracker::RawJson;
use langfuse_tracker::TokenUsage;
use langfuse_tracker::client::auth_header;
use langfuse_tracker::client::create_trace_request;
use langfuse_tracker::client::ingestion_url;
use langfuse_tracker::client::track_span_request;
use langfuse_tracker::interaction_request;

const EPOCH_TEXT: &str = "1970-01-01T00:00:00+00:00";

fn config() -> LangFuseConfig {
    LangFuseConfig::new("your-test-public-key", "your-test-secret-key", "https://cloud.langfuse.com")
}

fn parse(bytes: &[u8]) -> serde_json::Value {
    serde_json::from_slice(bytes).expect("request bodies must be well-formed JSON")
}

fn is_uuid_v4(s: &str) -> bool {
    let b: Vec<char> = s.chars().collect();
    b.len() == 36 && b[8] == '-' && b[13] == '-' && b[18] == '-' && b[23] == '-' && b[14] == '4'
        && matches!(b[19], '8' | '9' | 'a' | 'b')
        && b.iter().enumerate().all(|(i, c)| {
            matches!(i, 8 | 13 | 18 | 23) || c.is_ascii_hexdigit() && !c.is_ascii_uppercase()
        })
}

#[test]
fn config_new_copies_the_triple() {
    let c = config();
    assert_eq!(c.public_key, "your-test-public-key");
    assert_eq!(c.secret_key, "your-test-secret-key");
    assert_eq!(c.base_url, "https://cloud.langfuse.com");
}

#[test]
fn ingestion_url_appends_the_endpoint() {
    let c = config();
    assert_eq!(ingestion_url(&c), b"https://cloud.langfuse.com/api/public/ingestion".to_vec());
}

#[test]
fn ingestion_url_trims_trailing_slashes() {
    let c = LangFuseConfig::new("p", "s", "https://example.com///");
    assert_eq!(ingestion_url(&c), b"https://example.com/api/public/ingestion".to_vec());
}

#[test]
fn auth_header_encodes_the_credentials() {
    let c = LangFuseConfig::new("user", "pass", "https://x");
    assert_eq!(auth_header(&c), b"Basic dXNlcjpwYXNz".to_vec());
}

#[test]
fn create_trace_returns_a_uuid_v4() {
    let c = config();
    let h = create_trace_request(&c, "my-trace", None, 0).unwrap();
    assert!(is_uuid_v4(&h.trace_id), "not a v4 uuid: {}", h.trace_id);
}

#[test]
fn create_trace_ids_are_distinct() {
    let c = config();
    let a = create_trace_request(&c, "t", None, 0).unwrap();
    let b = create_trace_request(&c, "t", None, 0).unwrap();
    assert_ne!(a.trace_id, b.trace_id);
}

#[test]
fn create_trace_builds_a_single_item_batch() {
    let c = config();
    let h = create_trace_request(&c, "my-trace", RawJson::new(b"{\"k\": 1}".to_vec()), 0).unwrap();
    let v = parse(&h.request.body);
    let batch = v["batch"].as_array().unwrap();
    assert_eq!(batch.len(), 1);
    let ev = &batch[0];
    assert_eq!(ev["type"], "trace-create");
    assert_eq!(ev["timestamp"], EPOCH_TEXT);
    assert_eq!(ev["body"]["id"].as_str().unwrap(), h.trace_id);
    assert_eq!(ev["body"]["name"], "my-trace");
    assert_eq!(ev["body"]["timestamp"], EPOCH_TEXT);
    assert_eq!(ev["body"]["metadata"]["k"], 1);
    assert!(ev["body"].get("userId").is_none());
}

#[test]
fn track_span_keeps_the_given_times() {
    let c = config();
    let p = track_span_request(
        &c,
        "work",
        Some("trace-7"),
        "2024-01-01T10:00:00+00:00",
        "2024-01-01T10:00:00+00:00",
        ObservationLevel::Error,
        None,
        Some("question"),
        Some("answer"),
        Some("parent-1"),
        Some("v2"),
        0,
    )
    .unwrap();
    let v = parse(&p.request.body);
    let ev = &v["batch"][0];
    assert_eq!(ev["type"], "span-create");
    let b = &ev["body"];
    assert_eq!(b["name"], "work");
    assert_eq!(b["traceId"], "trace-7");
    assert_eq!(b["startTime"], b["endTime"]);
    assert_eq!(b["level"], "ERROR");
    assert_eq!(b["input"], "question");
    assert_eq!(b["output"], "answer");
    assert_eq!(b["parentObservationId"], "parent-1");
    assert_eq!(b["version"], "v2");
}

#[test]
fn track_span_without_trace_id_is_still_built() {
    let c = config();
    let p = track_span_request(
        &c,
        "loose",
        None,
        "t0",
        "t1",
        ObservationLevel::Default,
        None,
        None,
        None,
        None,
        None,
        0,
    )
    .unwrap();
    let v = parse(&p.request.body);
    let b = &v["batch"][0]["body"];
    assert!(b.get("traceId").is_none());
    assert_eq!(b["startTime"], "t0");
    assert_eq!(b["endTime"], "t1");
}

#[test]
fn metadata_status_follows_the_error_flag() {
    let m_err = InteractionMetadata::new(5, true, None, None, None, "ts".to_string());
    assert_eq!(m_err.status, "error");
    assert_eq!(m_err.model, "unknown");
    let m_ok = InteractionMetadata::new(5, false, Some("m"), None, Some("raw"), "ts".to_string());
    assert_eq!(m_ok.status, "success");
    assert_eq!(m_ok.model, "m");
    assert_eq!(m_ok.raw_response.as_deref(), Some("raw"));
}

#[test]
fn interaction_error_flag_sets_metadata_status() {
    let c = config();
    let tu = TokenUsage { input_tokens: 100, output_tokens: 400, total_tokens: 500 };
    let req = interaction_request(
        &c,
        "test-request",
        Some("test-user"),
        Some("test-session"),
        "user query",
        "ai response",
        None,
        50,
        true,
        Some("test-model"),
        Some(tu),
        Some("trace-name"),
        0,
    )
    .unwrap();
    let v = parse(&req.body);
    let body = &v["batch"][0]["body"];
    assert_eq!(body["metadata"]["status"], "error");

    let req2 = interaction_request(
        &c,
        "test-request",
        Some("test-user"),
        Some("test-session"),
        "user query",
        "ai response",
        None,
        50,
        false,
        Some("test-model"),
        None,
        Some("trace-name"),
        0,
    )
    .unwrap();
    let v2 = parse(&req2.body);
    assert_eq!(v2["batch"][0]["body"]["metadata"]["status"], "success");
}

#[test]
fn interaction_payload_has_the_fixed_shape() {
    let c = config();
    let tu = TokenUsage { input_tokens: 200, output_tokens: 800, total_tokens: 1000 };
    let req = interaction_request(
        &c,
        "req-9",
        Some("u-1"),
        None,
        "in",
        "out",
        Some("raw text"),
        1000,
        false,
        Some("model-z"),
        Some(tu),
        None,
        1000,
    )
    .unwrap();
    assert_eq!(req.url, b"https://cloud.langfuse.com/api/public/ingestion".to_vec());
    let v = parse(&req.body);
    let ev = &v["batch"][0];
    assert_eq!(ev["id"], "req-9-event");
    assert_eq!(ev["type"], "trace-create");
    let b = &ev["body"];
    assert_eq!(b["id"], "req-9");
    assert_eq!(b["name"], "your_app_user_interaction");
    assert_eq!(b["userId"], "u-1");
    assert!(b.get("sessionId").is_none());
    assert_eq!(b["input"], "in");
    assert_eq!(b["output"], "out");
    let m = &b["metadata"];
    assert_eq!(m["processing_time_ms"], 1000);
    assert_eq!(m["model"], "model-z");
    assert_eq!(m["token_usage"]["total_tokens"], 1000);
    assert_eq!(m["raw_response"], "raw text");
    assert_eq!(m["timestamp_utc"], "1970-01-01T00:00:01+00:00");
    let g = &b["observations"][0];
    assert_eq!(g["type"], "generation");
    assert_eq!(g["id"], "req-9-generation");
    assert_eq!(g["startTime"], EPOCH_TEXT);
    assert_eq!(g["endTime"], "1970-01-01T00:00:01+00:00");
    assert_eq!(g["model"], "model-z");
    assert_eq!(g["metadata"]["request_id"], "req-9");
    assert_eq!(g["metadata"]["latency_ms"], 1000);
    assert!(g["metadata"]["raw_response"].is_string());
}

#[test]
fn interaction_absent_options_are_omitted() {
    let c = config();
    let req = interaction_request(
        &c, "r", None, None, "i", "o", None, 0, false, None, None, None, 0,
    )
    .unwrap();
    let v = parse(&req.body);
    let b = &v["batch"][0]["body"];
    let m = b["metadata"].as_object().unwrap();
    assert!(!m.contains_key("token_usage"));
    assert!(!m.contains_key("raw_response"));
    assert_eq!(m.get("model").and_then(|x| x.as_str()), Some("unknown"));
    assert!(b.get("userId").is_none());
    assert!(b.get("sessionId").is_none());
    let g = b["observations"][0]["metadata"].as_object().unwrap();
    assert!(!g.contains_key("token_usage"));
    assert!(!g.contains_key("raw_response"));
}

#[test]
fn far_out_of_range_clock_is_rejected() {
    let c = config();
    let r = create_trace_request(&c, "t", None, i64::MIN);
    assert!(matches!(r, Err(langfuse_tracker::LangFuseTrackerError::InvalidTimestampFormat)));
}

#[test]
fn batch_request_carries_url_auth_and_events() {
    let c = LangFuseConfig::new("user", "pass", "https://example.com/");
    let mut t = TraceBody::empty();
    t.name = Some("first".to_string());
    let e1 = LangfuseEvent::new("a".to_string(), "t1".to_string(), None, EventBody::Trace(t));
    let e2 = LangfuseEvent::new(
        "b".to_string(),
        "t2".to_string(),
        None,
        EventBody::Trace(TraceBody::empty()),
    );
    let req = ingestion_request(&c, &vec![e1, e2]);
    assert_eq!(req.url, b"https://example.com/api/public/ingestion".to_vec());
    assert_eq!(req.auth_header, b"Basic dXNlcjpwYXNz".to_vec());
    let v = parse(&req.body);
    assert_eq!(v["batch"][0]["body"]["name"], "first");
    assert_eq!(v["batch"][1]["id"], "b");
}
