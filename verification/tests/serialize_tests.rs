//! The JSON wire format: field omission, escaping, the body variants,
//! and the validated number and raw-JSON carriers.

use langfuse_tracker::EventBody;
use langfuse_tracker::JsonNum;
use langfuse_tracker::LangfuseEvent;
use langfuse_tracker::ObservationBody;
use langfuse_tracker::ObservationLevel;
use langfuse_tracker::ParamScalar;
use langfuse_tracker::ParamValue;
use langfuse_tracker::RawJson;
use langfuse_tracker::ScoreBody;
use langfuse_tracker::ScoreDataType;
use langfuse_tracker::ScoreValue;
use langfuse_tracker::TraceBody;
use langfuse_tracker::Usage;
use langfuse_tracker::UsageUnit;
use langfuse_tracker::serialize::batch_json;
use langfuse_tracker::serialize::event_json;
use langfuse_tracker::serialize::trace_json;

fn parse(bytes: &[u8]) -> serde_json::Value {
    serde_json::from_slice(bytes).expect("serializer must emit well-formed JSON")
}

#[test]
fn empty_trace_serializes_to_empty_object() {
    let t = TraceBody::empty();
    assert_eq!(trace_json(&t), b"{}".to_vec());
}

#[test]
fn unset_fields_are_omitted_not_null() {
    let mut t = TraceBody::empty();
    t.name = Some("only-name".to_string());
    let v = parse(&trace_json(&t));
    let obj = v.as_object().unwrap();
    assert_eq!(obj.len(), 1);
    assert_eq!(obj.get("name").and_then(|x| x.as_str()), Some("only-name"));
    assert!(!obj.contains_key("userId"));
    assert!(!obj.contains_key("metadata"));
}

#[test]
fn trace_fields_reach_the_wire() {
    let t = TraceBody {
        id: Some("t-1".to_string()),
        timestamp: Some("2024-01-01T00:00:00+00:00".to_string()),
        name: Some("n".to_string()),
        user_id: Some("u".to_string()),
        session_id: Some("s".to_string()),
        input: Some("in".to_string()),
        output: Some("out".to_string()),
        metadata: RawJson::new(b"{\"k\": [1, 2]}".to_vec()),
        tags: Some(vec!["a".to_string(), "b".to_string()]),
        release: Some("r1".to_string()),
        version: Some("v1".to_string()),
        public: Some(true),
    };
    let v = parse(&trace_json(&t));
    assert_eq!(v["id"], "t-1");
    assert_eq!(v["userId"], "u");
    assert_eq!(v["sessionId"], "s");
    assert_eq!(v["metadata"]["k"][1], 2);
    assert_eq!(v["tags"][0], "a");
    assert_eq!(v["tags"][1], "b");
    assert_eq!(v["public"], true);
}

#[test]
fn string_escaping_round_trips() {
    let mut t = TraceBody::empty();
    t.name = Some("a \"quoted\" name\nwith\\slashes\tand\u{1}ctl".to_string());
    let v = parse(&trace_json(&t));
    assert_eq!(
        v["name"].as_str().unwrap(),
        "a \"quoted\" name\nwith\\slashes\tand\u{1}ctl"
    );
}

#[test]
fn non_ascii_text_round_trips() {
    let mut t = TraceBody::empty();
    t.name = Some("héllo 世界 ✓".to_string());
    let v = parse(&trace_json(&t));
    assert_eq!(v["name"].as_str().unwrap(), "héllo 世界 ✓");
}

#[test]
fn span_with_equal_start_and_end_serializes() {
    let mut o = ObservationBody::at("2024-05-01T10:00:00+00:00".to_string());
    o.end_time = Some("2024-05-01T10:00:00+00:00".to_string());
    o.name = Some("same-times".to_string());
    let e = LangfuseEvent::new(
        "ev-1".to_string(),
        "2024-05-01T10:00:00+00:00".to_string(),
        None,
        EventBody::Span(o),
    );
    let v = parse(&event_json(&e));
    assert_eq!(v["type"], "span-create");
    assert_eq!(v["body"]["startTime"], v["body"]["endTime"]);
    assert_eq!(v["body"]["level"], "DEFAULT");
}

#[test]
fn envelope_tag_follows_body_variant() {
    let t = LangfuseEvent::new(
        "e1".to_string(),
        "ts".to_string(),
        None,
        EventBody::Trace(TraceBody::empty()),
    );
    assert_eq!(parse(&event_json(&t))["type"], "trace-create");
    let g = LangfuseEvent::new(
        "e2".to_string(),
        "ts".to_string(),
        None,
        EventBody::Generation(ObservationBody::at("t0".to_string())),
    );
    assert_eq!(parse(&event_json(&g))["type"], "generation-create");
}

#[test]
fn envelope_metadata_is_embedded_raw() {
    let e = LangfuseEvent::new(
        "e1".to_string(),
        "ts".to_string(),
        RawJson::new(b"{\"source\": \"unit\"}".to_vec()),
        EventBody::Trace(TraceBody::empty()),
    );
    let v = parse(&event_json(&e));
    assert_eq!(v["metadata"]["source"], "unit");
}

#[test]
fn observation_details_serialize() {
    let mut o = ObservationBody::at("t0".to_string());
    o.level = ObservationLevel::Warning;
    o.model = Some("model-x".to_string());
    o.model_parameters = Some(vec![
        ("temperature".to_string(), ParamValue::One(ParamScalar::Num(JsonNum::new("0.7").unwrap()))),
        ("max_tokens".to_string(), ParamValue::One(ParamScalar::Int(-5))),
        ("stream".to_string(), ParamValue::One(ParamScalar::Flag(true))),
        (
            "stop".to_string(),
            ParamValue::Many(vec![ParamScalar::Text("a".to_string()), ParamScalar::Text("b".to_string())]),
        ),
    ]);
    o.usage = Some(Usage {
        input: Some(10),
        output: Some(20),
        total: Some(30),
        unit: UsageUnit::Tokens,
        input_cost: Some(JsonNum::new("0.001").unwrap()),
        output_cost: None,
        total_cost: None,
    });
    o.usage_details = Some(vec![("prompt_tokens".to_string(), 10), ("completion_tokens".to_string(), 20)]);
    o.cost_details = Some(vec![("total".to_string(), JsonNum::new("1.5e-3").unwrap())]);
    let e = LangfuseEvent::new("e".to_string(), "ts".to_string(), None, EventBody::Observation(o));
    let v = parse(&event_json(&e));
    let b = &v["body"];
    assert_eq!(b["level"], "WARNING");
    assert_eq!(b["modelParameters"]["temperature"], 0.7);
    assert_eq!(b["modelParameters"]["max_tokens"], -5);
    assert_eq!(b["modelParameters"]["stream"], true);
    assert_eq!(b["modelParameters"]["stop"][1], "b");
    assert_eq!(b["usage"]["input"], 10);
    assert_eq!(b["usage"]["unit"], "TOKENS");
    assert_eq!(b["usage"]["inputCost"], 0.001);
    assert!(b["usage"].get("outputCost").is_none());
    assert_eq!(b["usageDetails"]["prompt_tokens"], 10);
    assert_eq!(b["costDetails"]["total"], 0.0015);
}

#[test]
fn score_serializes_both_value_kinds() {
    let s1 = ScoreBody {
        trace_id: "t".to_string(),
        name: "accuracy".to_string(),
        value: ScoreValue::Numeric(JsonNum::new("0.93").unwrap()),
        data_type: ScoreDataType::Numeric,
        observation_id: None,
        comment: Some("good".to_string()),
        config_id: None,
    };
    let e1 = LangfuseEvent::new("e".to_string(), "ts".to_string(), None, EventBody::Score(s1));
    let v1 = parse(&event_json(&e1));
    assert_eq!(v1["type"], "score-create");
    assert_eq!(v1["body"]["value"], 0.93);
    assert_eq!(v1["body"]["dataType"], "NUMERIC");
    assert_eq!(v1["body"]["comment"], "good");

    let s2 = ScoreBody {
        trace_id: "t".to_string(),
        name: "label".to_string(),
        value: ScoreValue::Text("excellent".to_string()),
        data_type: ScoreDataType::Categorical,
        observation_id: Some("o1".to_string()),
        comment: None,
        config_id: None,
    };
    let e2 = LangfuseEvent::new("e".to_string(), "ts".to_string(), None, EventBody::Score(s2));
    let v2 = parse(&event_json(&e2));
    assert_eq!(v2["body"]["value"], "excellent");
    assert_eq!(v2["body"]["observationId"], "o1");
}

#[test]
fn sdk_log_carries_raw_payload() {
    let raw = RawJson::new(b"{\"log\": \"hello\"}".to_vec()).unwrap();
    let e = LangfuseEvent::new("e".to_string(), "ts".to_string(), None, EventBody::SdkLog(raw));
    let v = parse(&event_json(&e));
    assert_eq!(v["type"], "sdk-log");
    assert_eq!(v["body"]["log"], "hello");
}

#[test]
fn batch_wraps_events_in_order() {
    let e1 = LangfuseEvent::new("a".to_string(), "t1".to_string(), None, EventBody::Trace(TraceBody::empty()));
    let e2 = LangfuseEvent::new("b".to_string(), "t2".to_string(), None, EventBody::Trace(TraceBody::empty()));
    let v = parse(&batch_json(&vec![e1, e2]));
    let batch = v["batch"].as_array().unwrap();
    assert_eq!(batch.len(), 2);
    assert_eq!(batch[0]["id"], "a");
    assert_eq!(batch[1]["id"], "b");
}

#[test]
fn empty_batch_serializes() {
    let v = parse(&batch_json(&Vec::new()));
    assert_eq!(v["batch"].as_array().unwrap().len(), 0);
}

#[test]
fn json_num_accepts_only_number_literals() {
    assert!(JsonNum::new("0").is_some());
    assert!(JsonNum::new("-0.5").is_some());
    assert!(JsonNum::new("3.14").is_some());
    assert!(JsonNum::new("1e5").is_some());
    assert!(JsonNum::new("2.5E+10").is_some());
    assert!(JsonNum::new("").is_none());
    assert!(JsonNum::new("abc").is_none());
    assert!(JsonNum::new("01").is_none());
    assert!(JsonNum::new("1.").is_none());
    assert!(JsonNum::new(".5").is_none());
    assert!(JsonNum::new("1e").is_none());
    assert!(JsonNum::new("+1").is_none());
    assert!(JsonNum::new("1 ").is_none());
    assert_eq!(JsonNum::new("6.25").unwrap().render(), b"6.25".to_vec());
}

#[test]
fn raw_json_accepts_only_well_formed_documents() {
    assert!(RawJson::new(b"{\"a\": [1, 2, {\"b\": null}]}".to_vec()).is_some());
    assert!(RawJson::new(b"  true  ".to_vec()).is_some());
    assert!(RawJson::new(b"\"text\"".to_vec()).is_some());
    assert!(RawJson::new(b"-1.5e3".to_vec()).is_some());
    assert!(RawJson::new(b"{bad".to_vec()).is_none());
    assert!(RawJson::new(b"".to_vec()).is_none());
    assert!(RawJson::new(b"{} {}".to_vec()).is_none());
    assert!(RawJson::new(b"{\"a\": }".to_vec()).is_none());
    let r = RawJson::new(b"[1, 2]".to_vec()).unwrap();
    assert_eq!(r.render(), b"[1, 2]".to_vec());
}

#[test]
fn minimal_observation_has_only_required_members() {
    let o = ObservationBody::at("t0".to_string());
    let e = LangfuseEvent::new("e".to_string(), "ts".to_string(), None, EventBody::Event(o));
    let v = parse(&event_json(&e));
    let obj = v["body"].as_object().unwrap();
    assert_eq!(obj.len(), 2);
    assert_eq!(obj.get("startTime").and_then(|x| x.as_str()), Some("t0"));
    assert_eq!(obj.get("level").and_then(|x| x.as_str()), Some("DEFAULT"));
}
