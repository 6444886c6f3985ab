//! Building ingestion requests and classifying their responses.
//!
//! A request here is plain data — the URL, the basic-auth header and
//! the JSON body — ready for whatever transport delivers it. The reply
//! comes back as plain data too, and [`classify_response`] turns it
//! into the caller's result.

use vstd::prelude::*;
use crate::error::LangFuseTrackerError;
use crate::events::EventBody;
use crate::events::LangfuseEvent;
use crate::events::ObservationBody;
use crate::events::ObservationLevel;
use crate::events::TraceBody;
use crate::ext::b64_encode;
use crate::ext::base64_of;
use crate::ext::is_uuid_v4_text;
use crate::ext::new_uuid_v4;
use crate::ext::rfc3339_utc;
use crate::ext::rfc3339_of;
use crate::ext::rfc_in_range;
use crate::jsonenc::push_bytes;
use crate::jsonenc::push_lit;
use crate::jsonenc::sbytes;
use crate::parse::ErrItem;
use crate::parse::RawJson;
use crate::parse::parse_response;
use crate::parse::sp_response;
use crate::serialize::batch_json;
use crate::serialize::sp_batch_json;
use crate::types::LangFuseConfig;

verus! {

/// One ready-to-send ingestion request: where to POST, the
/// `Authorization` header value, and the JSON body bytes.
pub struct IngestionRequest {
    pub url: Vec<u8>,
    pub auth_header: Vec<u8>,
    pub body: Vec<u8>,
}

/// The base URL with its trailing slashes removed.
pub open spec fn sp_trim_slashes(s: Seq<u8>) -> Seq<u8>
    decreases s.len(),
{
    if s.len() > 0 && s.last() == 47 {
        sp_trim_slashes(s.drop_last())
    } else {
        s
    }
}

/// The ingestion endpoint under a base URL.
pub open spec fn sp_ingestion_url(base: Seq<u8>) -> Seq<u8> {
    sp_trim_slashes(base) + sbytes(("/api/public/ingestion")@)
}

/// The basic-auth header value: the keyword, then the base64 text of
/// `public_key:secret_key`.
pub open spec fn sp_auth_header(pk: Seq<char>, sk: Seq<char>) -> Seq<u8> {
    sbytes(("Basic ")@) + sbytes(base64_of(sbytes(pk) + seq![58u8] + sbytes(sk)))
}

/// The machine limit under which the credentials can be base64
/// encoded.
pub open spec fn sp_config_fits(c: LangFuseConfig) -> bool {
    sbytes(c.public_key@).len() + sbytes(c.secret_key@).len() + 1 <= usize::MAX / 4
}

/// Renders the ingestion URL for a configuration.
pub fn ingestion_url(config: &LangFuseConfig) -> (r: Vec<u8>)
    ensures
        r@ == sp_ingestion_url(sbytes(config.base_url@)),
{
    let b = config.base_url.as_str().as_bytes();
    let mut n: usize = b.len();
    proof {
        assert(b@.take(b@.len() as int) =~= b@);
    }
    loop
        invariant
            0 <= n <= b@.len(),
            b@ == sbytes(config.base_url@),
            sp_trim_slashes(b@) == sp_trim_slashes(b@.take(n as int)),
        ensures
            0 <= n <= b@.len(),
            sp_trim_slashes(b@) == sp_trim_slashes(b@.take(n as int)),
            n == 0 || b@[n - 1] != 47,
        decreases n,
    {
        if n > 0 && b[n - 1] == 47 {
            proof {
                assert(b@.take(n as int).last() == b@[n - 1]);
                assert(b@.take(n as int).drop_last() =~= b@.take(n - 1 as int));
            }
            n = n - 1;
        } else {
            proof {
                if n > 0 {
                    assert(b@.take(n as int).last() == b@[n - 1]);
                }
            }
            break;
        }
    }
    proof {
        assert(sp_trim_slashes(b@.take(n as int)) == b@.take(n as int));
    }
    let mut out: Vec<u8> = Vec::new();
    let mut i: usize = 0;
    while i < n
        invariant
            0 <= i <= n <= b@.len(),
            out@ == b@.take(n as int).take(i as int),
        decreases n - i,
    {
        out.push(b[i]);
        proof {
            assert(b@.take(n as int).take(i + 1 as int) =~= b@.take(n as int).take(
                i as int,
            ).push(b@[i as int]));
        }
        i = i + 1;
    }
    proof {
        assert(b@.take(n as int).take(n as int) =~= b@.take(n as int));
    }
    push_lit(&mut out, "/api/public/ingestion");
    out
}

/// Renders the basic-auth header value for a configuration.
pub fn auth_header(config: &LangFuseConfig) -> (r: Vec<u8>)
    requires
        sp_config_fits(*config),
    ensures
        r@ == sp_auth_header(config.public_key@, config.secret_key@),
{
    let mut cred: Vec<u8> = Vec::new();
    push_lit(&mut cred, config.public_key.as_str());
    cred.push(58);
    push_lit(&mut cred, config.secret_key.as_str());
    proof {
        assert(cred@ =~= sbytes(config.public_key@) + seq![58u8] + sbytes(config.secret_key@));
    }
    let encoded = b64_encode(cred.as_slice());
    let mut out: Vec<u8> = Vec::new();
    push_lit(&mut out, "Basic ");
    push_bytes(&mut out, encoded.as_str().as_bytes());
    proof {
        assert(out@ =~= sp_auth_header(config.public_key@, config.secret_key@));
    }
    out
}

/// Builds the ingestion request that delivers the given events in one
/// batch.
pub fn ingestion_request(config: &LangFuseConfig, events: &Vec<LangfuseEvent>) -> (r:
    IngestionRequest)
    requires
        sp_config_fits(*config),
    ensures
        r.url@ == sp_ingestion_url(sbytes(config.base_url@)),
        r.auth_header@ == sp_auth_header(config.public_key@, config.secret_key@),
        r.body@ == sp_batch_json(events@),
{
    IngestionRequest {
        url: ingestion_url(config),
        auth_header: auth_header(config),
        body: batch_json(events),
    }
}

/// What came back from one delivery attempt, as plain data: either the
/// transport failed outright, or the service answered with a status
/// and a body.
pub enum HttpReply {
    Transport(String),
    Response { status: u16, body: Vec<u8> },
}

/// Classifies a reply. A transport failure surfaces as
/// `TransportError` with no response parsing at all. A success status
/// means the body is parsed: a body that is not JSON is a
/// `SerializationError`, a non-empty `errors` array is a
/// `PartialBatchError` carrying its entries, and anything else is
/// success. Every other status is an `ApiError` carrying the status
/// code and the body text.
pub fn classify_response(reply: HttpReply) -> (r: Result<(), LangFuseTrackerError>)
    requires
        reply matches HttpReply::Response { status, body } ==> body@.len() < usize::MAX,
    ensures
        reply matches HttpReply::Transport(m) ==> (r matches Err(e) && e matches
            LangFuseTrackerError::TransportError(t) && t@ == m@),
        reply matches HttpReply::Response { status, body } ==> {
            if 200 <= status <= 299 {
                match sp_response(body@) {
                    None => r matches Err(e) && e is SerializationError,
                    Some(es) => {
                        if es.len() == 0 {
                            r is Ok
                        } else {
                            r matches Err(e) && e matches LangFuseTrackerError::PartialBatchError {
                                errors,
                            } && errors@.map_values(|x: ErrItem| x@) == es
                        }
                    },
                }
            } else {
                r matches Err(e) && e matches LangFuseTrackerError::ApiError {
                    status_code,
                    message,
                } && status_code == status && message@ == body@
            }
        },
{
    match reply {
        HttpReply::Transport(m) => Err(LangFuseTrackerError::TransportError(m)),
        HttpReply::Response { status, body } => {
            if 200 <= status && status <= 299 {
                match parse_response(body.as_slice()) {
                    None => Err(LangFuseTrackerError::SerializationError),
                    Some(errors) => {
                        if errors.len() == 0 {
                            Ok(())
                        } else {
                            Err(LangFuseTrackerError::PartialBatchError { errors })
                        }
                    },
                }
            } else {
                Err(LangFuseTrackerError::ApiError { status_code: status, message: body })
            }
        },
    }
}

/// A freshly built trace: its client-side identifier, the event that
/// announces it, and the request that delivers it.
pub struct TraceHandle {
    pub trace_id: String,
    pub event: LangfuseEvent,
    pub request: IngestionRequest,
}

/// Builds a trace-create event with a fresh client-side trace id and
/// envelope id, stamped with the given clock reading, and the request
/// that delivers it as a single-item batch.
pub fn create_trace_request(
    config: &LangFuseConfig,
    name: &str,
    metadata: Option<RawJson>,
    now_ms: i64,
) -> (r: Result<TraceHandle, LangFuseTrackerError>)
    requires
        sp_config_fits(*config),
    ensures
        rfc_in_range(now_ms as int) ==> r is Ok,
        r matches Err(e) ==> e is InvalidTimestampFormat,
        r matches Ok(h) ==> {
            &&& is_uuid_v4_text(h.trace_id@)
            &&& is_uuid_v4_text(h.event.id@)
            &&& h.event.wf()
            &&& h.event.timestamp@ == rfc3339_of(now_ms as int)
            &&& h.event.metadata is None
            &&& h.event.body matches EventBody::Trace(t) && {
                &&& t.id matches Some(ti) && ti@ == h.trace_id@
                &&& t.timestamp matches Some(ts) && ts@ == rfc3339_of(now_ms as int)
                &&& t.name matches Some(n) && n@ == name@
                &&& t.metadata == metadata
                &&& t.user_id is None
                &&& t.session_id is None
                &&& t.input is None
                &&& t.output is None
                &&& t.tags is None
                &&& t.release is None
                &&& t.version is None
                &&& t.public is None
            }
            &&& h.request.url@ == sp_ingestion_url(sbytes(config.base_url@))
            &&& h.request.auth_header@ == sp_auth_header(config.public_key@, config.secret_key@)
            &&& h.request.body@ == sp_batch_json(seq![h.event])
        },
{
    let ts = match rfc3339_utc(now_ms) {
        Some(t) => t,
        None => {
            return Err(LangFuseTrackerError::InvalidTimestampFormat);
        },
    };
    let ts_body = ts.clone();
    let trace_id = new_uuid_v4();
    let trace_id_body = trace_id.clone();
    let event_id = new_uuid_v4();
    let body = TraceBody {
        id: Some(trace_id_body),
        timestamp: Some(ts_body),
        name: Some(name.to_owned()),
        user_id: None,
        session_id: None,
        input: None,
        output: None,
        metadata,
        tags: None,
        release: None,
        version: None,
        public: None,
    };
    let event = LangfuseEvent::new(event_id, ts, None, EventBody::Trace(body));
    let mut events: Vec<LangfuseEvent> = Vec::new();
    events.push(event);
    let request = ingestion_request(config, &events);
    let event = events.pop().unwrap();
    let h = TraceHandle { trace_id, event, request };
    proof {
        assert(seq![h.event] =~= events@.push(h.event));
    }
    Ok(h)
}

/// An event together with the request that delivers it as a
/// single-item batch.
pub struct PreparedRequest {
    pub event: LangfuseEvent,
    pub request: IngestionRequest,
}

/// Builds a span-create event from the caller's values, stamped with
/// the given clock reading, and the request that delivers it. The
/// start and end times pass through untouched: their ordering is not
/// validated, and a span without a trace id is still sent.
pub fn track_span_request(
    config: &LangFuseConfig,
    name: &str,
    trace_id: Option<&str>,
    start_time: &str,
    end_time: &str,
    level: ObservationLevel,
    metadata: Option<RawJson>,
    input: Option<&str>,
    output: Option<&str>,
    parent_observation_id: Option<&str>,
    version: Option<&str>,
    now_ms: i64,
) -> (r: Result<PreparedRequest, LangFuseTrackerError>)
    requires
        sp_config_fits(*config),
    ensures
        rfc_in_range(now_ms as int) ==> r is Ok,
        r matches Err(e) ==> e is InvalidTimestampFormat,
        r matches Ok(p) ==> {
            &&& is_uuid_v4_text(p.event.id@)
            &&& p.event.wf()
            &&& p.event.timestamp@ == rfc3339_of(now_ms as int)
            &&& p.event.metadata == metadata
            &&& p.event.body matches EventBody::Span(o) && {
                &&& o.id is None
                &&& (match trace_id {
                    Some(t) => o.trace_id matches Some(x) && x@ == t@,
                    None => o.trace_id is None,
                })
                &&& o.name matches Some(n) && n@ == name@
                &&& o.start_time@ == start_time@
                &&& o.end_time matches Some(e) && e@ == end_time@
                &&& o.level == level
                &&& o.status_message is None
                &&& (match parent_observation_id {
                    Some(t) => o.parent_observation_id matches Some(x) && x@ == t@,
                    None => o.parent_observation_id is None,
                })
                &&& (match input {
                    Some(t) => o.input matches Some(x) && x@ == t@,
                    None => o.input is None,
                })
                &&& (match output {
                    Some(t) => o.output matches Some(x) && x@ == t@,
                    None => o.output is None,
                })
                &&& (match version {
                    Some(t) => o.version matches Some(x) && x@ == t@,
                    None => o.version is None,
                })
                &&& o.model is None
                &&& o.model_parameters is None
                &&& o.usage is None
                &&& o.usage_details is None
                &&& o.cost_details is None
            }
            &&& p.request.url@ == sp_ingestion_url(sbytes(config.base_url@))
            &&& p.request.auth_header@ == sp_auth_header(config.public_key@, config.secret_key@)
            &&& p.request.body@ == sp_batch_json(seq![p.event])
        },
{
    let ts = match rfc3339_utc(now_ms) {
        Some(t) => t,
        None => {
            return Err(LangFuseTrackerError::InvalidTimestampFormat);
        },
    };
    let event_id = new_uuid_v4();
    let body = ObservationBody {
        id: None,
        trace_id: match trace_id {
            Some(t) => Some(t.to_owned()),
            None => None,
        },
        name: Some(name.to_owned()),
        start_time: start_time.to_owned(),
        end_time: Some(end_time.to_owned()),
        level,
        status_message: None,
        parent_observation_id: match parent_observation_id {
            Some(t) => Some(t.to_owned()),
            None => None,
        },
        input: match input {
            Some(t) => Some(t.to_owned()),
            None => None,
        },
        output: match output {
            Some(t) => Some(t.to_owned()),
            None => None,
        },
        version: match version {
            Some(t) => Some(t.to_owned()),
            None => None,
        },
        model: None,
        model_parameters: None,
        usage: None,
        usage_details: None,
        cost_details: None,
    };
    let event = LangfuseEvent::new(event_id, ts, metadata, EventBody::Span(body));
    let mut events: Vec<LangfuseEvent> = Vec::new();
    events.push(event);
    let request = ingestion_request(config, &events);
    let event = events.pop().unwrap();
    let p = PreparedRequest { event, request };
    proof {
        assert(seq![p.event] =~= events@.push(p.event));
    }
    Ok(p)
}

} // verus!
