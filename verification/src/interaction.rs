//! The single-call interaction helper: one trace-create event holding
//! a nested generation observation that records latency, model and
//! token usage, delivered as a single-item batch.
//!
//! The wire shape is fixed, and unset optional values are omitted from
//! the payload entirely, never sent as `null` — the service tells an
//! absent field from an explicit null. The trace name and the model
//! fall back to fixed texts when absent, and the generation's start
//! time is the clock reading minus the processing time, clamped to the
//! signed 64-bit range.

use vstd::prelude::*;
use crate::client::IngestionRequest;
use crate::client::auth_header;
use crate::client::ingestion_url;
use crate::client::sp_auth_header;
use crate::client::sp_config_fits;
use crate::client::sp_ingestion_url;
use crate::error::LangFuseTrackerError;
use crate::ext::rfc3339_of;
use crate::ext::rfc3339_utc;
use crate::ext::rfc_in_range;
use crate::jsonenc::dec_digits;
use crate::jsonenc::json_str_bytes;
use crate::jsonenc::lemma_esc_bytes_append;
use crate::jsonenc::lemma_sbytes_append;
use crate::jsonenc::member;
use crate::jsonenc::obj_member;
use crate::jsonenc::push_dec_u128;
use crate::jsonenc::push_esc_str;
use crate::jsonenc::push_json_str;
use crate::jsonenc::push_obj;
use crate::jsonenc::push_arr;
use crate::jsonenc::sbytes;
use crate::jsonenc::sp_arr;
use crate::jsonenc::sp_obj;
use crate::serialize::add_req;
use crate::serialize::add_str;
use crate::serialize::m_str;
use crate::types::InteractionMetadata;
use crate::types::LangFuseConfig;
use crate::types::TokenUsage;

verus! {

/// The values one interaction is recorded from, as the contracts see
/// them: each string by its characters, each optional string by its
/// presence and characters.
pub struct InteractionView {
    pub request_id: Seq<char>,
    pub user_id: Option<Seq<char>>,
    pub session_id: Option<Seq<char>>,
    pub input: Seq<char>,
    pub output: Seq<char>,
    pub raw_response: Option<Seq<char>>,
    pub processing_time_ms: nat,
    pub is_error: bool,
    pub model_name: Option<Seq<char>>,
    pub token_usage: Option<TokenUsage>,
    pub trace_name: Option<Seq<char>>,
    pub now: Seq<char>,
}

/// An optional text, or a fallback.
pub open spec fn sp_or(v: Option<Seq<char>>, d: Seq<char>) -> Seq<char> {
    match v {
        Some(s) => s,
        None => d,
    }
}

/// The view of an optional borrowed string.
pub open spec fn sp_opt(v: Option<&str>) -> Option<Seq<char>> {
    match v {
        Some(s) => Some(s@),
        None => None,
    }
}

/// The view of an optional owned string.
pub open spec fn sp_opt_string(v: Option<String>) -> Option<Seq<char>> {
    match v {
        Some(s) => Some(s@),
        None => None,
    }
}

/// The status text of an interaction.
pub open spec fn sp_status(is_error: bool) -> Seq<char> {
    if is_error {
        ("error")@
    } else {
        ("success")@
    }
}

/// The wire text of a token-usage record.
pub open spec fn sp_tu_json(t: TokenUsage) -> Seq<u8> {
    sp_obj(
        seq![
            obj_member(("input_tokens")@, dec_digits(t.input_tokens as nat)),
            obj_member(("output_tokens")@, dec_digits(t.output_tokens as nat)),
            obj_member(("total_tokens")@, dec_digits(t.total_tokens as nat)),
        ],
    )
}

/// The member an optional token-usage field contributes: the record,
/// or nothing at all when the field is unset.
pub open spec fn m_tu(k: Seq<char>, v: Option<TokenUsage>) -> Seq<Seq<u8>> {
    match v {
        Some(t) => seq![obj_member(k, sp_tu_json(t))],
        None => seq![],
    }
}

/// The member an optional text contributes, or nothing at all when it
/// is unset.
pub open spec fn m_text(k: Seq<char>, v: Option<Seq<char>>) -> Seq<Seq<u8>> {
    match v {
        Some(s) => seq![obj_member(k, json_str_bytes(s))],
        None => seq![],
    }
}

/// The wire text of the interaction metadata object, from a metadata
/// record. Unset token usage and raw response contribute no member.
pub open spec fn sp_meta_of(m: InteractionMetadata) -> Seq<u8> {
    sp_obj(
        seq![
            obj_member(("processing_time_ms")@, dec_digits(m.processing_time_ms as nat)),
            obj_member(("status")@, json_str_bytes(m.status@)),
            obj_member(("model")@, json_str_bytes(m.model@)),
        ] + m_tu(("token_usage")@, m.token_usage) + m_str(("raw_response")@, m.raw_response)
            + seq![obj_member(("timestamp_utc")@, json_str_bytes(m.timestamp_utc@))],
    )
}

/// How the payload's metadata record relates to the view: latency,
/// status text, model fallback, token usage, raw response and the
/// clock text all follow the view.
pub open spec fn sp_meta_matches(v: InteractionView, m: InteractionMetadata) -> bool {
    &&& m.processing_time_ms as nat == v.processing_time_ms
    &&& m.status@ == sp_status(v.is_error)
    &&& m.model@ == sp_or(v.model_name, ("unknown")@)
    &&& (match v.token_usage {
        Some(u) => m.token_usage matches Some(t) && t.input_tokens == u.input_tokens
            && t.output_tokens == u.output_tokens && t.total_tokens == u.total_tokens,
        None => m.token_usage is None,
    })
    &&& sp_opt_string(m.raw_response) == v.raw_response
    &&& m.timestamp_utc@ == v.now
}

/// The wire text of the nested generation observation. Unset token
/// usage and raw response contribute no member to its metadata.
pub open spec fn sp_gen_of(
    rid: Seq<char>,
    start: Seq<char>,
    end: Seq<char>,
    m: InteractionMetadata,
    input: Seq<char>,
    output: Seq<char>,
) -> Seq<u8> {
    sp_obj(
        seq![
            obj_member(("type")@, json_str_bytes(("generation")@)),
            obj_member(("id")@, json_str_bytes(rid + ("-generation")@)),
            obj_member(("startTime")@, json_str_bytes(start)),
            obj_member(("endTime")@, json_str_bytes(end)),
            obj_member(("model")@, json_str_bytes(m.model@)),
            obj_member(("input")@, json_str_bytes(input)),
            obj_member(("output")@, json_str_bytes(output)),
            obj_member(("metadata")@, sp_obj(
                seq![
                    obj_member(("request_id")@, json_str_bytes(rid)),
                    obj_member(("latency_ms")@, dec_digits(m.processing_time_ms as nat)),
                ] + m_tu(("token_usage")@, m.token_usage) + m_str(
                    ("raw_response")@,
                    m.raw_response,
                ),
            )),
        ],
    )
}

/// The wire text of the interaction's trace body. Unset user and
/// session ids contribute no member.
pub open spec fn sp_body_of(
    rid: Seq<char>,
    now: Seq<char>,
    name: Seq<char>,
    uid: Option<Seq<char>>,
    sid: Option<Seq<char>>,
    input: Seq<char>,
    output: Seq<char>,
    m: InteractionMetadata,
    start: Seq<char>,
) -> Seq<u8> {
    sp_obj(
        seq![
            obj_member(("id")@, json_str_bytes(rid)),
            obj_member(("timestamp")@, json_str_bytes(now)),
            obj_member(("name")@, json_str_bytes(name)),
        ] + m_text(("userId")@, uid) + m_text(("sessionId")@, sid) + seq![
            obj_member(("input")@, json_str_bytes(input)),
            obj_member(("output")@, json_str_bytes(output)),
            obj_member(("metadata")@, sp_meta_of(m)),
            obj_member(("observations")@, sp_arr(seq![sp_gen_of(rid, start, now, m, input,
                output,
            )])),
        ],
    )
}

/// The whole interaction payload: a single-item batch holding one
/// trace-create event whose body nests the generation. The trace
/// name falls back as the view says; the start text is a parameter,
/// since it may fall back to the clock text.
pub open spec fn sp_interaction_json(v: InteractionView, m: InteractionMetadata, start: Seq<char>)
    -> Seq<u8> {
    sp_obj(
        seq![
            obj_member(("batch")@, sp_arr(seq![
                sp_obj(
                    seq![
                        obj_member(("id")@, json_str_bytes(v.request_id + ("-event")@)),
                        obj_member(("timestamp")@, json_str_bytes(v.now)),
                        obj_member(("type")@, json_str_bytes(("trace-create")@)),
                        obj_member(("body")@, sp_body_of(v.request_id, v.now, sp_or(v.trace_name,
                            ("your_app_user_interaction")@,
                        ), v.user_id, v.session_id, v.input, v.output, m, start)),
                    ],
                ),
            ])),
        ],
    )
}

/// Renders a quoted string value.
fn val_str(s: &str) -> (r: Vec<u8>)
    ensures
        r@ == json_str_bytes(s@),
{
    let mut out: Vec<u8> = Vec::new();
    push_json_str(&mut out, s);
    out
}

/// Renders a quoted string value made of two concatenated texts.
fn val_str_cat(a: &str, b: &str) -> (r: Vec<u8>)
    ensures
        r@ == json_str_bytes(a@ + b@),
{
    let mut out: Vec<u8> = Vec::new();
    out.push(34);
    push_esc_str(&mut out, a);
    push_esc_str(&mut out, b);
    out.push(34);
    proof {
        lemma_sbytes_append(a@, b@);
        lemma_esc_bytes_append(sbytes(a@), sbytes(b@));
        assert(out@ =~= json_str_bytes(a@ + b@));
    }
    out
}

/// Renders a token-usage record.
fn tu_val(t: &TokenUsage) -> (r: Vec<u8>)
    ensures
        r@ == sp_tu_json(*t),
{
    let mut ms: Vec<Vec<u8>> = Vec::new();
    let mut iv: Vec<u8> = Vec::new();
    push_dec_u128(&mut iv, t.input_tokens as u128);
    ms.push(member("input_tokens", iv));
    let mut ov: Vec<u8> = Vec::new();
    push_dec_u128(&mut ov, t.output_tokens as u128);
    ms.push(member("output_tokens", ov));
    let mut tv: Vec<u8> = Vec::new();
    push_dec_u128(&mut tv, t.total_tokens as u128);
    ms.push(member("total_tokens", tv));
    proof {
        assert(ms.deep_view() =~~= seq![
            obj_member(("input_tokens")@, dec_digits(t.input_tokens as nat)),
            obj_member(("output_tokens")@, dec_digits(t.output_tokens as nat)),
            obj_member(("total_tokens")@, dec_digits(t.total_tokens as nat)),
        ]);
    }
    let mut out: Vec<u8> = Vec::new();
    push_obj(&mut out, &ms);
    out
}

/// Appends an optional token-usage member.
fn add_tu(ms: &mut Vec<Vec<u8>>, key: &str, v: &Option<TokenUsage>)
    ensures
        final(ms).deep_view() == old(ms).deep_view() + m_tu(key@, *v),
{
    match v {
        Some(t) => {
            ms.push(member(key, tu_val(t)));
            proof {
                assert(ms.deep_view() =~~= old(ms).deep_view() + m_tu(key@, *v));
            }
        },
        None => {
            proof {
                assert(ms.deep_view() =~~= old(ms).deep_view() + m_tu(key@, *v));
            }
        },
    }
}

/// Appends an optional text member.
fn add_opt_text(ms: &mut Vec<Vec<u8>>, key: &str, v: Option<&str>)
    ensures
        final(ms).deep_view() == old(ms).deep_view() + m_text(key@, sp_opt(v)),
{
    match v {
        Some(s) => {
            ms.push(member(key, val_str(s)));
            proof {
                assert(ms.deep_view() =~~= old(ms).deep_view() + m_text(key@, sp_opt(v)));
            }
        },
        None => {
            proof {
                assert(ms.deep_view() =~~= old(ms).deep_view() + m_text(key@, sp_opt(v)));
            }
        },
    }
}

/// Renders the interaction metadata object from a metadata record.
pub fn meta_json(m: &InteractionMetadata) -> (r: Vec<u8>)
    ensures
        r@ == sp_meta_of(*m),
{
    let mut ms: Vec<Vec<u8>> = Vec::new();
    proof {
        assert(ms.deep_view() =~~= Seq::<Seq<u8>>::empty());
    }
    let mut pv: Vec<u8> = Vec::new();
    push_dec_u128(&mut pv, m.processing_time_ms);
    add_req(&mut ms, "processing_time_ms", pv);
    add_req(&mut ms, "status", val_str(m.status.as_str()));
    add_req(&mut ms, "model", val_str(m.model.as_str()));
    add_tu(&mut ms, "token_usage", &m.token_usage);
    add_str(&mut ms, "raw_response", &m.raw_response);
    add_req(&mut ms, "timestamp_utc", val_str(m.timestamp_utc.as_str()));
    proof {
        assert(ms.deep_view() =~~= seq![
            obj_member(("processing_time_ms")@, dec_digits(m.processing_time_ms as nat)),
            obj_member(("status")@, json_str_bytes(m.status@)),
            obj_member(("model")@, json_str_bytes(m.model@)),
        ] + m_tu(("token_usage")@, m.token_usage) + m_str(("raw_response")@, m.raw_response)
            + seq![obj_member(("timestamp_utc")@, json_str_bytes(m.timestamp_utc@))]);
    }
    let mut out: Vec<u8> = Vec::new();
    push_obj(&mut out, &ms);
    out
}

/// The clamped start instant: the clock reading minus the processing
/// time, saturated at the signed 64-bit bounds.
pub open spec fn sp_start_ms(now: int, p: nat) -> int {
    let d: int = if p > i64::MAX as int {
        i64::MAX as int
    } else {
        p as int
    };
    if now - d < i64::MIN as int {
        i64::MIN as int
    } else {
        now - d
    }
}

/// Renders the nested generation observation.
fn gen_json(rid: &str, start: &str, end: &str, m: &InteractionMetadata, input: &str, output: &str)
    -> (r: Vec<u8>)
    ensures
        r@ == sp_gen_of(rid@, start@, end@, *m, input@, output@),
{
    let mut gm: Vec<Vec<u8>> = Vec::new();
    proof {
        assert(gm.deep_view() =~~= Seq::<Seq<u8>>::empty());
    }
    add_req(&mut gm, "request_id", val_str(rid));
    let mut lv: Vec<u8> = Vec::new();
    push_dec_u128(&mut lv, m.processing_time_ms);
    add_req(&mut gm, "latency_ms", lv);
    add_tu(&mut gm, "token_usage", &m.token_usage);
    add_str(&mut gm, "raw_response", &m.raw_response);
    proof {
        assert(gm.deep_view() =~~= seq![
            obj_member(("request_id")@, json_str_bytes(rid@)),
            obj_member(("latency_ms")@, dec_digits(m.processing_time_ms as nat)),
        ] + m_tu(("token_usage")@, m.token_usage) + m_str(("raw_response")@, m.raw_response));
    }
    let mut gmv: Vec<u8> = Vec::new();
    push_obj(&mut gmv, &gm);
    let mut ms: Vec<Vec<u8>> = Vec::new();
    ms.push(member("type", val_str("generation")));
    ms.push(member("id", val_str_cat(rid, "-generation")));
    ms.push(member("startTime", val_str(start)));
    ms.push(member("endTime", val_str(end)));
    ms.push(member("model", val_str(m.model.as_str())));
    ms.push(member("input", val_str(input)));
    ms.push(member("output", val_str(output)));
    ms.push(member("metadata", gmv));
    proof {
        assert(ms.deep_view() =~~= seq![
            obj_member(("type")@, json_str_bytes(("generation")@)),
            obj_member(("id")@, json_str_bytes(rid@ + ("-generation")@)),
            obj_member(("startTime")@, json_str_bytes(start@)),
            obj_member(("endTime")@, json_str_bytes(end@)),
            obj_member(("model")@, json_str_bytes(m.model@)),
            obj_member(("input")@, json_str_bytes(input@)),
            obj_member(("output")@, json_str_bytes(output@)),
            obj_member(("metadata")@, gmv@),
        ]);
    }
    let mut out: Vec<u8> = Vec::new();
    push_obj(&mut out, &ms);
    out
}

/// Renders the interaction's trace body.
fn body_json_of(
    rid: &str,
    now: &str,
    name: &str,
    uid: Option<&str>,
    sid: Option<&str>,
    input: &str,
    output: &str,
    m: &InteractionMetadata,
    start: &str,
) -> (r: Vec<u8>)
    ensures
        r@ == sp_body_of(rid@, now@, name@, sp_opt(uid), sp_opt(sid), input@, output@, *m, start@),
{
    let gv = gen_json(rid, start, now, m, input, output);
    let mut obs: Vec<Vec<u8>> = Vec::new();
    obs.push(gv);
    proof {
        assert(obs.deep_view() =~~= seq![sp_gen_of(rid@, start@, now@, *m, input@, output@)]);
    }
    let mut ov: Vec<u8> = Vec::new();
    push_arr(&mut ov, &obs);
    let mut bm: Vec<Vec<u8>> = Vec::new();
    proof {
        assert(bm.deep_view() =~~= Seq::<Seq<u8>>::empty());
    }
    add_req(&mut bm, "id", val_str(rid));
    add_req(&mut bm, "timestamp", val_str(now));
    add_req(&mut bm, "name", val_str(name));
    add_opt_text(&mut bm, "userId", uid);
    add_opt_text(&mut bm, "sessionId", sid);
    add_req(&mut bm, "input", val_str(input));
    add_req(&mut bm, "output", val_str(output));
    add_req(&mut bm, "metadata", meta_json(m));
    add_req(&mut bm, "observations", ov);
    proof {
        assert(bm.deep_view() =~~= seq![
            obj_member(("id")@, json_str_bytes(rid@)),
            obj_member(("timestamp")@, json_str_bytes(now@)),
            obj_member(("name")@, json_str_bytes(name@)),
        ] + m_text(("userId")@, sp_opt(uid)) + m_text(("sessionId")@, sp_opt(sid)) + seq![
            obj_member(("input")@, json_str_bytes(input@)),
            obj_member(("output")@, json_str_bytes(output@)),
            obj_member(("metadata")@, sp_meta_of(*m)),
            obj_member(("observations")@, sp_arr(seq![sp_gen_of(rid@, start@, now@, *m, input@,
                output@,
            )])),
        ]);
    }
    let mut out: Vec<u8> = Vec::new();
    push_obj(&mut out, &bm);
    out
}

/// Wraps a rendered body in the trace-create envelope and the
/// single-item batch.
fn batch_wrap(rid: &str, now: &str, body: Vec<u8>) -> (r: Vec<u8>)
    ensures
        r@ == sp_obj(
            seq![
                obj_member(("batch")@, sp_arr(seq![
                    sp_obj(
                        seq![
                            obj_member(("id")@, json_str_bytes(rid@ + ("-event")@)),
                            obj_member(("timestamp")@, json_str_bytes(now@)),
                            obj_member(("type")@, json_str_bytes(("trace-create")@)),
                            obj_member(("body")@, body@),
                        ],
                    ),
                ])),
            ],
        ),
{
    let mut em: Vec<Vec<u8>> = Vec::new();
    em.push(member("id", val_str_cat(rid, "-event")));
    em.push(member("timestamp", val_str(now)));
    em.push(member("type", val_str("trace-create")));
    em.push(member("body", body));
    proof {
        assert(em.deep_view() =~~= seq![
            obj_member(("id")@, json_str_bytes(rid@ + ("-event")@)),
            obj_member(("timestamp")@, json_str_bytes(now@)),
            obj_member(("type")@, json_str_bytes(("trace-create")@)),
            obj_member(("body")@, body@),
        ]);
    }
    let mut ev: Vec<u8> = Vec::new();
    push_obj(&mut ev, &em);
    let mut batch: Vec<Vec<u8>> = Vec::new();
    batch.push(ev);
    let mut av: Vec<u8> = Vec::new();
    push_arr(&mut av, &batch);
    let mut tm: Vec<Vec<u8>> = Vec::new();
    tm.push(member("batch", av));
    proof {
        assert(batch.deep_view() =~~= seq![batch@[0]@]);
        assert(tm.deep_view() =~~= seq![obj_member(("batch")@, sp_arr(seq![batch@[0]@]))]);
    }
    let mut out: Vec<u8> = Vec::new();
    push_obj(&mut out, &tm);
    out
}

/// Builds the interaction payload and the request that delivers it.
/// The clock reading is taken as a parameter; the caller holds the
/// clock. When even the clock reading cannot be rendered as a
/// timestamp, the call fails; when only the computed start instant
/// cannot, the generation starts at the clock reading, as a fallback.
#[verifier::rlimit(60)]
pub fn interaction_request(
    config: &LangFuseConfig,
    request_id: &str,
    user_id: Option<&str>,
    session_id: Option<&str>,
    input: &str,
    output: &str,
    raw_response: Option<&str>,
    processing_time_ms: u128,
    is_error: bool,
    model_name: Option<&str>,
    token_usage: Option<TokenUsage>,
    trace_name: Option<&str>,
    now_ms: i64,
) -> (r: Result<IngestionRequest, LangFuseTrackerError>)
    requires
        sp_config_fits(*config),
    ensures
        rfc_in_range(now_ms as int) ==> r is Ok,
        r matches Err(e) ==> e is InvalidTimestampFormat,
        r matches Ok(req) ==> ({
            let v = InteractionView {
                request_id: request_id@,
                user_id: sp_opt(user_id),
                session_id: sp_opt(session_id),
                input: input@,
                output: output@,
                raw_response: sp_opt(raw_response),
                processing_time_ms: processing_time_ms as nat,
                is_error,
                model_name: sp_opt(model_name),
                token_usage,
                trace_name: sp_opt(trace_name),
                now: rfc3339_of(now_ms as int),
            };
            let started = rfc3339_of(sp_start_ms(now_ms as int, processing_time_ms as nat));
            &&& req.url@ == sp_ingestion_url(sbytes(config.base_url@))
            &&& req.auth_header@ == sp_auth_header(config.public_key@, config.secret_key@)
            &&& exists|m: InteractionMetadata|
                sp_meta_matches(v, m) && (req.body@ == sp_interaction_json(v, m, started)
                    || req.body@ == sp_interaction_json(v, m, v.now))
            &&& (rfc_in_range(sp_start_ms(now_ms as int, processing_time_ms as nat))
                ==> exists|m: InteractionMetadata|
                sp_meta_matches(v, m) && req.body@ == sp_interaction_json(v, m, started))
        }),
{
    let now_text = match rfc3339_utc(now_ms) {
        Some(t) => t,
        None => {
            return Err(LangFuseTrackerError::InvalidTimestampFormat);
        },
    };
    let p64: i64 = if processing_time_ms > (i64::MAX as u128) {
        i64::MAX
    } else {
        processing_time_ms as i64
    };
    let start_ms: i64 = if now_ms >= i64::MIN + p64 {
        now_ms - p64
    } else {
        i64::MIN
    };
    proof {
        assert(start_ms as int == sp_start_ms(now_ms as int, processing_time_ms as nat));
    }
    let start_opt = rfc3339_utc(start_ms);
    let ghost started_at_now: bool = start_opt is None;
    let start_text = match start_opt {
        Some(t) => t,
        None => now_text.clone(),
    };
    let m = InteractionMetadata::new(
        processing_time_ms,
        is_error,
        model_name,
        token_usage.as_ref(),
        raw_response,
        now_text.clone(),
    );
    let tn: &str = match trace_name {
        Some(t) => t,
        None => "your_app_user_interaction",
    };
    let body = body_json_of(
        request_id,
        now_text.as_str(),
        tn,
        user_id,
        session_id,
        input,
        output,
        &m,
        start_text.as_str(),
    );
    let payload = batch_wrap(request_id, now_text.as_str(), body);
    let req = IngestionRequest {
        url: ingestion_url(config),
        auth_header: auth_header(config),
        body: payload,
    };
    proof {
        let v = InteractionView {
            request_id: request_id@,
            user_id: sp_opt(user_id),
            session_id: sp_opt(session_id),
            input: input@,
            output: output@,
            raw_response: sp_opt(raw_response),
            processing_time_ms: processing_time_ms as nat,
            is_error,
            model_name: sp_opt(model_name),
            token_usage,
            trace_name: sp_opt(trace_name),
            now: rfc3339_of(now_ms as int),
        };
        assert(sp_meta_matches(v, m));
        assert(tn@ == sp_or(v.trace_name, ("your_app_user_interaction")@)) by {
            if trace_name is None {
                reveal_strlit("your_app_user_interaction");
            }
        }
        assert(req.body@ == sp_interaction_json(v, m, start_text@));
        if started_at_now {
            assert(start_text@ == v.now);
        } else {
            assert(start_text@ == rfc3339_of(start_ms as int));
        }
    }
    Ok(req)
}

} // verus!
