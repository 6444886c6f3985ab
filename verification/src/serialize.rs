//! Serialization of events to the JSON wire format.
//!
//! Each specification function below states, byte for byte, what an
//! event puts on the wire; the executable serializers are proved to
//! produce exactly that. Optional fields that are unset contribute no
//! member at all — they are never sent as `null`.

use vstd::prelude::*;
use crate::jsonenc::JsonNum;
use crate::jsonenc::dec_digits;
use crate::jsonenc::dec_int;
use crate::jsonenc::json_str_bytes;
use crate::jsonenc::member;
use crate::jsonenc::obj_member;
use crate::jsonenc::push_arr;
use crate::jsonenc::push_bytes;
use crate::jsonenc::push_dec_i64;
use crate::jsonenc::push_dec_u128;
use crate::jsonenc::push_json_str;
use crate::jsonenc::push_lit;
use crate::jsonenc::push_obj;
use crate::jsonenc::sbytes;
use crate::jsonenc::sp_arr;
use crate::jsonenc::sp_obj;
use crate::events::EventBody;
use crate::events::LangfuseEvent;
use crate::events::ObservationBody;
use crate::events::ParamScalar;
use crate::events::ParamValue;
use crate::events::ScoreBody;
use crate::events::ScoreValue;
use crate::events::TraceBody;
use crate::events::Usage;
use crate::events::sp_data_type;
use crate::events::sp_level;
use crate::events::sp_type_tag;
use crate::events::sp_unit;
use crate::parse::RawJson;

verus! {

pub proof fn lemma_map_push<A, B>(s: Seq<A>, f: spec_fn(A) -> B, x: A)
    ensures
        (s.push(x)).map_values(f) =~= s.map_values(f).push(f(x)),
{
}

/// The wire text of a boolean.
pub open spec fn sp_bool(b: bool) -> Seq<u8> {
    if b {
        sbytes(("true")@)
    } else {
        sbytes(("false")@)
    }
}

/// An object member under a caller-supplied key, which is escaped like
/// any other string.
pub open spec fn kv_member(k: Seq<char>, v: Seq<u8>) -> Seq<u8> {
    json_str_bytes(k) + seq![58u8] + v
}

/// The member an optional string field contributes: one quoted value,
/// or nothing at all when the field is unset.
pub open spec fn m_str(k: Seq<char>, v: Option<String>) -> Seq<Seq<u8>> {
    match v {
        Some(s) => seq![obj_member(k, json_str_bytes(s@))],
        None => seq![],
    }
}

/// The member an optional raw-JSON field contributes.
pub open spec fn m_raw(k: Seq<char>, v: Option<RawJson>) -> Seq<Seq<u8>> {
    match v {
        Some(r) => seq![obj_member(k, r.lit())],
        None => seq![],
    }
}

/// The member an optional boolean field contributes.
pub open spec fn m_bool(k: Seq<char>, v: Option<bool>) -> Seq<Seq<u8>> {
    match v {
        Some(b) => seq![obj_member(k, sp_bool(b))],
        None => seq![],
    }
}

/// The member an optional count field contributes.
pub open spec fn m_u64(k: Seq<char>, v: Option<u64>) -> Seq<Seq<u8>> {
    match v {
        Some(n) => seq![obj_member(k, dec_digits(n as nat))],
        None => seq![],
    }
}

/// The member an optional number-literal field contributes.
pub open spec fn m_num(k: Seq<char>, v: Option<JsonNum>) -> Seq<Seq<u8>> {
    match v {
        Some(n) => seq![obj_member(k, n.lit())],
        None => seq![],
    }
}

/// The member an optional tag-list field contributes: an array of
/// quoted strings.
pub open spec fn m_tags(k: Seq<char>, v: Option<Vec<String>>) -> Seq<Seq<u8>> {
    match v {
        Some(ts) => seq![
            obj_member(k, sp_arr(ts@.map_values(|s: String| json_str_bytes(s@)))),
        ],
        None => seq![],
    }
}

/// Appends an optional string member.
pub(crate) fn add_str(ms: &mut Vec<Vec<u8>>, key: &str, v: &Option<String>)
    ensures
        final(ms).deep_view() == old(ms).deep_view() + m_str(key@, *v),
{
    match v {
        Some(s) => {
            let mut val: Vec<u8> = Vec::new();
            push_json_str(&mut val, s.as_str());
            ms.push(member(key, val));
            proof {
                assert(ms.deep_view() =~~= old(ms).deep_view() + m_str(key@, *v));
            }
        },
        None => {
            proof {
                assert(ms.deep_view() =~~= old(ms).deep_view() + m_str(key@, *v));
            }
        },
    }
}

/// Appends a required member with an already-rendered value.
pub(crate) fn add_req(ms: &mut Vec<Vec<u8>>, key: &str, val: Vec<u8>)
    ensures
        final(ms).deep_view() == old(ms).deep_view() + seq![obj_member(key@, val@)],
{
    ms.push(member(key, val));
    proof {
        assert(ms.deep_view() =~~= old(ms).deep_view() + seq![obj_member(key@, val@)]);
    }
}

/// Appends an optional raw-JSON member.
fn add_raw(ms: &mut Vec<Vec<u8>>, key: &str, v: &Option<RawJson>)
    ensures
        final(ms).deep_view() == old(ms).deep_view() + m_raw(key@, *v),
{
    match v {
        Some(r) => {
            ms.push(member(key, r.render()));
            proof {
                assert(ms.deep_view() =~~= old(ms).deep_view() + m_raw(key@, *v));
            }
        },
        None => {
            proof {
                assert(ms.deep_view() =~~= old(ms).deep_view() + m_raw(key@, *v));
            }
        },
    }
}

/// Appends an optional boolean member.
fn add_bool(ms: &mut Vec<Vec<u8>>, key: &str, v: &Option<bool>)
    ensures
        final(ms).deep_view() == old(ms).deep_view() + m_bool(key@, *v),
{
    match v {
        Some(b) => {
            let mut val: Vec<u8> = Vec::new();
            if *b {
                push_lit(&mut val, "true");
            } else {
                push_lit(&mut val, "false");
            }
            ms.push(member(key, val));
            proof {
                assert(ms.deep_view() =~~= old(ms).deep_view() + m_bool(key@, *v));
            }
        },
        None => {
            proof {
                assert(ms.deep_view() =~~= old(ms).deep_view() + m_bool(key@, *v));
            }
        },
    }
}

/// Appends an optional count member.
fn add_u64(ms: &mut Vec<Vec<u8>>, key: &str, v: &Option<u64>)
    ensures
        final(ms).deep_view() == old(ms).deep_view() + m_u64(key@, *v),
{
    match v {
        Some(n) => {
            let mut val: Vec<u8> = Vec::new();
            push_dec_u128(&mut val, *n as u128);
            ms.push(member(key, val));
            proof {
                assert(ms.deep_view() =~~= old(ms).deep_view() + m_u64(key@, *v));
            }
        },
        None => {
            proof {
                assert(ms.deep_view() =~~= old(ms).deep_view() + m_u64(key@, *v));
            }
        },
    }
}

/// Appends an optional number-literal member.
fn add_num(ms: &mut Vec<Vec<u8>>, key: &str, v: &Option<JsonNum>)
    ensures
        final(ms).deep_view() == old(ms).deep_view() + m_num(key@, *v),
{
    match v {
        Some(n) => {
            ms.push(member(key, n.render()));
            proof {
                assert(ms.deep_view() =~~= old(ms).deep_view() + m_num(key@, *v));
            }
        },
        None => {
            proof {
                assert(ms.deep_view() =~~= old(ms).deep_view() + m_num(key@, *v));
            }
        },
    }
}

/// Appends an optional tag-list member.
fn add_tags(ms: &mut Vec<Vec<u8>>, key: &str, v: &Option<Vec<String>>)
    ensures
        final(ms).deep_view() == old(ms).deep_view() + m_tags(key@, *v),
{
    match v {
        Some(ts) => {
            let mut elems: Vec<Vec<u8>> = Vec::new();
            let mut i: usize = 0;
            while i < ts.len()
                invariant
                    0 <= i <= ts@.len(),
                    elems.deep_view() == ts@.take(i as int).map_values(
                        |s: String| json_str_bytes(s@),
                    ),
                decreases ts@.len() - i,
            {
                let mut val: Vec<u8> = Vec::new();
                push_json_str(&mut val, ts[i].as_str());
                let ghost dv0 = elems.deep_view();
                let ghost vv = val@;
                elems.push(val);
                proof {
                    lemma_map_push(ts@.take(i as int), |s: String| json_str_bytes(s@), ts@[i as int]);
                    assert(ts@.take(i + 1 as int) =~= ts@.take(i as int).push(ts@[i as int]));
                    assert(elems.deep_view() =~~= dv0.push(vv));
                    assert(elems.deep_view() =~~= ts@.take(i + 1 as int).map_values(
                        |s: String| json_str_bytes(s@),
                    ));
                }
                i = i + 1;
            }
            proof {
                assert(ts@.take(ts@.len() as int) =~= ts@);
            }
            let mut val: Vec<u8> = Vec::new();
            push_arr(&mut val, &elems);
            ms.push(member(key, val));
            proof {
                assert(ms.deep_view() =~~= old(ms).deep_view() + m_tags(key@, *v));
            }
        },
        None => {
            proof {
                assert(ms.deep_view() =~~= old(ms).deep_view() + m_tags(key@, *v));
            }
        },
    }
}

/// The members of a trace body, in wire order.
pub open spec fn sp_trace_members(t: TraceBody) -> Seq<Seq<u8>> {
    m_str(("id")@, t.id) + m_str(("timestamp")@, t.timestamp) + m_str(("name")@, t.name) + m_str(
        ("userId")@,
        t.user_id,
    ) + m_str(("sessionId")@, t.session_id) + m_str(("input")@, t.input) + m_str(
        ("output")@,
        t.output,
    ) + m_raw(("metadata")@, t.metadata) + m_tags(("tags")@, t.tags) + m_str(
        ("release")@,
        t.release,
    ) + m_str(("version")@, t.version) + m_bool(("public")@, t.public)
}

/// The wire text of a trace body.
pub open spec fn sp_trace_json(t: TraceBody) -> Seq<u8> {
    sp_obj(sp_trace_members(t))
}

/// Renders a trace body.
pub fn trace_json(t: &TraceBody) -> (r: Vec<u8>)
    ensures
        r@ == sp_trace_json(*t),
{
    let mut ms: Vec<Vec<u8>> = Vec::new();
    proof {
        assert(ms.deep_view() =~~= Seq::<Seq<u8>>::empty());
    }
    add_str(&mut ms, "id", &t.id);
    add_str(&mut ms, "timestamp", &t.timestamp);
    add_str(&mut ms, "name", &t.name);
    add_str(&mut ms, "userId", &t.user_id);
    add_str(&mut ms, "sessionId", &t.session_id);
    add_str(&mut ms, "input", &t.input);
    add_str(&mut ms, "output", &t.output);
    add_raw(&mut ms, "metadata", &t.metadata);
    add_tags(&mut ms, "tags", &t.tags);
    add_str(&mut ms, "release", &t.release);
    add_str(&mut ms, "version", &t.version);
    add_bool(&mut ms, "public", &t.public);
    proof {
        assert(ms.deep_view() =~~= sp_trace_members(*t));
    }
    let mut out: Vec<u8> = Vec::new();
    push_obj(&mut out, &ms);
    out
}

/// The wire text of one scalar parameter.
pub open spec fn sp_scalar(p: ParamScalar) -> Seq<u8> {
    match p {
        ParamScalar::Text(s) => json_str_bytes(s@),
        ParamScalar::Int(n) => dec_int(n as int),
        ParamScalar::Num(x) => x.lit(),
        ParamScalar::Flag(b) => sp_bool(b),
    }
}

/// The wire text of one parameter value.
pub open spec fn sp_param(v: ParamValue) -> Seq<u8> {
    match v {
        ParamValue::One(p) => sp_scalar(p),
        ParamValue::Many(ps) => sp_arr(ps@.map_values(|p: ParamScalar| sp_scalar(p))),
    }
}

/// Renders one scalar parameter.
fn scalar_val(p: &ParamScalar) -> (r: Vec<u8>)
    ensures
        r@ == sp_scalar(*p),
{
    let mut out: Vec<u8> = Vec::new();
    match p {
        ParamScalar::Text(s) => {
            push_json_str(&mut out, s.as_str());
        },
        ParamScalar::Int(n) => {
            push_dec_i64(&mut out, *n);
        },
        ParamScalar::Num(x) => {
            push_bytes(&mut out, x.render().as_slice());
        },
        ParamScalar::Flag(b) => {
            if *b {
                push_lit(&mut out, "true");
            } else {
                push_lit(&mut out, "false");
            }
        },
    }
    out
}

/// Renders one parameter value.
fn param_val(v: &ParamValue) -> (r: Vec<u8>)
    ensures
        r@ == sp_param(*v),
{
    match v {
        ParamValue::One(p) => scalar_val(p),
        ParamValue::Many(ps) => {
            let mut elems: Vec<Vec<u8>> = Vec::new();
            let mut i: usize = 0;
            while i < ps.len()
                invariant
                    0 <= i <= ps@.len(),
                    elems.deep_view() == ps@.take(i as int).map_values(
                        |p: ParamScalar| sp_scalar(p),
                    ),
                decreases ps@.len() - i,
            {
                let v = scalar_val(&ps[i]);
                let ghost dv0 = elems.deep_view();
                elems.push(v);
                proof {
                    lemma_map_push(ps@.take(i as int), |p: ParamScalar| sp_scalar(p), ps@[i as int]);
                    assert(ps@.take(i + 1 as int) =~= ps@.take(i as int).push(ps@[i as int]));
                    assert(elems.deep_view() =~~= dv0.push(v@));
                    assert(elems.deep_view() =~~= ps@.take(i + 1 as int).map_values(
                        |p: ParamScalar| sp_scalar(p),
                    ));
                }
                i = i + 1;
            }
            proof {
                assert(ps@.take(ps@.len() as int) =~= ps@);
            }
            let mut out: Vec<u8> = Vec::new();
            push_arr(&mut out, &elems);
            out
        },
    }
}

/// Builds one member under a caller-supplied, escaped key.
fn kv(key: &str, val: Vec<u8>) -> (r: Vec<u8>)
    ensures
        r@ == kv_member(key@, val@),
{
    let mut out: Vec<u8> = Vec::new();
    push_json_str(&mut out, key);
    out.push(58);
    push_bytes(&mut out, val.as_slice());
    proof {
        assert(out@ =~= kv_member(key@, val@));
    }
    out
}

/// The wire text of a model-parameters map.
pub open spec fn sp_params_json(ps: Seq<(String, ParamValue)>) -> Seq<u8> {
    sp_obj(ps.map_values(|p: (String, ParamValue)| kv_member(p.0@, sp_param(p.1))))
}

/// Renders a model-parameters map.
fn params_json(ps: &Vec<(String, ParamValue)>) -> (r: Vec<u8>)
    ensures
        r@ == sp_params_json(ps@),
{
    let mut ms: Vec<Vec<u8>> = Vec::new();
    let mut i: usize = 0;
    while i < ps.len()
        invariant
            0 <= i <= ps@.len(),
            ms.deep_view() == ps@.take(i as int).map_values(
                |p: (String, ParamValue)| kv_member(p.0@, sp_param(p.1)),
            ),
        decreases ps@.len() - i,
    {
        let val = param_val(&ps[i].1);
        let v = kv(ps[i].0.as_str(), val);
        let ghost dv0 = ms.deep_view();
        ms.push(v);
        proof {
            lemma_map_push(
                ps@.take(i as int),
                |p: (String, ParamValue)| kv_member(p.0@, sp_param(p.1)),
                ps@[i as int],
            );
            assert(ps@.take(i + 1 as int) =~= ps@.take(i as int).push(ps@[i as int]));
            assert(ms.deep_view() =~~= dv0.push(v@));
            assert(ms.deep_view() =~~= ps@.take(i + 1 as int).map_values(
                |p: (String, ParamValue)| kv_member(p.0@, sp_param(p.1)),
            ));
        }
        i = i + 1;
    }
    proof {
        assert(ps@.take(ps@.len() as int) =~= ps@);
    }
    let mut out: Vec<u8> = Vec::new();
    push_obj(&mut out, &ms);
    out
}

/// The wire text of a generic token-count map.
pub open spec fn sp_counts_json(ds: Seq<(String, u64)>) -> Seq<u8> {
    sp_obj(ds.map_values(|p: (String, u64)| kv_member(p.0@, dec_digits(p.1 as nat))))
}

/// Renders a generic token-count map.
fn counts_json(ds: &Vec<(String, u64)>) -> (r: Vec<u8>)
    ensures
        r@ == sp_counts_json(ds@),
{
    let mut ms: Vec<Vec<u8>> = Vec::new();
    let mut i: usize = 0;
    while i < ds.len()
        invariant
            0 <= i <= ds@.len(),
            ms.deep_view() == ds@.take(i as int).map_values(
                |p: (String, u64)| kv_member(p.0@, dec_digits(p.1 as nat)),
            ),
        decreases ds@.len() - i,
    {
        let mut val: Vec<u8> = Vec::new();
        push_dec_u128(&mut val, ds[i].1 as u128);
        let v = kv(ds[i].0.as_str(), val);
        let ghost dv0 = ms.deep_view();
        ms.push(v);
        proof {
            lemma_map_push(
                ds@.take(i as int),
                |p: (String, u64)| kv_member(p.0@, dec_digits(p.1 as nat)),
                ds@[i as int],
            );
            assert(ds@.take(i + 1 as int) =~= ds@.take(i as int).push(ds@[i as int]));
            assert(ms.deep_view() =~~= dv0.push(v@));
            assert(ms.deep_view() =~~= ds@.take(i + 1 as int).map_values(
                |p: (String, u64)| kv_member(p.0@, dec_digits(p.1 as nat)),
            ));
        }
        i = i + 1;
    }
    proof {
        assert(ds@.take(ds@.len() as int) =~= ds@);
    }
    let mut out: Vec<u8> = Vec::new();
    push_obj(&mut out, &ms);
    out
}

/// The wire text of a cost map.
pub open spec fn sp_costs_json(cs: Seq<(String, JsonNum)>) -> Seq<u8> {
    sp_obj(cs.map_values(|p: (String, JsonNum)| kv_member(p.0@, p.1.lit())))
}

/// Renders a cost map.
fn costs_json(cs: &Vec<(String, JsonNum)>) -> (r: Vec<u8>)
    ensures
        r@ == sp_costs_json(cs@),
{
    let mut ms: Vec<Vec<u8>> = Vec::new();
    let mut i: usize = 0;
    while i < cs.len()
        invariant
            0 <= i <= cs@.len(),
            ms.deep_view() == cs@.take(i as int).map_values(
                |p: (String, JsonNum)| kv_member(p.0@, p.1.lit()),
            ),
        decreases cs@.len() - i,
    {
        let val = cs[i].1.render();
        let v = kv(cs[i].0.as_str(), val);
        let ghost dv0 = ms.deep_view();
        ms.push(v);
        proof {
            lemma_map_push(
                cs@.take(i as int),
                |p: (String, JsonNum)| kv_member(p.0@, p.1.lit()),
                cs@[i as int],
            );
            assert(cs@.take(i + 1 as int) =~= cs@.take(i as int).push(cs@[i as int]));
            assert(ms.deep_view() =~~= dv0.push(v@));
            assert(ms.deep_view() =~~= cs@.take(i + 1 as int).map_values(
                |p: (String, JsonNum)| kv_member(p.0@, p.1.lit()),
            ));
        }
        i = i + 1;
    }
    proof {
        assert(cs@.take(cs@.len() as int) =~= cs@);
    }
    let mut out: Vec<u8> = Vec::new();
    push_obj(&mut out, &ms);
    out
}

/// The members of a usage record, in wire order.
pub open spec fn sp_usage_members(u: Usage) -> Seq<Seq<u8>> {
    m_u64(("input")@, u.input) + m_u64(("output")@, u.output) + m_u64(("total")@, u.total) + seq![
        obj_member(("unit")@, json_str_bytes(sp_unit(u.unit))),
    ] + m_num(("inputCost")@, u.input_cost) + m_num(("outputCost")@, u.output_cost) + m_num(
        ("totalCost")@,
        u.total_cost,
    )
}

/// The wire text of a usage record.
pub open spec fn sp_usage_json(u: Usage) -> Seq<u8> {
    sp_obj(sp_usage_members(u))
}

/// Renders a usage record.
fn usage_json(u: &Usage) -> (r: Vec<u8>)
    ensures
        r@ == sp_usage_json(*u),
{
    let mut ms: Vec<Vec<u8>> = Vec::new();
    proof {
        assert(ms.deep_view() =~~= Seq::<Seq<u8>>::empty());
    }
    add_u64(&mut ms, "input", &u.input);
    add_u64(&mut ms, "output", &u.output);
    add_u64(&mut ms, "total", &u.total);
    let mut uval: Vec<u8> = Vec::new();
    match u.unit {
        crate::events::UsageUnit::Characters => push_json_str(&mut uval, "CHARACTERS"),
        crate::events::UsageUnit::Tokens => push_json_str(&mut uval, "TOKENS"),
        crate::events::UsageUnit::Milliseconds => push_json_str(&mut uval, "MILLISECONDS"),
        crate::events::UsageUnit::Seconds => push_json_str(&mut uval, "SECONDS"),
        crate::events::UsageUnit::Images => push_json_str(&mut uval, "IMAGES"),
        crate::events::UsageUnit::Requests => push_json_str(&mut uval, "REQUESTS"),
    }
    add_req(&mut ms, "unit", uval);
    add_num(&mut ms, "inputCost", &u.input_cost);
    add_num(&mut ms, "outputCost", &u.output_cost);
    add_num(&mut ms, "totalCost", &u.total_cost);
    proof {
        assert(ms.deep_view() =~~= sp_usage_members(*u));
    }
    let mut out: Vec<u8> = Vec::new();
    push_obj(&mut out, &ms);
    out
}

/// The member an optional model-parameters field contributes.
pub open spec fn m_params(k: Seq<char>, v: Option<Vec<(String, ParamValue)>>) -> Seq<Seq<u8>> {
    match v {
        Some(ps) => seq![obj_member(k, sp_params_json(ps@))],
        None => seq![],
    }
}

/// The member an optional usage field contributes.
pub open spec fn m_usage(k: Seq<char>, v: Option<Usage>) -> Seq<Seq<u8>> {
    match v {
        Some(u) => seq![obj_member(k, sp_usage_json(u))],
        None => seq![],
    }
}

/// The member an optional token-count-map field contributes.
pub open spec fn m_counts(k: Seq<char>, v: Option<Vec<(String, u64)>>) -> Seq<Seq<u8>> {
    match v {
        Some(ds) => seq![obj_member(k, sp_counts_json(ds@))],
        None => seq![],
    }
}

/// The member an optional cost-map field contributes.
pub open spec fn m_costs(k: Seq<char>, v: Option<Vec<(String, JsonNum)>>) -> Seq<Seq<u8>> {
    match v {
        Some(cs) => seq![obj_member(k, sp_costs_json(cs@))],
        None => seq![],
    }
}

/// The members of an observation body, in wire order.
pub open spec fn sp_obs_members(o: ObservationBody) -> Seq<Seq<u8>> {
    m_str(("id")@, o.id) + m_str(("traceId")@, o.trace_id) + m_str(("name")@, o.name) + seq![
        obj_member(("startTime")@, json_str_bytes(o.start_time@)),
    ] + m_str(("endTime")@, o.end_time) + seq![
        obj_member(("level")@, json_str_bytes(sp_level(o.level))),
    ] + m_str(("statusMessage")@, o.status_message) + m_str(
        ("parentObservationId")@,
        o.parent_observation_id,
    ) + m_str(("input")@, o.input) + m_str(("output")@, o.output) + m_str(
        ("version")@,
        o.version,
    ) + m_str(("model")@, o.model) + m_params(("modelParameters")@, o.model_parameters) + m_usage(
        ("usage")@,
        o.usage,
    ) + m_counts(("usageDetails")@, o.usage_details) + m_costs(("costDetails")@, o.cost_details)
}

/// The wire text of an observation body.
pub open spec fn sp_obs_json(o: ObservationBody) -> Seq<u8> {
    sp_obj(sp_obs_members(o))
}

/// Renders an observation body.
pub fn obs_json(o: &ObservationBody) -> (r: Vec<u8>)
    ensures
        r@ == sp_obs_json(*o),
{
    let mut ms: Vec<Vec<u8>> = Vec::new();
    proof {
        assert(ms.deep_view() =~~= Seq::<Seq<u8>>::empty());
    }
    add_str(&mut ms, "id", &o.id);
    add_str(&mut ms, "traceId", &o.trace_id);
    add_str(&mut ms, "name", &o.name);
    let mut st: Vec<u8> = Vec::new();
    push_json_str(&mut st, o.start_time.as_str());
    add_req(&mut ms, "startTime", st);
    add_str(&mut ms, "endTime", &o.end_time);
    let mut lv: Vec<u8> = Vec::new();
    match o.level {
        crate::events::ObservationLevel::Debug => push_json_str(&mut lv, "DEBUG"),
        crate::events::ObservationLevel::Default => push_json_str(&mut lv, "DEFAULT"),
        crate::events::ObservationLevel::Warning => push_json_str(&mut lv, "WARNING"),
        crate::events::ObservationLevel::Error => push_json_str(&mut lv, "ERROR"),
    }
    add_req(&mut ms, "level", lv);
    add_str(&mut ms, "statusMessage", &o.status_message);
    add_str(&mut ms, "parentObservationId", &o.parent_observation_id);
    add_str(&mut ms, "input", &o.input);
    add_str(&mut ms, "output", &o.output);
    add_str(&mut ms, "version", &o.version);
    add_str(&mut ms, "model", &o.model);
    match &o.model_parameters {
        Some(ps) => {
            add_req(&mut ms, "modelParameters", params_json(ps));
            proof {
                assert(seq![obj_member(("modelParameters")@, sp_params_json(ps@))]
                    =~~= m_params(("modelParameters")@, o.model_parameters));
            }
        },
        None => {
            proof {
                assert(m_params(("modelParameters")@, o.model_parameters) =~~= Seq::<
                    Seq<u8>,
                >::empty());
            }
        },
    }
    match &o.usage {
        Some(u) => {
            add_req(&mut ms, "usage", usage_json(u));
            proof {
                assert(seq![obj_member(("usage")@, sp_usage_json(*u))] =~~= m_usage(
                    ("usage")@,
                    o.usage,
                ));
            }
        },
        None => {
            proof {
                assert(m_usage(("usage")@, o.usage) =~~= Seq::<Seq<u8>>::empty());
            }
        },
    }
    match &o.usage_details {
        Some(ds) => {
            add_req(&mut ms, "usageDetails", counts_json(ds));
            proof {
                assert(seq![obj_member(("usageDetails")@, sp_counts_json(ds@))] =~~= m_counts(
                    ("usageDetails")@,
                    o.usage_details,
                ));
            }
        },
        None => {
            proof {
                assert(m_counts(("usageDetails")@, o.usage_details) =~~= Seq::<Seq<u8>>::empty());
            }
        },
    }
    match &o.cost_details {
        Some(cs) => {
            add_req(&mut ms, "costDetails", costs_json(cs));
            proof {
                assert(seq![obj_member(("costDetails")@, sp_costs_json(cs@))] =~~= m_costs(
                    ("costDetails")@,
                    o.cost_details,
                ));
            }
        },
        None => {
            proof {
                assert(m_costs(("costDetails")@, o.cost_details) =~~= Seq::<Seq<u8>>::empty());
            }
        },
    }
    proof {
        assert(ms.deep_view() =~~= sp_obs_members(*o));
    }
    let mut out: Vec<u8> = Vec::new();
    push_obj(&mut out, &ms);
    out
}

/// The wire text of a score value.
pub open spec fn sp_score_val(v: ScoreValue) -> Seq<u8> {
    match v {
        ScoreValue::Numeric(n) => n.lit(),
        ScoreValue::Text(s) => json_str_bytes(s@),
    }
}

/// The members of a score body, in wire order.
pub open spec fn sp_score_members(sc: ScoreBody) -> Seq<Seq<u8>> {
    seq![
        obj_member(("traceId")@, json_str_bytes(sc.trace_id@)),
        obj_member(("name")@, json_str_bytes(sc.name@)),
        obj_member(("value")@, sp_score_val(sc.value)),
        obj_member(("dataType")@, json_str_bytes(sp_data_type(sc.data_type))),
    ] + m_str(("observationId")@, sc.observation_id) + m_str(("comment")@, sc.comment) + m_str(
        ("configId")@,
        sc.config_id,
    )
}

/// The wire text of a score body.
pub open spec fn sp_score_json(sc: ScoreBody) -> Seq<u8> {
    sp_obj(sp_score_members(sc))
}

/// Renders a score body.
pub fn score_json(sc: &ScoreBody) -> (r: Vec<u8>)
    ensures
        r@ == sp_score_json(*sc),
{
    let mut ms: Vec<Vec<u8>> = Vec::new();
    proof {
        assert(ms.deep_view() =~~= Seq::<Seq<u8>>::empty());
    }
    let mut tv: Vec<u8> = Vec::new();
    push_json_str(&mut tv, sc.trace_id.as_str());
    add_req(&mut ms, "traceId", tv);
    let mut nv: Vec<u8> = Vec::new();
    push_json_str(&mut nv, sc.name.as_str());
    add_req(&mut ms, "name", nv);
    let mut vv: Vec<u8> = Vec::new();
    match &sc.value {
        ScoreValue::Numeric(n) => push_bytes(&mut vv, n.render().as_slice()),
        ScoreValue::Text(s) => push_json_str(&mut vv, s.as_str()),
    }
    add_req(&mut ms, "value", vv);
    let mut dv: Vec<u8> = Vec::new();
    match sc.data_type {
        crate::events::ScoreDataType::Numeric => push_json_str(&mut dv, "NUMERIC"),
        crate::events::ScoreDataType::Boolean => push_json_str(&mut dv, "BOOLEAN"),
        crate::events::ScoreDataType::Categorical => push_json_str(&mut dv, "CATEGORICAL"),
    }
    add_req(&mut ms, "dataType", dv);
    add_str(&mut ms, "observationId", &sc.observation_id);
    add_str(&mut ms, "comment", &sc.comment);
    add_str(&mut ms, "configId", &sc.config_id);
    proof {
        assert(ms.deep_view() =~~= sp_score_members(*sc));
    }
    let mut out: Vec<u8> = Vec::new();
    push_obj(&mut out, &ms);
    out
}

/// The wire text of an event body.
pub open spec fn sp_body_json(b: EventBody) -> Seq<u8> {
    match b {
        EventBody::Trace(t) => sp_trace_json(t),
        EventBody::Span(o) => sp_obs_json(o),
        EventBody::Generation(o) => sp_obs_json(o),
        EventBody::Event(o) => sp_obs_json(o),
        EventBody::Observation(o) => sp_obs_json(o),
        EventBody::Score(sc) => sp_score_json(sc),
        EventBody::SdkLog(r) => r.lit(),
    }
}

/// Renders an event body.
pub fn body_json(b: &EventBody) -> (r: Vec<u8>)
    ensures
        r@ == sp_body_json(*b),
{
    match b {
        EventBody::Trace(t) => trace_json(t),
        EventBody::Span(o) => obs_json(o),
        EventBody::Generation(o) => obs_json(o),
        EventBody::Event(o) => obs_json(o),
        EventBody::Observation(o) => obs_json(o),
        EventBody::Score(sc) => score_json(sc),
        EventBody::SdkLog(raw) => raw.render(),
    }
}

/// The members of an event envelope, in wire order: id, timestamp,
/// kind tag, optional metadata, body.
pub open spec fn sp_event_members(e: LangfuseEvent) -> Seq<Seq<u8>> {
    seq![
        obj_member(("id")@, json_str_bytes(e.id@)),
        obj_member(("timestamp")@, json_str_bytes(e.timestamp@)),
        obj_member(("type")@, json_str_bytes(sp_type_tag(e.event_type))),
    ] + m_raw(("metadata")@, e.metadata) + seq![obj_member(("body")@, sp_body_json(e.body))]
}

/// The wire text of one event.
pub open spec fn sp_event_json(e: LangfuseEvent) -> Seq<u8> {
    sp_obj(sp_event_members(e))
}

/// Renders one event.
pub fn event_json(e: &LangfuseEvent) -> (r: Vec<u8>)
    ensures
        r@ == sp_event_json(*e),
{
    let mut ms: Vec<Vec<u8>> = Vec::new();
    proof {
        assert(ms.deep_view() =~~= Seq::<Seq<u8>>::empty());
    }
    let mut iv: Vec<u8> = Vec::new();
    push_json_str(&mut iv, e.id.as_str());
    add_req(&mut ms, "id", iv);
    let mut tsv: Vec<u8> = Vec::new();
    push_json_str(&mut tsv, e.timestamp.as_str());
    add_req(&mut ms, "timestamp", tsv);
    let mut tyv: Vec<u8> = Vec::new();
    match e.event_type {
        crate::events::EventType::TraceCreate => push_json_str(&mut tyv, "trace-create"),
        crate::events::EventType::SpanCreate => push_json_str(&mut tyv, "span-create"),
        crate::events::EventType::GenerationCreate => push_json_str(&mut tyv, "generation-create"),
        crate::events::EventType::EventCreate => push_json_str(&mut tyv, "event-create"),
        crate::events::EventType::ObservationCreate => push_json_str(
            &mut tyv,
            "observation-create",
        ),
        crate::events::EventType::ScoreCreate => push_json_str(&mut tyv, "score-create"),
        crate::events::EventType::SdkLog => push_json_str(&mut tyv, "sdk-log"),
    }
    add_req(&mut ms, "type", tyv);
    add_raw(&mut ms, "metadata", &e.metadata);
    add_req(&mut ms, "body", body_json(&e.body));
    proof {
        assert(ms.deep_view() =~~= sp_event_members(*e));
    }
    let mut out: Vec<u8> = Vec::new();
    push_obj(&mut out, &ms);
    out
}

/// The wire text of a whole batch payload: one object whose single
/// member `batch` holds the events in order.
pub open spec fn sp_batch_json(es: Seq<LangfuseEvent>) -> Seq<u8> {
    sp_obj(
        seq![
            obj_member(("batch")@, sp_arr(es.map_values(|e: LangfuseEvent| sp_event_json(e)))),
        ],
    )
}

/// A trace body with every optional field unset serializes to the
/// empty JSON object: unset fields are omitted from the wire payload
/// entirely, never sent as `null`.
pub proof fn lemma_empty_trace_omits_fields(t: TraceBody)
    requires
        t.id is None,
        t.timestamp is None,
        t.name is None,
        t.user_id is None,
        t.session_id is None,
        t.input is None,
        t.output is None,
        t.metadata is None,
        t.tags is None,
        t.release is None,
        t.version is None,
        t.public is None,
    ensures
        sp_trace_json(t) == seq![123u8, 125u8],
{
    assert(sp_trace_members(t) =~= Seq::<Seq<u8>>::empty());
    assert(sp_trace_json(t) =~= seq![123u8, 125u8]);
}

/// An observation body with every optional field unset contributes
/// exactly its two required members, the start time and the level:
/// unset fields are omitted from the wire payload entirely, never
/// sent as `null`.
pub proof fn lemma_minimal_observation_members(o: ObservationBody)
    requires
        o.id is None,
        o.trace_id is None,
        o.name is None,
        o.end_time is None,
        o.status_message is None,
        o.parent_observation_id is None,
        o.input is None,
        o.output is None,
        o.version is None,
        o.model is None,
        o.model_parameters is None,
        o.usage is None,
        o.usage_details is None,
        o.cost_details is None,
    ensures
        sp_obs_members(o) == seq![
            obj_member(("startTime")@, json_str_bytes(o.start_time@)),
            obj_member(("level")@, json_str_bytes(sp_level(o.level))),
        ],
{
    assert(sp_obs_members(o) =~= seq![
        obj_member(("startTime")@, json_str_bytes(o.start_time@)),
        obj_member(("level")@, json_str_bytes(sp_level(o.level))),
    ]);
}

/// Renders a whole batch payload.
pub fn batch_json(es: &Vec<LangfuseEvent>) -> (r: Vec<u8>)
    ensures
        r@ == sp_batch_json(es@),
{
    let mut elems: Vec<Vec<u8>> = Vec::new();
    let mut i: usize = 0;
    while i < es.len()
        invariant
            0 <= i <= es@.len(),
            elems.deep_view() == es@.take(i as int).map_values(
                |e: LangfuseEvent| sp_event_json(e),
            ),
        decreases es@.len() - i,
    {
        let v = event_json(&es[i]);
        let ghost dv0 = elems.deep_view();
        elems.push(v);
        proof {
            lemma_map_push(es@.take(i as int), |e: LangfuseEvent| sp_event_json(e), es@[i as int]);
            assert(es@.take(i + 1 as int) =~= es@.take(i as int).push(es@[i as int]));
            assert(elems.deep_view() =~~= dv0.push(v@));
            assert(elems.deep_view() =~~= es@.take(i + 1 as int).map_values(
                |e: LangfuseEvent| sp_event_json(e),
            ));
        }
        i = i + 1;
    }
    proof {
        assert(es@.take(es@.len() as int) =~= es@);
    }
    let mut av: Vec<u8> = Vec::new();
    push_arr(&mut av, &elems);
    let mut ms: Vec<Vec<u8>> = Vec::new();
    ms.push(member("batch", av));
    proof {
        assert(ms.deep_view() =~~= seq![
            obj_member(
                ("batch")@,
                sp_arr(es@.map_values(|e: LangfuseEvent| sp_event_json(e))),
            ),
        ]);
    }
    let mut out: Vec<u8> = Vec::new();
    push_obj(&mut out, &ms);
    out
}

} // verus!
