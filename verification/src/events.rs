//! The event schema: a closed set of typed body variants wrapped in an
//! envelope whose kind tag always matches the body variant.

use vstd::prelude::*;
use crate::jsonenc::JsonNum;
use crate::parse::RawJson;

verus! {

/// Severity level of an observation.
pub enum ObservationLevel {
    Debug,
    Default,
    Warning,
    Error,
}

/// The wire text of a level.
pub open spec fn sp_level(l: ObservationLevel) -> Seq<char> {
    match l {
        ObservationLevel::Debug => ("DEBUG")@,
        ObservationLevel::Default => ("DEFAULT")@,
        ObservationLevel::Warning => ("WARNING")@,
        ObservationLevel::Error => ("ERROR")@,
    }
}

/// The unit a usage record counts in.
pub enum UsageUnit {
    Characters,
    Tokens,
    Milliseconds,
    Seconds,
    Images,
    Requests,
}

/// The wire text of a unit.
pub open spec fn sp_unit(u: UsageUnit) -> Seq<char> {
    match u {
        UsageUnit::Characters => ("CHARACTERS")@,
        UsageUnit::Tokens => ("TOKENS")@,
        UsageUnit::Milliseconds => ("MILLISECONDS")@,
        UsageUnit::Seconds => ("SECONDS")@,
        UsageUnit::Images => ("IMAGES")@,
        UsageUnit::Requests => ("REQUESTS")@,
    }
}

/// Counts and costs of one model invocation. Costs are carried as
/// validated JSON number literals, so fractional amounts keep their
/// exact wire form.
pub struct Usage {
    pub input: Option<u64>,
    pub output: Option<u64>,
    pub total: Option<u64>,
    pub unit: UsageUnit,
    pub input_cost: Option<JsonNum>,
    pub output_cost: Option<JsonNum>,
    pub total_cost: Option<JsonNum>,
}

/// One scalar model parameter.
pub enum ParamScalar {
    Text(String),
    Int(i64),
    Num(JsonNum),
    Flag(bool),
}

/// A model parameter: one scalar or a list of scalars.
pub enum ParamValue {
    One(ParamScalar),
    Many(Vec<ParamScalar>),
}

/// The body of a trace event. Every field is optional; absent fields
/// are left out of the wire payload entirely.
pub struct TraceBody {
    pub id: Option<String>,
    pub timestamp: Option<String>,
    pub name: Option<String>,
    pub user_id: Option<String>,
    pub session_id: Option<String>,
    pub input: Option<String>,
    pub output: Option<String>,
    pub metadata: Option<RawJson>,
    pub tags: Option<Vec<String>>,
    pub release: Option<String>,
    pub version: Option<String>,
    pub public: Option<bool>,
}

impl TraceBody {
    /// A trace body with every optional field unset.
    pub fn empty() -> (r: TraceBody)
        ensures
            r.id is None,
            r.timestamp is None,
            r.name is None,
            r.user_id is None,
            r.session_id is None,
            r.input is None,
            r.output is None,
            r.metadata is None,
            r.tags is None,
            r.release is None,
            r.version is None,
            r.public is None,
    {
        TraceBody {
            id: None,
            timestamp: None,
            name: None,
            user_id: None,
            session_id: None,
            input: None,
            output: None,
            metadata: None,
            tags: None,
            release: None,
            version: None,
            public: None,
        }
    }
}

/// The body of a span, generation, event or observation event. The
/// start time is required; ordering against the end time is not
/// validated here, as the service accepts either order.
pub struct ObservationBody {
    pub id: Option<String>,
    pub trace_id: Option<String>,
    pub name: Option<String>,
    pub start_time: String,
    pub end_time: Option<String>,
    pub level: ObservationLevel,
    pub status_message: Option<String>,
    pub parent_observation_id: Option<String>,
    pub input: Option<String>,
    pub output: Option<String>,
    pub version: Option<String>,
    pub model: Option<String>,
    pub model_parameters: Option<Vec<(String, ParamValue)>>,
    pub usage: Option<Usage>,
    pub usage_details: Option<Vec<(String, u64)>>,
    pub cost_details: Option<Vec<(String, JsonNum)>>,
}

impl ObservationBody {
    /// An observation body with the given start time, default level,
    /// and every optional field unset.
    pub fn at(start_time: String) -> (r: ObservationBody)
        ensures
            r.start_time@ == start_time@,
            r.level is Default,
            r.id is None,
            r.trace_id is None,
            r.name is None,
            r.end_time is None,
            r.status_message is None,
            r.parent_observation_id is None,
            r.input is None,
            r.output is None,
            r.version is None,
            r.model is None,
            r.model_parameters is None,
            r.usage is None,
            r.usage_details is None,
            r.cost_details is None,
    {
        ObservationBody {
            id: None,
            trace_id: None,
            name: None,
            start_time,
            end_time: None,
            level: ObservationLevel::Default,
            status_message: None,
            parent_observation_id: None,
            input: None,
            output: None,
            version: None,
            model: None,
            model_parameters: None,
            usage: None,
            usage_details: None,
            cost_details: None,
        }
    }
}

/// How a score value is typed on the wire.
pub enum ScoreDataType {
    Numeric,
    Boolean,
    Categorical,
}

/// The wire text of a score data type.
pub open spec fn sp_data_type(d: ScoreDataType) -> Seq<char> {
    match d {
        ScoreDataType::Numeric => ("NUMERIC")@,
        ScoreDataType::Boolean => ("BOOLEAN")@,
        ScoreDataType::Categorical => ("CATEGORICAL")@,
    }
}

/// A score value: a number or a string.
pub enum ScoreValue {
    Numeric(JsonNum),
    Text(String),
}

/// The body of a score event.
pub struct ScoreBody {
    pub trace_id: String,
    pub name: String,
    pub value: ScoreValue,
    pub data_type: ScoreDataType,
    pub observation_id: Option<String>,
    pub comment: Option<String>,
    pub config_id: Option<String>,
}

/// The closed set of body variants.
pub enum EventBody {
    Trace(TraceBody),
    Span(ObservationBody),
    Generation(ObservationBody),
    Event(ObservationBody),
    Observation(ObservationBody),
    Score(ScoreBody),
    SdkLog(RawJson),
}

/// The kind tag an envelope carries.
pub enum EventType {
    TraceCreate,
    SpanCreate,
    GenerationCreate,
    EventCreate,
    ObservationCreate,
    ScoreCreate,
    SdkLog,
}

/// The wire text of a kind tag.
pub open spec fn sp_type_tag(t: EventType) -> Seq<char> {
    match t {
        EventType::TraceCreate => ("trace-create")@,
        EventType::SpanCreate => ("span-create")@,
        EventType::GenerationCreate => ("generation-create")@,
        EventType::EventCreate => ("event-create")@,
        EventType::ObservationCreate => ("observation-create")@,
        EventType::ScoreCreate => ("score-create")@,
        EventType::SdkLog => ("sdk-log")@,
    }
}

/// The kind tag that belongs to a body variant.
pub open spec fn sp_type_of(b: EventBody) -> EventType {
    match b {
        EventBody::Trace(_) => EventType::TraceCreate,
        EventBody::Span(_) => EventType::SpanCreate,
        EventBody::Generation(_) => EventType::GenerationCreate,
        EventBody::Event(_) => EventType::EventCreate,
        EventBody::Observation(_) => EventType::ObservationCreate,
        EventBody::Score(_) => EventType::ScoreCreate,
        EventBody::SdkLog(_) => EventType::SdkLog,
    }
}

/// One event: an envelope with a fresh id, its kind tag, a timestamp,
/// optional metadata, and a body. Built through [`LangfuseEvent::new`],
/// which derives the tag from the body, so the envelope invariant
/// holds by construction.
pub struct LangfuseEvent {
    pub id: String,
    pub event_type: EventType,
    pub timestamp: String,
    pub metadata: Option<RawJson>,
    pub body: EventBody,
}

impl LangfuseEvent {
    /// The envelope invariant: the kind tag matches the body variant.
    pub open spec fn wf(&self) -> bool {
        self.event_type == sp_type_of(self.body)
    }

    /// Wraps a body in an envelope, deriving the kind tag from the
    /// body variant.
    pub fn new(id: String, timestamp: String, metadata: Option<RawJson>, body: EventBody) -> (r:
        LangfuseEvent)
        ensures
            r.wf(),
            r.id@ == id@,
            r.timestamp@ == timestamp@,
            r.metadata == metadata,
            r.body == body,
    {
        let event_type = match &body {
            EventBody::Trace(_) => EventType::TraceCreate,
            EventBody::Span(_) => EventType::SpanCreate,
            EventBody::Generation(_) => EventType::GenerationCreate,
            EventBody::Event(_) => EventType::EventCreate,
            EventBody::Observation(_) => EventType::ObservationCreate,
            EventBody::Score(_) => EventType::ScoreCreate,
            EventBody::SdkLog(_) => EventType::SdkLog,
        };
        LangfuseEvent { id, event_type, timestamp, metadata, body }
    }
}

} // verus!
