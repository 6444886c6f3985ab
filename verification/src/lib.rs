//! A verified client library for the Langfuse ingestion API.
//!
//! The library models the event schema (traces, observations, scores),
//! serializes events to the JSON wire format with an exact byte-level
//! specification, builds ingestion requests with basic-auth headers,
//! parses response bodies, and classifies replies into typed results.
//! All logic is verified; network transport and the clock belong to
//! the surrounding application, which hands in plain values.

pub mod client;
pub mod error;
pub mod events;
pub mod ext;
pub mod interaction;
pub mod jsonenc;
pub mod parse;
pub mod serialize;
pub mod types;

pub use client::HttpReply;
pub use client::IngestionRequest;
pub use client::PreparedRequest;
pub use client::TraceHandle;
pub use client::classify_response;
pub use client::create_trace_request;
pub use client::ingestion_request;
pub use client::track_span_request;
pub use error::LangFuseTrackerError;
pub use events::EventBody;
pub use events::EventType;
pub use events::LangfuseEvent;
pub use events::ObservationBody;
pub use events::ObservationLevel;
pub use events::ScoreBody;
pub use events::ScoreDataType;
pub use events::ScoreValue;
pub use events::TraceBody;
pub use events::Usage;
pub use events::UsageUnit;
pub use events::ParamScalar;
pub use events::ParamValue;
pub use interaction::interaction_request;
pub use jsonenc::JsonNum;
pub use parse::ErrItem;
pub use parse::RawJson;
pub use types::InteractionMetadata;
pub use types::LangFuseConfig;
pub use types::TokenUsage;
