//! Configuration and the interaction-level metadata records.

use vstd::prelude::*;

verus! {

/// Immutable credentials and endpoint for one Langfuse project:
/// a public key and secret key for basic authentication, and the
/// base URL of the instance to ingest into.
pub struct LangFuseConfig {
    pub public_key: String,
    pub secret_key: String,
    pub base_url: String,
}

impl LangFuseConfig {
    /// Builds a configuration from the three credential strings.
    pub fn new(public_key: &str, secret_key: &str, base_url: &str) -> (r: Self)
        ensures
            r.public_key@ == public_key@,
            r.secret_key@ == secret_key@,
            r.base_url@ == base_url@,
    {
        Self {
            public_key: public_key.to_owned(),
            secret_key: secret_key.to_owned(),
            base_url: base_url.to_owned(),
        }
    }
}

/// Token counts for one model invocation.
pub struct TokenUsage {
    pub input_tokens: u32,
    pub output_tokens: u32,
    pub total_tokens: u32,
}

impl TokenUsage {
    /// Copies the three counts into a fresh record.
    pub fn duplicate(&self) -> (r: Self)
        ensures
            r.input_tokens == self.input_tokens,
            r.output_tokens == self.output_tokens,
            r.total_tokens == self.total_tokens,
    {
        Self {
            input_tokens: self.input_tokens,
            output_tokens: self.output_tokens,
            total_tokens: self.total_tokens,
        }
    }
}

/// Metadata attached to one tracked interaction: latency, outcome
/// status, the model involved, token usage, and the raw response text.
pub struct InteractionMetadata {
    pub processing_time_ms: u128,
    pub status: String,
    pub model: String,
    pub token_usage: Option<TokenUsage>,
    pub raw_response: Option<String>,
    pub timestamp_utc: String,
}

impl InteractionMetadata {
    /// Assembles the metadata record. The status field is the literal
    /// text "error" when the interaction failed and "success" otherwise;
    /// an absent model name is reported as "unknown". The timestamp text
    /// is supplied by the caller, who holds the clock.
    pub fn new(
        processing_time_ms: u128,
        is_error: bool,
        model_name: Option<&str>,
        token_usage: Option<&TokenUsage>,
        raw_response: Option<&str>,
        timestamp_utc: String,
    ) -> (r: Self)
        ensures
            r.processing_time_ms == processing_time_ms,
            is_error ==> r.status@ == ("error")@,
            !is_error ==> r.status@ == ("success")@,
            match model_name {
                Some(m) => r.model@ == m@,
                None => r.model@ == ("unknown")@,
            },
            match token_usage {
                Some(u) => r.token_usage matches Some(t) && t.input_tokens == u.input_tokens
                    && t.output_tokens == u.output_tokens && t.total_tokens == u.total_tokens,
                None => r.token_usage is None,
            },
            match raw_response {
                Some(s) => r.raw_response matches Some(t) && t@ == s@,
                None => r.raw_response is None,
            },
            r.timestamp_utc@ == timestamp_utc@,
    {
        let status: &str = if is_error {
            "error"
        } else {
            "success"
        };
        let model: &str = match model_name {
            Some(m) => m,
            None => "unknown",
        };
        Self {
            processing_time_ms,
            status: status.to_owned(),
            model: model.to_owned(),
            token_usage: match token_usage {
                Some(u) => Some(u.duplicate()),
                None => None,
            },
            raw_response: match raw_response {
                Some(s) => Some(s.to_owned()),
                None => None,
            },
            timestamp_utc,
        }
    }
}

} // verus!
