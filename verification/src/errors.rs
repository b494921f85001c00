//! The dispatcher's failure type: one variant per provider, each carrying
//! its human-readable detail.

use vstd::prelude::*;
use vstd::string::StringExecFns;

verus! {

/// A provider failure, as the dispatch layer reports it: either the local
/// provider (Ollama) or the remote provider (XAI) could not produce a usable
/// response. The carried string is the human-readable detail.
#[derive(Debug, Clone)]
pub enum ServiceError {
    OllamaApiError(String),
    XaiApiError(String),
}

impl ServiceError {
    /// The detail string carried by the error, without the provider prefix.
    pub open spec fn detail_spec(&self) -> Seq<char> {
        match self {
            ServiceError::OllamaApiError(m) => m@,
            ServiceError::XaiApiError(m) => m@,
        }
    }

    /// The full rendering of the error, provider prefix included.
    pub open spec fn message_spec(&self) -> Seq<char> {
        match self {
            ServiceError::OllamaApiError(m) => "Ollama API error: "@ + m@,
            ServiceError::XaiApiError(m) => "XAI API error: "@ + m@,
        }
    }

    /// Renders the error as a single line, prefixed with the provider it
    /// concerns.
    pub fn message(&self) -> (r: String)
        ensures
            r@ == self.message_spec(),
    {
        match self {
            ServiceError::OllamaApiError(m) => "Ollama API error: ".to_owned().concat(m.as_str()),
            ServiceError::XaiApiError(m) => "XAI API error: ".to_owned().concat(m.as_str()),
        }
    }

    /// The detail string alone, for callers that add their own framing.
    pub fn detail(&self) -> (r: String)
        ensures
            r@ == self.detail_spec(),
    {
        match self {
            ServiceError::OllamaApiError(m) => m.clone(),
            ServiceError::XaiApiError(m) => m.clone(),
        }
    }
}

} // verus!
