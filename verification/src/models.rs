//! The gateway's data shapes: the uniform request and response, and the
//! remote provider's wire structures under `xai`.

pub mod xai;

use vstd::prelude::*;

verus! {

/// An inbound chat request after parsing: the user's message and the model it
/// asks for. When the caller names no model, `default_model` is used.
#[derive(Debug, Clone, PartialEq)]
pub struct ChatRequest {
    pub message: String,
    pub model: String,
}

/// The model assumed when an inbound request names none.
pub fn default_model() -> (r: String)
    ensures
        r@ == "llama2"@,
{
    "llama2".to_owned()
}

impl ChatRequest {
    /// Builds a request, filling in the default model where the caller gave
    /// none.
    pub fn new(message: String, model: Option<String>) -> (r: ChatRequest)
        ensures
            r.message == message,
            match model {
                Some(m) => r.model == m,
                None => r.model@ == "llama2"@,
            },
    {
        let model = match model {
            Some(m) => m,
            None => default_model(),
        };
        ChatRequest { message, model }
    }
}

/// The gateway's uniform output shape, independent of which provider answered.
#[derive(Debug, Clone, PartialEq)]
pub struct ChatResponse {
    pub message: String,
    pub model: String,
}

impl ChatResponse {
    /// Normalizes a remote-provider response by taking the first choice's
    /// message content. The caller must have checked that a choice exists.
    pub fn from_xai(res: crate::models::xai::ChatResponse) -> (r: ChatResponse)
        requires
            res.choices@.len() > 0,
        ensures
            r.message@ == res.choices@[0].message.content@,
            r.model == res.model,
    {
        ChatResponse { message: res.choices[0].message.content.clone(), model: res.model }
    }
}

} // verus!
