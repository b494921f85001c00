use vstd::prelude::*;

verus! {

/// One entry of the structured message array the remote provider expects.
#[derive(Debug, Clone, PartialEq)]
pub struct Message {
    pub role: String,
    pub content: String,
}

impl Message {
    /// The fixed system-role preamble that opens every conversation sent to
    /// the remote provider.
    pub fn helper() -> (r: Message)
        ensures
            r.role@ == "system"@,
            r.content@ == "You are a customer service staff."@,
    {
        Message { role: "system".to_owned(), content: "You are a customer service staff.".to_owned() }
    }

    /// Wraps the user's text as a user-role message.
    pub fn from_msg(msg: String) -> (r: Message)
        ensures
            r.role@ == "user"@,
            r.content@ == msg@,
    {
        Message { role: "user".to_owned(), content: msg }
    }
}

/// The request body for the remote provider: a system preamble followed by the
/// user's message, with the provider's model identity fixed by the dispatcher.
/// The serialization layer adds the fixed sampling temperature when it builds
/// the wire form.
#[derive(Debug, Clone, PartialEq)]
pub struct ChatRequest {
    pub messages: Vec<Message>,
    pub model: String,
    pub stream: bool,
}

impl ChatRequest {
    /// Builds the full remote-provider request for one user message: the
    /// system preamble, then the user's text, with streaming off.
    pub fn from_msg(msg: String) -> (r: ChatRequest)
        ensures
            r.messages@.len() == 2,
            r.messages@[0].role@ == "system"@,
            r.messages@[0].content@ == "You are a customer service staff."@,
            r.messages@[1].role@ == "user"@,
            r.messages@[1].content@ == msg@,
            r.model@ == "grok-beta"@,
            r.stream == false,
    {
        let mut messages: Vec<Message> = Vec::new();
        messages.push(Message::helper());
        messages.push(Message::from_msg(msg));
        ChatRequest { messages, model: "grok-beta".to_owned(), stream: false }
    }
}

/// The remote provider's response body, as its wire format defines it.
#[derive(Debug, Clone, PartialEq)]
pub struct ChatResponse {
    pub id: String,
    pub object: String,
    pub created: u64,
    pub model: String,
    pub choices: Vec<Choice>,
    pub usage: Usage,
    pub system_fingerprint: String,
}

/// One completion choice of the remote provider's response.
#[derive(Debug, Clone, PartialEq)]
pub struct Choice {
    pub index: u32,
    pub message: AssistantMessage,
    pub finish_reason: String,
}

/// The assistant message inside a completion choice.
#[derive(Debug, Clone, PartialEq)]
pub struct AssistantMessage {
    pub role: String,
    pub content: String,
    pub refusal: Option<String>,
}

/// Token accounting reported by the remote provider.
#[derive(Debug, Clone, PartialEq)]
pub struct Usage {
    pub prompt_tokens: u32,
    pub completion_tokens: u32,
    pub total_tokens: u32,
    pub prompt_tokens_details: PromptTokensDetails,
}

/// The prompt-token breakdown inside `Usage`.
#[derive(Debug, Clone, PartialEq)]
pub struct PromptTokensDetails {
    pub text_tokens: u32,
    pub audio_tokens: u32,
    pub image_tokens: u32,
    pub cached_tokens: u32,
}

} // verus!
