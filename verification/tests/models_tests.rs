use rs_api::models::xai::{AssistantMessage, Choice, Message, PromptTokensDetails, Usage};
use rs_api::models::{default_model, ChatRequest, ChatResponse};

#[test]
fn default_model_is_llama2() {
    assert_eq!(default_model(), "llama2");
}

#[test]
fn request_without_model_gets_the_default() {
    let r = ChatRequest::new(String::from("hi"), None);
    assert_eq!(r.message, "hi");
    assert_eq!(r.model, "llama2");
}

#[test]
fn request_with_model_keeps_it() {
    let r = ChatRequest::new(String::from("hi"), Some(String::from("mistral")));
    assert_eq!(r.model, "mistral");
}

#[test]
fn helper_is_the_system_preamble() {
    let m = Message::helper();
    assert_eq!(m.role, "system");
    assert_eq!(m.content, "You are a customer service staff.");
}

#[test]
fn from_msg_wraps_the_user_text() {
    let m = Message::from_msg(String::from("hello there"));
    assert_eq!(m.role, "user");
    assert_eq!(m.content, "hello there");
}

#[test]
fn xai_request_holds_preamble_then_user_message() {
    let r = rs_api::models::xai::ChatRequest::from_msg(String::from("refund please"));
    assert_eq!(r.model, "grok-beta");
    assert!(!r.stream);
    assert_eq!(r.messages.len(), 2);
    assert_eq!(r.messages[0].role, "system");
    assert_eq!(r.messages[0].content, "You are a customer service staff.");
    assert_eq!(r.messages[1].role, "user");
    assert_eq!(r.messages[1].content, "refund please");
}

#[test]
fn from_xai_takes_first_choice_content_and_model() {
    let res = rs_api::models::xai::ChatResponse {
        id: String::from("cmpl-2"),
        object: String::from("chat.completion"),
        created: 1,
        model: String::from("grok-beta"),
        choices: vec![Choice {
            index: 0,
            message: AssistantMessage {
                role: String::from("assistant"),
                content: String::from("hello!"),
                refusal: None,
            },
            finish_reason: String::from("stop"),
        }],
        usage: Usage {
            prompt_tokens: 3,
            completion_tokens: 2,
            total_tokens: 5,
            prompt_tokens_details: PromptTokensDetails {
                text_tokens: 3,
                audio_tokens: 0,
                image_tokens: 0,
                cached_tokens: 0,
            },
        },
        system_fingerprint: String::from("fp"),
    };
    let normalized = ChatResponse::from_xai(res);
    assert_eq!(normalized.message, "hello!");
    assert_eq!(normalized.model, "grok-beta");
}
