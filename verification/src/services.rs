//! Provider dispatch, one call staged as: build the plan, send (outside
//! this crate), validate the status, parse, normalize. Everything that
//! decides — what is sent, which status fails, which default fills a missing
//! field — lives here with a contract; the transport hands values in and
//! out.

use vstd::prelude::*;
use vstd::string::StringExecFns;
use crate::errors::ServiceError;
use crate::models::{ChatRequest, ChatResponse};

verus! {

// ---------------------------------------------------------------------------
// JSON documents of the outside crate, read through trusted items.
// ---------------------------------------------------------------------------

#[verifier::external_type_specification]
#[verifier::external_body]
pub struct ExValue(serde_json::Value);

/// What a JSON document's top-level string members hold: for each key whose
/// member is a string, that string's characters. The result depends on the
/// document alone.
pub uninterp spec fn json_text_fields(v: serde_json::Value) -> Map<Seq<char>, Seq<char>>;

/// What one nested read of a JSON document yields: for each element of the
/// array stored under `list_key` (the empty sequence when the document has no
/// such array), the string stored under `item_key` of that element, if that
/// member is a string. The result depends on the document and the keys alone.
pub uninterp spec fn json_item_texts(
    v: serde_json::Value,
    list_key: Seq<char>,
    item_key: Seq<char>,
) -> Seq<Option<Seq<char>>>;

/// Relies on serde_json::Value::get and Value::as_str: the string member
/// stored under `key` at the document's top level, or nothing when the
/// document is no object, lacks the key, or holds a non-string there.
#[verifier::external_body]
fn json_text_field(v: &serde_json::Value, key: &str) -> (r: Option<String>)
    ensures
        match r {
            Some(s) => json_text_fields(*v).contains_key(key@) && s@ == json_text_fields(*v)[key@],
            None => !json_text_fields(*v).contains_key(key@),
        },
{
    v.get(key).and_then(|x| x.as_str()).map(|s| s.to_string())
}

/// Relies on serde_json::Value::get, Value::as_array and Value::as_str: maps
/// each element of the array under `list_key` to the string it stores under
/// `item_key`.
#[verifier::external_body]
fn json_item_texts_of(v: &serde_json::Value, list_key: &str, item_key: &str) -> (r: Vec<
    Option<String>,
>)
    ensures
        r.deep_view() == json_item_texts(*v, list_key@, item_key@),
{
    match v.get(list_key).and_then(|x| x.as_array()) {
        Some(arr) => arr.iter().map(
            |m: &serde_json::Value| m.get(item_key).and_then(|x| x.as_str()).map(|s| s.to_string()),
        ).collect(),
        None => Vec::new(),
    }
}

// ---------------------------------------------------------------------------
// Status validation, shared by both providers.
// ---------------------------------------------------------------------------

/// Whether an HTTP status is a success.
pub open spec fn is_success_status(status: u16) -> bool {
    200 <= status < 300
}

// ---------------------------------------------------------------------------
// The local provider (Ollama): plan, normalization, catalog.
// ---------------------------------------------------------------------------

/// The default base address of the local provider.
pub fn default_ollama_base_url() -> (r: String)
    ensures
        r@ == "http://localhost:11434"@,
{
    "http://localhost:11434".to_owned()
}

/// Everything the transport layer needs to place the local-provider call:
/// the target address and the payload fields `{model, prompt, stream}`.
pub struct OllamaCallPlan {
    pub url: String,
    pub model: String,
    pub prompt: String,
    pub stream: bool,
}

/// Builds the local-provider call for a chat request: POST to the
/// generation endpoint under the given base address, sending the requested
/// model, the user's message as the prompt, and streaming off.
pub fn ollama_chat_plan(request: &ChatRequest, base_url: &str) -> (r: OllamaCallPlan)
    ensures
        r.url@ == base_url@ + "/api/generate"@,
        r.model == request.model,
        r.prompt == request.message,
        r.stream == false,
{
    OllamaCallPlan {
        url: base_url.to_owned().concat("/api/generate"),
        model: request.model.clone(),
        prompt: request.message.clone(),
        stream: false,
    }
}

/// The error line for a non-success upstream status of the local provider:
/// it carries the transport's rendered status line and the response body
/// text verbatim.
pub open spec fn ollama_status_error_spec(status_line: Seq<char>, body: Seq<char>) -> Seq<char> {
    "Ollama API returned error: "@ + status_line + " - "@ + body
}

/// Validates the local call's HTTP status before anything is parsed — the
/// dispatch state machine validates the status of every provider call, so a
/// local provider answering with an error status fails typed instead of
/// having its error body read as a chat response. The status arrives twice:
/// as the numeric code, which decides success, and as the transport's
/// rendered line, which the error message carries word for word.
pub fn ollama_evaluate_status(status: u16, status_line: String, body: String) -> (r: Result<
    String,
    ServiceError,
>)
    ensures
        match r {
            Ok(b) => is_success_status(status) && b == body,
            Err(e) => {
                &&& !is_success_status(status)
                &&& e matches ServiceError::OllamaApiError(m) && m@ == ollama_status_error_spec(
                    status_line@,
                    body@,
                )
            },
        },
{
    if 200 <= status && status < 300 {
        Ok(body)
    } else {
        let mut msg = "Ollama API returned error: ".to_owned();
        msg.append(status_line.as_str());
        msg.append(" - ");
        msg.append(body.as_str());
        Err(ServiceError::OllamaApiError(msg))
    }
}

/// The message a local-provider response body normalizes to: its `response`
/// string member, or the literal default when the field is absent or not a
/// string.
pub open spec fn ollama_message_spec(fields: Map<Seq<char>, Seq<char>>) -> Seq<char> {
    if fields.contains_key("response"@) {
        fields["response"@]
    } else {
        "No response"@
    }
}

/// Normalizes a local-provider response document into the gateway's uniform
/// shape: the `response` string, with the documented default `"No response"`
/// substituted when the field is missing or malformed, and the requested
/// model carried through.
pub fn ollama_conclude(body: &serde_json::Value, model: String) -> (r: ChatResponse)
    ensures
        r.message@ == ollama_message_spec(json_text_fields(*body)),
        r.model == model,
{
    let message = match json_text_field(body, "response") {
        Some(s) => s,
        None => "No response".to_owned(),
    };
    ChatResponse { message, model }
}

/// The address of the local provider's catalog endpoint under a base
/// address.
pub fn ollama_models_plan(base_url: &str) -> (r: String)
    ensures
        r@ == base_url@ + "/api/tags"@,
{
    base_url.to_owned().concat("/api/tags")
}

/// The entries that are present, kept in order, the rest dropped.
pub open spec fn present_texts_spec(items: Seq<Option<Seq<char>>>) -> Seq<Seq<char>>
    decreases items.len(),
{
    if items.len() == 0 {
        Seq::empty()
    } else {
        let rest = present_texts_spec(items.drop_last());
        match items.last() {
            Some(s) => rest.push(s),
            None => rest,
        }
    }
}

/// Keeps the string entries of the flattened catalog, in order, dropping the
/// elements that had none.
pub fn collect_present(items: &Vec<Option<String>>) -> (r: Vec<String>)
    ensures
        r.deep_view() == present_texts_spec(items.deep_view()),
{
    let mut r: Vec<String> = Vec::new();
    let mut i: usize = 0;
    while i < items.len()
        invariant
            i <= items.len(),
            r.deep_view() == present_texts_spec(items.deep_view().take(i as int)),
        decreases items.len() - i,
    {
        match &items[i] {
            Some(s) => {
                r.push(s.clone());
            },
            None => {},
        }
        i = i + 1;
        proof {
            let full = items.deep_view();
            assert(full.take(i as int).drop_last() =~= full.take(i as int - 1));
            assert(full.take(i as int).last() == full[i as int - 1]);
            if items@[i as int - 1] is Some {
                assert(r.deep_view() =~= present_texts_spec(full.take(i as int)));
            }
        }
    }
    proof {
        assert(items.deep_view().take(items.len() as int) =~= items.deep_view());
    }
    r
}

/// Reads the model names out of the local provider's catalog document: the
/// `name` string of each element of its `models` array, in order. Absent or
/// malformed catalog data yields an empty list, not an error.
pub fn models_conclude(catalog: &serde_json::Value) -> (r: Vec<String>)
    ensures
        r.deep_view() == present_texts_spec(json_item_texts(*catalog, "models"@, "name"@)),
{
    let items = json_item_texts_of(catalog, "models", "name");
    collect_present(&items)
}

// ---------------------------------------------------------------------------
// The remote provider (XAI): plan, status validation, normalization.
// ---------------------------------------------------------------------------

/// The default base address of the remote provider.
pub fn default_xai_base_url() -> (r: String)
    ensures
        r@ == "https://api.x.ai"@,
{
    "https://api.x.ai".to_owned()
}

/// Everything the transport layer needs to place the remote-provider call:
/// the target address, the bearer credential, and the structured request.
pub struct XaiCallPlan {
    pub url: String,
    pub bearer: String,
    pub request: crate::models::xai::ChatRequest,
}

/// Builds the remote-provider call, or refuses before any network work when
/// the bearer credential is missing: that is a configuration failure, not a
/// transport one, and no plan — hence no call — comes out of it.
pub fn xai_chat_plan(message: String, base_url: &str, credential: Option<String>) -> (r: Result<
    XaiCallPlan,
    ServiceError,
>)
    ensures
        match r {
            Ok(plan) => {
                &&& credential is Some
                &&& credential matches Some(c) && plan.bearer == c
                &&& plan.url@ == base_url@ + "/v1/chat/completions"@
                &&& plan.request.messages@.len() == 2
                &&& plan.request.messages@[0].role@ == "system"@
                &&& plan.request.messages@[0].content@ == "You are a customer service staff."@
                &&& plan.request.messages@[1].role@ == "user"@
                &&& plan.request.messages@[1].content@ == message@
                &&& plan.request.model@ == "grok-beta"@
                &&& plan.request.stream == false
            },
            Err(e) => {
                &&& credential is None
                &&& e matches ServiceError::XaiApiError(m) && m@
                    == "Missing XAI_AUTH_TOKEN environment variable"@
            },
        },
{
    match credential {
        Some(token) => Ok(
            XaiCallPlan {
                url: base_url.to_owned().concat("/v1/chat/completions"),
                bearer: token,
                request: crate::models::xai::ChatRequest::from_msg(message),
            },
        ),
        None => Err(
            ServiceError::XaiApiError("Missing XAI_AUTH_TOKEN environment variable".to_owned()),
        ),
    }
}

/// The error line for a failed upstream send (connection or timeout).
pub open spec fn xai_transport_error_spec(detail: Seq<char>) -> Seq<char> {
    "Request to XAI API failed: "@ + detail
}

/// Wraps a transport failure of the remote call — the dispatcher recovers it
/// into a typed error instead of letting the request task fail.
pub fn xai_transport_failure(detail: String) -> (r: ServiceError)
    ensures
        r matches ServiceError::XaiApiError(m) && m@ == xai_transport_error_spec(detail@),
{
    ServiceError::XaiApiError("Request to XAI API failed: ".to_owned().concat(detail.as_str()))
}

/// The error line for a malformed remote response body.
pub open spec fn xai_parse_error_spec(detail: Seq<char>) -> Seq<char> {
    "Failed to parse XAI API response: "@ + detail
}

/// Wraps a parse failure of the remote response body.
pub fn xai_parse_failure(detail: String) -> (r: ServiceError)
    ensures
        r matches ServiceError::XaiApiError(m) && m@ == xai_parse_error_spec(detail@),
{
    ServiceError::XaiApiError(
        "Failed to parse XAI API response: ".to_owned().concat(detail.as_str()),
    )
}

/// The error line for a non-success upstream status of the remote provider:
/// it carries the transport's rendered status line and the response body
/// text verbatim.
pub open spec fn xai_status_error_spec(status_line: Seq<char>, body: Seq<char>) -> Seq<char> {
    "XAI API returned error: "@ + status_line + " - "@ + body
}

/// Validates the remote call's HTTP status: a success status hands the body
/// on to parsing; any other status fails with an error carrying the status
/// and the body text verbatim. The status arrives twice: as the numeric
/// code, which decides success, and as the transport's rendered line
/// ("401 Unauthorized"), which the error message carries word for word.
pub fn xai_evaluate_status(status: u16, status_line: String, body: String) -> (r: Result<
    String,
    ServiceError,
>)
    ensures
        match r {
            Ok(b) => is_success_status(status) && b == body,
            Err(e) => {
                &&& !is_success_status(status)
                &&& e matches ServiceError::XaiApiError(m) && m@ == xai_status_error_spec(
                    status_line@,
                    body@,
                )
            },
        },
{
    if 200 <= status && status < 300 {
        Ok(body)
    } else {
        let mut msg = "XAI API returned error: ".to_owned();
        msg.append(status_line.as_str());
        msg.append(" - ");
        msg.append(body.as_str());
        Err(ServiceError::XaiApiError(msg))
    }
}

/// Law: the error for a non-success upstream status carries both pieces
/// verbatim, for either provider: the message ends with the body text, and
/// the rendered status line stands right after the fixed prefix.
pub proof fn lemma_status_error_carries_status_and_body(status_line: Seq<char>, body: Seq<char>)
    ensures
        ({
            let msg = xai_status_error_spec(status_line, body);
            let pre = "XAI API returned error: "@;
            &&& msg.len() >= body.len()
            &&& msg.subrange(msg.len() - body.len(), msg.len() as int) == body
            &&& msg.subrange(pre.len() as int, pre.len() + status_line.len() as int) == status_line
        }),
        ({
            let msg = ollama_status_error_spec(status_line, body);
            let pre = "Ollama API returned error: "@;
            &&& msg.len() >= body.len()
            &&& msg.subrange(msg.len() - body.len(), msg.len() as int) == body
            &&& msg.subrange(pre.len() as int, pre.len() + status_line.len() as int) == status_line
        }),
{
    let m1 = xai_status_error_spec(status_line, body);
    let p1 = "XAI API returned error: "@;
    assert(m1.subrange(m1.len() - body.len(), m1.len() as int) =~= body);
    assert(m1.subrange(p1.len() as int, p1.len() + status_line.len() as int) =~= status_line);
    let m2 = ollama_status_error_spec(status_line, body);
    let p2 = "Ollama API returned error: "@;
    assert(m2.subrange(m2.len() - body.len(), m2.len() as int) =~= body);
    assert(m2.subrange(p2.len() as int, p2.len() + status_line.len() as int) =~= status_line);
}

/// Concludes a remote-provider call whose body parsed: the first choice's
/// message content becomes the normalized response; a payload without
/// choices is reported as a malformed-payload provider error.
pub fn xai_conclude(res: crate::models::xai::ChatResponse) -> (r: Result<ChatResponse, ServiceError>)
    ensures
        match r {
            Ok(c) => {
                &&& res.choices@.len() > 0
                &&& c.message@ == res.choices@[0].message.content@
                &&& c.model == res.model
            },
            Err(e) => {
                &&& res.choices@.len() == 0
                &&& e matches ServiceError::XaiApiError(m) && m@ == xai_parse_error_spec(
                    "no choices"@,
                )
            },
        },
{
    if res.choices.len() > 0 {
        Ok(ChatResponse::from_xai(res))
    } else {
        Err(xai_parse_failure("no choices".to_owned()))
    }
}

} // verus!
