//! Remote chat-completion client: the request shape sent to an HTTP
//! chat-completion endpoint, and the classification of its response status.
//!
//! The transport itself (the HTTP POST and the reading of the response body)
//! runs outside this crate; it sends exactly what `build_request` returns and
//! hands every received body chunk to the decoder in `sse`.

use vstd::prelude::*;
use crate::error::GenerationError;
use crate::message::{ChatMessage, Message, Temperature, role_name, spec_role_name};

verus! {

/// Client of an OpenAI-style chat-completion endpoint: base URL, bearer
/// credential and model identifier.
#[derive(Debug, Clone)]
pub struct OpenAIProvider {
    pub api_key: String,
    pub model: String,
    pub base_url: String,
}

impl OpenAIProvider {
    /// A client of the standard endpoint.
    pub fn new(api_key: String, model: String) -> (p: OpenAIProvider)
        ensures
            p.api_key == api_key,
            p.model == model,
            p.base_url@ == "https://api.openai.com/v1"@,
    {
        OpenAIProvider { api_key, model, base_url: "https://api.openai.com/v1".to_owned() }
    }

    /// The same client against another base URL.
    pub fn with_base_url(self, base_url: String) -> (p: OpenAIProvider)
        ensures
            p.api_key == self.api_key,
            p.model == self.model,
            p.base_url == base_url,
    {
        OpenAIProvider { api_key: self.api_key, model: self.model, base_url }
    }

    /// The URL of the streaming chat-completion endpoint.
    pub fn completions_url(&self) -> (u: String)
        ensures
            u@ == self.base_url@ + "/chat/completions"@,
    {
        let mut u = self.base_url.clone();
        u.append("/chat/completions");
        u
    }

    /// The value of the bearer-credential request header.
    pub fn auth_header_value(&self) -> (h: String)
        ensures
            h@ == "Bearer "@ + self.api_key@,
    {
        let mut h = "Bearer ".to_owned();
        h.append(self.api_key.as_str());
        h
    }

    /// Builds the body of the streaming request: the model identifier, the
    /// full message list mapped 1:1, the temperature, and the streaming flag.
    pub fn build_request(&self, messages: &Vec<Message>, temperature: Temperature) -> (r:
        CompletionRequest)
        ensures
            r.model == self.model,
            maps_messages(messages@, r.messages@),
            r.temperature == temperature,
            r.stream,
    {
        CompletionRequest {
            model: self.model.clone(),
            messages: to_chat_messages(messages),
            temperature,
            stream: true,
        }
    }
}

/// A chat-completion request in the remote wire shape. `stream` is always
/// set: the response is consumed as an event stream.
#[derive(Debug, Clone)]
pub struct CompletionRequest {
    pub model: String,
    pub messages: Vec<ChatMessage>,
    pub temperature: Temperature,
    pub stream: bool,
}

/// The request mapping preserves message count, order, and role/content
/// verbatim; a role appears under its canonical wire name.
pub open spec fn maps_messages(ms: Seq<Message>, cs: Seq<ChatMessage>) -> bool {
    &&& cs.len() == ms.len()
    &&& forall|i: int|
        0 <= i < ms.len() ==> (#[trigger] cs[i]).role@ == spec_role_name(ms[i].role) && cs[
            i
        ].content@ == ms[i].content@
}

/// Maps the ordered message list into the wire shape, 1:1 and in order.
pub fn to_chat_messages(ms: &Vec<Message>) -> (cs: Vec<ChatMessage>)
    ensures
        maps_messages(ms@, cs@),
{
    let mut cs: Vec<ChatMessage> = Vec::new();
    let n = ms.len();
    let mut i: usize = 0;
    while i < n
        invariant
            n == ms@.len(),
            i <= n,
            cs@.len() == i,
            forall|j: int|
                0 <= j < i ==> (#[trigger] cs@[j]).role@ == spec_role_name(ms@[j].role) && cs@[
                    j
                ].content@ == ms@[j].content@,
        decreases n - i,
    {
        let role_s = role_name(ms[i].role).to_owned();
        let content = ms[i].content.clone();
        cs.push(ChatMessage { role: role_s, content });
        i = i + 1;
    }
    cs
}

/// Whether an HTTP status code reports success.
pub open spec fn spec_status_success(status: u16) -> bool {
    200 <= status < 300
}

/// Classifies the response status: a success status hands the body stream to
/// the decoder; any other status is a terminal transport error carrying the
/// status code and the response body verbatim — no retry at this layer.
pub fn check_response_status(status: u16, body: String) -> (r: Result<(), GenerationError>)
    ensures
        spec_status_success(status) ==> r is Ok,
        !spec_status_success(status) ==> r == Result::<(), GenerationError>::Err(
            GenerationError::TransportError { status: Some(status), message: body },
        ),
{
    if 200 <= status && status < 300 {
        Ok(())
    } else {
        Err(GenerationError::TransportError { status: Some(status), message: body })
    }
}

/// Wraps a transport-level read failure, which ends the stream as its final
/// item.
pub fn stream_read_error(message: String) -> (e: GenerationError)
    ensures
        e == (GenerationError::TransportError { status: None, message }),
{
    GenerationError::TransportError { status: None, message }
}

} // verus!
