//! Client-side engine for multi-turn conversations with a stateless completion API.
//!
//! The API keeps no session: every request carries the whole history, the system prompt and
//! the tools. This crate builds those requests, folds streamed events into messages, keeps
//! the history of a conversation, and decides when a rate-limited request is sent again.
use vstd::prelude::*;

pub mod anthropic;
pub mod conversation;
pub mod http_request;
pub mod json_scan;
pub mod json_value;
pub mod request_body;
pub mod retry;
pub mod shared_vec;
pub mod stream;

use crate::anthropic::{ApiError, ApiResponse, Message, MessagesResponse, Role, Tool};
use crate::conversation::ProtocolError;
use crate::http_request::HttpRequest;
use crate::request_body::{body_json, body_to_json, decimal, u32_to_decimal};
use crate::shared_vec::{message_items, messages_new, messages_push, tool_items};

verus! {

/// Configuration for requests to the API: key, default model, default token limit and host.
#[derive(Clone, Debug)]
pub struct Api {
    api_key: String,
    default_model: String,
    default_max_tokens: u32,
    endpoint_host: String,
}

impl Api {
    /// The API key.
    pub closed spec fn spec_api_key(&self) -> Seq<char> {
        self.api_key@
    }

    /// The model of requests that name none.
    pub closed spec fn spec_default_model(&self) -> Seq<char> {
        self.default_model@
    }

    /// The token limit of requests that set none.
    pub closed spec fn spec_default_max_tokens(&self) -> u32 {
        self.default_max_tokens
    }

    /// The host requests go to.
    pub closed spec fn spec_endpoint_host(&self) -> Seq<char> {
        self.endpoint_host@
    }

    /// Configuration with the given API key and default model, 1024 tokens and the default
    /// host.
    pub fn new(api_key: &str, default_model: &str) -> (r: Self)
        ensures
            r.spec_api_key() == api_key@,
            r.spec_default_model() == default_model@,
            r.spec_default_max_tokens() == 1024,
            r.spec_endpoint_host() == anthropic::DEFAULT_ENDPOINT_HOST@,
    {
        Api {
            api_key: api_key.to_string(),
            default_model: default_model.to_string(),
            default_max_tokens: 1024,
            endpoint_host: anthropic::DEFAULT_ENDPOINT_HOST.to_string(),
        }
    }

    /// Sets the default model.
    pub fn default_model(self, model: &str) -> (r: Self)
        ensures
            r.spec_default_model() == model@,
            r.spec_api_key() == self.spec_api_key(),
            r.spec_default_max_tokens() == self.spec_default_max_tokens(),
            r.spec_endpoint_host() == self.spec_endpoint_host(),
    {
        Api { default_model: model.to_string(), ..self }
    }

    /// Sets the default token limit.
    pub fn default_max_tokens(self, max_tokens: u32) -> (r: Self)
        ensures
            r.spec_default_max_tokens() == max_tokens,
            r.spec_api_key() == self.spec_api_key(),
            r.spec_default_model() == self.spec_default_model(),
            r.spec_endpoint_host() == self.spec_endpoint_host(),
    {
        Api { default_max_tokens: max_tokens, ..self }
    }

    /// Sets the host, a bare host name without scheme or path.
    pub fn endpoint_host(self, endpoint_host: &str) -> (r: Self)
        ensures
            r.spec_endpoint_host() == endpoint_host@,
            r.spec_api_key() == self.spec_api_key(),
            r.spec_default_model() == self.spec_default_model(),
            r.spec_default_max_tokens() == self.spec_default_max_tokens(),
    {
        Api { endpoint_host: endpoint_host.to_string(), ..self }
    }

    /// The headers every request carries: content type, API version and key.
    fn create_default_headers(&self) -> (r: Vec<(&'static str, String)>)
        ensures
            r@.len() == 3,
            r@[0].0@ == "content-type"@ && r@[0].1@ == "application/json"@,
            r@[1].0@ == "anthropic-version"@ && r@[1].1@ == anthropic::ANTHROPIC_VERSION@,
            r@[2].0@ == "x-api-key"@ && r@[2].1@ == self.spec_api_key(),
    {
        vec![
            ("content-type", String::from_str("application/json")),
            ("anthropic-version", anthropic::ANTHROPIC_VERSION.to_string()),
            ("x-api-key", self.api_key.clone()),
        ]
    }
}

/// Builder of requests to the messages endpoint.
#[derive(Debug)]
pub struct MessagesRequestBuilder {
    model: Option<String>,
    max_tokens: Option<u32>,
    system: Option<String>,
    messages: im::Vector<Message>,
    tools: Option<im::Vector<Tool>>,
    stream: bool,
}

impl Default for MessagesRequestBuilder {
    fn default() -> (r: Self)
        ensures
            r.spec_model() is None,
            r.spec_max_tokens() is None,
            r.spec_system() is None,
            r.spec_messages() == Seq::<Message>::empty(),
            r.spec_tools() is None,
            !r.spec_stream(),
    {
        MessagesRequestBuilder::new()
    }
}

/// The headers of a request: the defaults, then the model and the token limit.
pub open spec fn request_headers_ok(
    hs: Seq<(&'static str, String)>,
    api_key: Seq<char>,
    model: Seq<char>,
    max_tokens: u32,
) -> bool {
    &&& hs.len() == 5
    &&& hs[0].0@ == "content-type"@ && hs[0].1@ == "application/json"@
    &&& hs[1].0@ == "anthropic-version"@ && hs[1].1@ == anthropic::ANTHROPIC_VERSION@
    &&& hs[2].0@ == "x-api-key"@ && hs[2].1@ == api_key
    &&& hs[3].0@ == "anthropic-model"@ && hs[3].1@ == model
    &&& hs[4].0@ == "max-tokens"@ && hs[4].1@ == decimal(max_tokens as nat)
}

impl MessagesRequestBuilder {
    /// The model named for the request, if any.
    pub closed spec fn spec_model(&self) -> Option<Seq<char>> {
        match self.model {
            Some(m) => Some(m@),
            None => None,
        }
    }

    /// The token limit set for the request, if any.
    pub closed spec fn spec_max_tokens(&self) -> Option<u32> {
        self.max_tokens
    }

    /// The system prompt, if any.
    pub closed spec fn spec_system(&self) -> Option<Seq<char>> {
        match self.system {
            Some(s) => Some(s@),
            None => None,
        }
    }

    /// The messages to send, in order.
    pub closed spec fn spec_messages(&self) -> Seq<Message> {
        message_items(self.messages)
    }

    /// The tools offered to the model, if set.
    pub closed spec fn spec_tools(&self) -> Option<Seq<Tool>> {
        match self.tools {
            Some(t) => Some(tool_items(t)),
            None => None,
        }
    }

    /// Whether a streamed response is asked for.
    pub closed spec fn spec_stream(&self) -> bool {
        self.stream
    }

    /// A builder with no messages and nothing set.
    pub fn new() -> (r: Self)
        ensures
            r.spec_model() is None,
            r.spec_max_tokens() is None,
            r.spec_system() is None,
            r.spec_messages() == Seq::<Message>::empty(),
            r.spec_tools() is None,
            !r.spec_stream(),
    {
        MessagesRequestBuilder {
            model: None,
            max_tokens: None,
            system: None,
            messages: messages_new(),
            tools: None,
            stream: false,
        }
    }

    /// Sets the model, in place of the default.
    pub fn model(self, model: &str) -> (r: Self)
        ensures
            r.spec_model() == Some(model@),
            r.spec_max_tokens() == self.spec_max_tokens(),
            r.spec_system() == self.spec_system(),
            r.spec_messages() == self.spec_messages(),
            r.spec_tools() == self.spec_tools(),
            r.spec_stream() == self.spec_stream(),
    {
        MessagesRequestBuilder { model: Some(model.to_string()), ..self }
    }

    /// Sets the token limit, in place of the default.
    pub fn max_tokens(self, max_tokens: u32) -> (r: Self)
        ensures
            r.spec_max_tokens() == Some(max_tokens),
            r.spec_model() == self.spec_model(),
            r.spec_system() == self.spec_system(),
            r.spec_messages() == self.spec_messages(),
            r.spec_tools() == self.spec_tools(),
            r.spec_stream() == self.spec_stream(),
    {
        MessagesRequestBuilder { max_tokens: Some(max_tokens), ..self }
    }

    /// Sets the system prompt.
    pub fn system(self, system: &str) -> (r: Self)
        ensures
            r.spec_system() == Some(system@),
            r.spec_model() == self.spec_model(),
            r.spec_max_tokens() == self.spec_max_tokens(),
            r.spec_messages() == self.spec_messages(),
            r.spec_tools() == self.spec_tools(),
            r.spec_stream() == self.spec_stream(),
    {
        MessagesRequestBuilder { system: Some(system.to_string()), ..self }
    }

    /// Appends a message.
    pub fn push(self, message: Message) -> (r: Self)
        ensures
            r.spec_messages() == self.spec_messages().push(message),
            r.spec_model() == self.spec_model(),
            r.spec_max_tokens() == self.spec_max_tokens(),
            r.spec_system() == self.spec_system(),
            r.spec_tools() == self.spec_tools(),
            r.spec_stream() == self.spec_stream(),
    {
        let mut b = self;
        messages_push(&mut b.messages, message);
        b
    }

    /// Appends a message that holds one piece of text.
    pub fn push_message(self, role: Role, text: &str) -> (r: Self)
        ensures
            r.spec_messages().len() == self.spec_messages().len() + 1,
            r.spec_messages().drop_last() == self.spec_messages(),
            r.spec_messages().last().role == role,
            r.spec_messages().last().content@.len() == 1,
            r.spec_messages().last().content@[0] matches anthropic::Content::Text { text: t } && t@
                == text@,
            r.spec_model() == self.spec_model(),
            r.spec_max_tokens() == self.spec_max_tokens(),
            r.spec_system() == self.spec_system(),
            r.spec_tools() == self.spec_tools(),
            r.spec_stream() == self.spec_stream(),
    {
        let message = Message::from_text(role, text);
        let r = self.push(message);
        proof {
            assert(r.spec_messages().drop_last() =~= self.spec_messages());
        }
        r
    }

    /// Replaces all messages.
    pub fn set_messages(self, messages: im::Vector<Message>) -> (r: Self)
        ensures
            r.spec_messages() == message_items(messages),
            r.spec_model() == self.spec_model(),
            r.spec_max_tokens() == self.spec_max_tokens(),
            r.spec_system() == self.spec_system(),
            r.spec_tools() == self.spec_tools(),
            r.spec_stream() == self.spec_stream(),
    {
        MessagesRequestBuilder { messages, ..self }
    }

    /// Sets the tools the model may use.
    pub fn set_tools(self, tools: im::Vector<Tool>) -> (r: Self)
        ensures
            r.spec_tools() == Some(tool_items(tools)),
            r.spec_model() == self.spec_model(),
            r.spec_max_tokens() == self.spec_max_tokens(),
            r.spec_system() == self.spec_system(),
            r.spec_messages() == self.spec_messages(),
            r.spec_stream() == self.spec_stream(),
    {
        MessagesRequestBuilder { tools: Some(tools), ..self }
    }

    /// Asks for a streamed response, or not.
    pub fn stream(self, stream: bool) -> (r: Self)
        ensures
            r.spec_stream() == stream,
            r.spec_model() == self.spec_model(),
            r.spec_max_tokens() == self.spec_max_tokens(),
            r.spec_system() == self.spec_system(),
            r.spec_messages() == self.spec_messages(),
            r.spec_tools() == self.spec_tools(),
    {
        MessagesRequestBuilder { stream, ..self }
    }

    /// The model the request uses: its own, or the default of `api`.
    pub open spec fn effective_model(&self, api: &Api) -> Seq<char> {
        match self.spec_model() {
            Some(m) => m,
            None => api.spec_default_model(),
        }
    }

    /// The token limit the request uses: its own, or the default of `api`.
    pub open spec fn effective_max_tokens(&self, api: &Api) -> u32 {
        match self.spec_max_tokens() {
            Some(n) => n,
            None => api.spec_default_max_tokens(),
        }
    }

    /// Builds the HTTP request: a POST to `/v1/messages` on the configured host, with the
    /// default headers, the model and the token limit as headers, and the JSON body.
    pub fn build(&self, api: &Api) -> (r: HttpRequest)
        ensures
            r.host@ == api.spec_endpoint_host(),
            r.path@ == "/v1/messages"@,
            r.method@ == "POST"@,
            request_headers_ok(
                r.headers@,
                api.spec_api_key(),
                self.effective_model(api),
                self.effective_max_tokens(api),
            ),
            r.body@ == body_json(
                self.effective_model(api),
                self.effective_max_tokens(api),
                self.spec_system(),
                self.spec_messages(),
                self.spec_tools(),
                self.spec_stream(),
            ),
    {
        let mut headers = api.create_default_headers();
        let model: &str = match &self.model {
            Some(m) => m.as_str(),
            None => api.default_model.as_str(),
        };
        let max_tokens: u32 = match self.max_tokens {
            Some(n) => n,
            None => api.default_max_tokens,
        };
        headers.push(("anthropic-model", model.to_string()));
        headers.push(("max-tokens", u32_to_decimal(max_tokens)));

        let body = body_to_json(model, max_tokens, &self.system, &self.messages, &self.tools, self.stream);
        HttpRequest {
            host: api.endpoint_host.clone(),
            path: String::from_str("/v1/messages"),
            method: "POST",
            headers,
            body,
        }
    }
}

/// What can go wrong with a response.
#[derive(Debug)]
pub enum ResponseError {
    /// The text could not be decoded.
    Serde(serde_json::Error),
    /// The API reported an error.
    Api(ApiError),
    /// The API returned a response, but not of the expected type.
    UnexpectedResponseType { expected: &'static str, actual: &'static str },
    /// The conversation was not waiting for a response.
    Protocol(ProtocolError),
}

/// The message response of a decoded response: the decoding error, the API error, or the
/// message.
pub fn classify_response(decoded: Result<ApiResponse, serde_json::Error>) -> (r: Result<
    MessagesResponse,
    ResponseError,
>)
    ensures
        match decoded {
            Err(e) => r matches Err(ResponseError::Serde(e2)) && e2 == e,
            Ok(ApiResponse::Error { error }) => r matches Err(ResponseError::Api(e2)) && e2 == error,
            Ok(ApiResponse::Message(m)) => r matches Ok(m2) && m2 == m,
        },
{
    match decoded {
        Err(e) => Err(ResponseError::Serde(e)),
        Ok(ApiResponse::Error { error }) => Err(ResponseError::Api(error)),
        Ok(other) => {
            let kind = other.kind();
            match MessagesResponse::try_from_response(other) {
                Ok(m) => Ok(m),
                Err(()) => Err(
                    ResponseError::UnexpectedResponseType { expected: "message", actual: kind },
                ),
            }
        },
    }
}

} // verus!
