//! The data model of the API: messages, content pieces, tools, responses and stream events.
use vstd::prelude::*;

verus! {

/// API version that is compatible with this module.
pub const ANTHROPIC_VERSION: &'static str = "2023-06-01";

/// Default API endpoint host to use.
pub const DEFAULT_ENDPOINT_HOST: &'static str = "api.anthropic.com";

/// A role in a conversation.
#[derive(Clone, Copy, Debug, PartialEq, Eq, Structural)]
pub enum Role {
    /// Message from the user.
    User,
    /// Message from the model.
    Assistant,
}

/// A message in a conversation.
#[derive(Clone, Debug)]
pub struct Message {
    /// The role of the message.
    pub role: Role,
    /// The contents of the message, in order.
    pub content: Vec<Content>,
}

/// A tool that the model can invoke.
#[derive(Clone, Debug)]
pub struct Tool {
    /// The name of the tool.
    pub name: String,
    /// A description of what the tool does.
    pub description: String,
    /// JSON schema of the tool's input.
    pub input_schema: serde_json::Value,
}

/// A tool invocation by the model.
#[derive(Clone, Debug)]
pub struct ToolUse {
    /// Unique identifier for this tool use.
    pub id: String,
    /// The name of the tool being invoked.
    pub name: String,
    /// The input parameters for the tool.
    pub input: serde_json::Value,
}

/// The result of executing a tool that the model asked for.
#[derive(Debug)]
pub struct ToolResult {
    /// The ID of the tool use this result answers.
    pub tool_use_id: String,
    /// The result content.
    pub content: ToolResultContent,
    /// Whether this result reports an error.
    pub is_error: Option<bool>,
}

/// Content of a tool result.
#[derive(Debug)]
pub enum ToolResultContent {
    /// Several pieces of content.
    Content(Vec<Content>),
    /// A single string.
    String(String),
}

/// Content pieces that make up a message.
#[derive(Debug)]
pub enum Content {
    Text { text: String },
    /// Image content; images are not supported beyond their place in a message.
    Image,
    ToolUse(ToolUse),
    ToolResult(ToolResult),
    /// The model's reasoning, with the signature that vouches for it.
    Thinking { thinking: String, signature: String },
}

/// Errors that the API itself reports.
#[derive(Clone, Copy, Debug, PartialEq, Eq, Structural)]
pub enum ApiError {
    /// HTTP 400, invalid request
    InvalidRequestError,
    /// HTTP 401, authentication error
    AuthenticationError,
    /// HTTP 403, the API key may not use the resource
    PermissionError,
    /// HTTP 404, the requested resource was not found
    NotFoundError,
    /// HTTP 413, request exceeds the maximum allowed number of bytes
    RequestTooLarge,
    /// HTTP 429, the account has hit a rate limit
    RateLimitError,
    /// HTTP 500, an unexpected error inside the API
    ApiError,
    /// HTTP 529, the API is temporarily overloaded
    OverloadedError,
}

/// A response from the API: a message, or an error.
#[derive(Debug)]
pub enum ApiResponse {
    /// A response to a messages request.
    Message(MessagesResponse),
    /// An error response.
    Error { error: ApiError },
}

/// The reason that the model stopped generating.
#[derive(Clone, Copy, Debug, PartialEq, Eq, Structural)]
pub enum StopReason {
    EndTurn,
    MaxTokens,
    StopSequence,
    ToolUse,
    PauseTurn,
    Refusal,
}

/// The response to a messages request.
#[derive(Debug)]
pub struct MessagesResponse {
    pub id: String,
    pub model: String,
    pub stop_reason: StopReason,
    pub stop_sequence: Option<String>,
    pub usage: Usage,
    pub message: Message,
}

/// Token counts of a request.
#[derive(Clone, Copy, Debug, PartialEq, Eq, Structural)]
pub struct Usage {
    /// The number of tokens sent to the model.
    pub input_tokens: u32,
    /// The number of tokens the model generated.
    pub output_tokens: u32,
}

/// Token counts carried by a stream event, each of which may be missing.
#[derive(Clone, Copy, Debug, PartialEq, Eq, Structural)]
pub struct StreamingUsage {
    pub input_tokens: Option<u32>,
    pub output_tokens: Option<u32>,
}

/// A message while it is being streamed: its stop fields are filled in as the stream goes.
#[derive(Debug)]
pub struct StreamingMessage {
    pub id: String,
    pub model: String,
    pub stop_reason: Option<StopReason>,
    pub stop_sequence: Option<String>,
    pub usage: Usage,
    pub role: Role,
    pub content: Vec<Content>,
}

/// A decoded event of the streaming API.
#[derive(Debug)]
pub enum StreamEvent {
    /// Start of a message, whose content is empty.
    MessageStart { message: StreamingMessage },
    /// Start of a content block.
    ContentBlockStart { index: u32, content_block: Content },
    /// Delta update to a content block.
    ContentBlockDelta { index: u32, delta: Delta },
    /// End of a content block.
    ContentBlockStop { index: u32 },
    /// Delta update to the message.
    MessageDelta { delta: MessageDelta, usage: Option<StreamingUsage> },
    /// End of the message.
    MessageStop,
    /// Keep-alive, with no data.
    Ping,
    /// Error event.
    Error { error: ApiError },
    /// An event with a tag that is not known here.
    Unknown { event_type: Vec<u8>, contents: serde_json::Value },
}

/// Updates to a content block.
#[derive(Debug)]
pub enum Delta {
    TextDelta { text: String },
    InputJsonDelta { partial_json: String },
    ThinkingDelta { thinking: String },
    SignatureDelta { signature: String },
}

/// Updates to the message itself.
#[derive(Debug)]
pub struct MessageDelta {
    pub stop_reason: Option<StopReason>,
    pub stop_sequence: Option<String>,
}

impl Message {
    /// A message holding a single piece of text.
    pub fn from_text(role: Role, text: &str) -> (r: Self)
        ensures
            r.role == role,
            r.content@.len() == 1,
            r.content@[0] matches Content::Text { text: t } && t@ == text@,
    {
        Message { role, content: vec![Content::from_text(text)] }
    }
}

impl Tool {
    /// A tool with the given name, description and input schema.
    pub fn new(name: &str, description: &str, input_schema: serde_json::Value) -> (r: Self)
        ensures
            r.name@ == name@,
            r.description@ == description@,
            r.input_schema == input_schema,
    {
        Tool { name: name.to_string(), description: description.to_string(), input_schema }
    }
}

impl From<String> for ToolResultContent {
    fn from(s: String) -> (r: Self) {
        ToolResultContent::String(s)
    }
}

impl vstd::std_specs::convert::FromSpecImpl<String> for ToolResultContent {
    open spec fn obeys_from_spec() -> bool {
        true
    }

    open spec fn from_spec(s: String) -> ToolResultContent {
        ToolResultContent::String(s)
    }
}

impl From<Vec<Content>> for ToolResultContent {
    fn from(content: Vec<Content>) -> (r: Self) {
        ToolResultContent::Content(content)
    }
}

impl vstd::std_specs::convert::FromSpecImpl<Vec<Content>> for ToolResultContent {
    open spec fn obeys_from_spec() -> bool {
        true
    }

    open spec fn from_spec(content: Vec<Content>) -> ToolResultContent {
        ToolResultContent::Content(content)
    }
}

impl ToolResult {
    /// A successful tool result.
    pub fn success(tool_use_id: String, content: ToolResultContent) -> (r: Self)
        ensures
            r == (ToolResult { tool_use_id, content, is_error: None }),
    {
        ToolResult { tool_use_id, content, is_error: None }
    }

    /// A tool result that reports an error.
    pub fn error(tool_use_id: String, error_content: ToolResultContent) -> (r: Self)
        ensures
            r == (ToolResult { tool_use_id, content: error_content, is_error: Some(true) }),
    {
        ToolResult { tool_use_id, content: error_content, is_error: Some(true) }
    }

    /// The error result for a tool use that names no known tool.
    pub fn unknown_tool(tool_use_id: String, tool_name: &str) -> (r: Self)
        ensures
            r.tool_use_id == tool_use_id,
            r.is_error == Some(true),
            r.content matches ToolResultContent::String(m) && m@ == "Unknown tool: "@ + tool_name@,
    {
        let message = String::from_str("Unknown tool: ").concat(tool_name);
        Self::error(tool_use_id, ToolResultContent::String(message))
    }
}

impl Content {
    /// A text piece.
    pub fn from_text(text: &str) -> (r: Self)
        ensures
            r matches Content::Text { text: t } && t@ == text@,
    {
        Content::Text { text: text.to_string() }
    }

    /// The text of a text piece; `None` for any other piece.
    pub fn as_text(&self) -> (r: Option<&str>)
        ensures
            match *self {
                Content::Text { text } => r matches Some(t) && t@ == text@,
                _ => r is None,
            },
    {
        match self {
            Content::Text { text } => Some(text.as_str()),
            _ => None,
        }
    }
}

impl ApiResponse {
    /// The tag of the response: `message` or `error`.
    pub fn kind(&self) -> (r: &'static str)
        ensures
            r@ == (if self is Message {
                "message"@
            } else {
                "error"@
            }),
    {
        match self {
            ApiResponse::Message(_) => "message",
            ApiResponse::Error { .. } => "error",
        }
    }
}

impl MessagesResponse {
    /// The message response inside `response`; `Err(())` for an error response.
    pub fn try_from_response(response: ApiResponse) -> (r: Result<Self, ()>)
        ensures
            match response {
                ApiResponse::Message(m) => r == Ok::<MessagesResponse, ()>(m),
                ApiResponse::Error { .. } => r is Err,
            },
    {
        match response {
            ApiResponse::Message(m) => Ok(m),
            ApiResponse::Error { error: _ } => Err(()),
        }
    }
}

impl ApiError {
    /// Whether the condition is transient, so that the same request may be sent again.
    pub fn is_retryable(&self) -> (r: bool)
        ensures
            r == (*self == ApiError::RateLimitError || *self == ApiError::OverloadedError),
    {
        match self {
            ApiError::RateLimitError | ApiError::OverloadedError => true,
            _ => false,
        }
    }

    /// A short description of the error.
    pub fn description(&self) -> (r: &'static str)
        ensures
            r@ == api_error_text(*self),
    {
        match self {
            ApiError::InvalidRequestError => "Invalid request",
            ApiError::AuthenticationError => "Authentication error",
            ApiError::PermissionError => "Permission error",
            ApiError::NotFoundError => "Not found",
            ApiError::RequestTooLarge => "Request too large",
            ApiError::RateLimitError => "Rate limit exceeded",
            ApiError::ApiError => "API error",
            ApiError::OverloadedError => "API overloaded",
        }
    }
}

/// The description of each API error.
pub open spec fn api_error_text(e: ApiError) -> Seq<char> {
    match e {
        ApiError::InvalidRequestError => "Invalid request"@,
        ApiError::AuthenticationError => "Authentication error"@,
        ApiError::PermissionError => "Permission error"@,
        ApiError::NotFoundError => "Not found"@,
        ApiError::RequestTooLarge => "Request too large"@,
        ApiError::RateLimitError => "Rate limit exceeded"@,
        ApiError::ApiError => "API error"@,
        ApiError::OverloadedError => "API overloaded"@,
    }
}

impl StreamingMessage {
    /// Takes the stop fields that `delta` carries; absent ones leave the message as it is.
    pub fn update(&mut self, delta: MessageDelta)
        ensures
            final(self).stop_reason == (if delta.stop_reason is Some {
                delta.stop_reason
            } else {
                old(self).stop_reason
            }),
            final(self).stop_sequence == (if delta.stop_sequence is Some {
                delta.stop_sequence
            } else {
                old(self).stop_sequence
            }),
            final(self).id == old(self).id,
            final(self).model == old(self).model,
            final(self).usage == old(self).usage,
            final(self).role == old(self).role,
            final(self).content == old(self).content,
    {
        if let Some(stop_reason) = delta.stop_reason {
            self.stop_reason = Some(stop_reason);
        }
        if let Some(stop_sequence) = delta.stop_sequence {
            self.stop_sequence = Some(stop_sequence);
        }
    }
}

// Text renderings of pieces, for display.

/// The text shown for a tool use: name, id and input.
pub open spec fn tool_use_text(u: ToolUse) -> Seq<char> {
    u.name@ + "("@ + u.id@ + ") with "@ + crate::json_value::value_debug_text(u.input)
}

/// The text shown for a piece.
pub open spec fn content_text(c: Content) -> Seq<char>
    decreases c, 0int,
{
    match c {
        Content::Text { text } => text@,
        Content::Image => "<image>"@,
        Content::ToolUse(u) => tool_use_text(u),
        Content::ToolResult(t) => tool_result_text(t),
        Content::Thinking { thinking, .. } => thinking@,
    }
}

/// The text shown for a tool result.
pub open spec fn tool_result_text(t: ToolResult) -> Seq<char>
    decreases t, 0int,
{
    if t.is_error == Some(true) {
        "Tool result error for "@ + t.tool_use_id@ + ": "@ + result_content_text(t.content)
    } else {
        "Tool result for "@ + t.tool_use_id@ + ": "@ + result_content_text(t.content)
    }
}

/// The text shown for the content of a tool result.
pub open spec fn result_content_text(c: ToolResultContent) -> Seq<char>
    decreases c, 0int,
{
    match c {
        ToolResultContent::Content(v) => joined_text(v@, v@.len() as int),
        ToolResultContent::String(s) => s@,
    }
}

/// The texts of the first `n` pieces, separated by single spaces.
pub open spec fn joined_text(pieces: Seq<Content>, n: int) -> Seq<char>
    decreases pieces, n,
{
    if n <= 0 || n > pieces.len() {
        Seq::empty()
    } else if n == 1 {
        content_text(pieces[0])
    } else {
        joined_text(pieces, n - 1) + " "@ + content_text(pieces[n - 1])
    }
}

impl ToolUse {
    /// The text shown for this tool use.
    pub fn to_text(&self) -> (r: String)
        ensures
            r@ == tool_use_text(*self),
    {
        let mut out = self.name.clone();
        out.append("(");
        out.append(self.id.as_str());
        out.append(") with ");
        let input = crate::json_value::value_to_debug(&self.input);
        out.append(input.as_str());
        out
    }
}

impl Content {
    /// The text shown for this piece.
    pub fn to_text(&self) -> (r: String)
        ensures
            r@ == content_text(*self),
        decreases self, 0int,
    {
        match self {
            Content::Text { text } => text.clone(),
            Content::Image => String::from_str("<image>"),
            Content::ToolUse(u) => u.to_text(),
            Content::ToolResult(t) => t.to_text(),
            Content::Thinking { thinking, .. } => thinking.clone(),
        }
    }
}

impl ToolResult {
    /// The text shown for this result.
    pub fn to_text(&self) -> (r: String)
        ensures
            r@ == tool_result_text(*self),
        decreases self, 0int,
    {
        let mut out = if self.is_error == Some(true) {
            String::from_str("Tool result error for ")
        } else {
            String::from_str("Tool result for ")
        };
        out.append(self.tool_use_id.as_str());
        out.append(": ");
        let body = self.content.to_text();
        out.append(body.as_str());
        out
    }
}

impl ToolResultContent {
    /// The text shown for this content: the pieces separated by spaces, or the string.
    pub fn to_text(&self) -> (r: String)
        ensures
            r@ == result_content_text(*self),
        decreases self, 0int,
    {
        match self {
            ToolResultContent::Content(v) => pieces_to_text(v),
            ToolResultContent::String(s) => s.clone(),
        }
    }
}

/// The texts of `pieces`, separated by single spaces.
pub fn pieces_to_text(pieces: &Vec<Content>) -> (r: String)
    ensures
        r@ == joined_text(pieces@, pieces@.len() as int),
    decreases pieces, 1int,
{
    let mut out = String::new();
    let mut i: usize = 0;
    while i < pieces.len()
        invariant
            i <= pieces@.len(),
            out@ == joined_text(pieces@, i as int),
        decreases pieces@.len() - i,
    {
        proof {
            vstd::std_specs::vec::axiom_vec_index_decreases(*pieces, i as int);
        }
        if i > 0 {
            out.append(" ");
        }
        let piece = pieces[i].to_text();
        out.append(piece.as_str());
        i = i + 1;
    }
    out
}

// Copies and comparisons of content pieces. A piece may hold further pieces (a tool result
// made of content), so these go down the nesting.

/// `a` and `b` hold the same data, nested pieces included.
pub open spec fn same_content(a: Content, b: Content) -> bool
    decreases a, 0int,
{
    match a {
        Content::ToolResult(x) => match b {
            Content::ToolResult(y) => same_tool_result(x, y),
            _ => false,
        },
        _ => a == b,
    }
}

/// `a` and `b` answer the same tool use with the same data.
pub open spec fn same_tool_result(a: ToolResult, b: ToolResult) -> bool
    decreases a, 0int,
{
    &&& a.tool_use_id == b.tool_use_id
    &&& a.is_error == b.is_error
    &&& same_result_content(a.content, b.content)
}

/// `a` and `b` hold the same data.
pub open spec fn same_result_content(a: ToolResultContent, b: ToolResultContent) -> bool
    decreases a, 0int,
{
    match a {
        ToolResultContent::Content(v) => match b {
            ToolResultContent::Content(w) => v@.len() == w@.len() && same_pieces(
                v@,
                w@,
                v@.len() as int,
            ),
            _ => false,
        },
        ToolResultContent::String(_) => a == b,
    }
}

/// The first `n` pieces of `a` and `b` are the same.
pub open spec fn same_pieces(a: Seq<Content>, b: Seq<Content>, n: int) -> bool
    decreases a, n,
{
    if n <= 0 {
        true
    } else if n > a.len() || n > b.len() {
        false
    } else {
        same_pieces(a, b, n - 1) && same_content(a[n - 1], b[n - 1])
    }
}

/// A copy of a piece.
pub fn copy_content(c: &Content) -> (r: Content)
    ensures
        same_content(*c, r),
    decreases c, 0int,
{
    match c {
        Content::Text { text } => Content::Text { text: text.clone() },
        Content::Image => Content::Image,
        Content::ToolUse(u) => Content::ToolUse(
            ToolUse { id: u.id.clone(), name: u.name.clone(), input: u.input.clone() },
        ),
        Content::ToolResult(t) => Content::ToolResult(copy_tool_result(t)),
        Content::Thinking { thinking, signature } => Content::Thinking {
            thinking: thinking.clone(),
            signature: signature.clone(),
        },
    }
}

/// A copy of a tool result.
pub fn copy_tool_result(t: &ToolResult) -> (r: ToolResult)
    ensures
        same_tool_result(*t, r),
    decreases t, 0int,
{
    ToolResult {
        tool_use_id: t.tool_use_id.clone(),
        content: copy_result_content(&t.content),
        is_error: t.is_error,
    }
}

/// A copy of the content of a tool result.
pub fn copy_result_content(c: &ToolResultContent) -> (r: ToolResultContent)
    ensures
        same_result_content(*c, r),
    decreases c, 0int,
{
    match c {
        ToolResultContent::Content(v) => {
            let w = copy_pieces(v);
            ToolResultContent::Content(w)
        },
        ToolResultContent::String(s) => ToolResultContent::String(s.clone()),
    }
}

/// A copy of a list of pieces.
pub fn copy_pieces(v: &Vec<Content>) -> (r: Vec<Content>)
    ensures
        r@.len() == v@.len(),
        same_pieces(v@, r@, v@.len() as int),
    decreases v, 1int,
{
    let mut w: Vec<Content> = Vec::new();
    let mut i: usize = 0;
    while i < v.len()
        invariant
            i <= v@.len(),
            w@.len() == i,
            forall|j: int| 0 <= j < i ==> #[trigger] same_content(v@[j], w@[j]),
        decreases v@.len() - i,
    {
        proof {
            vstd::std_specs::vec::axiom_vec_index_decreases(*v, i as int);
        }
        let c = copy_content(&v[i]);
        w.push(c);
        i = i + 1;
    }
    proof {
        lemma_same_pieces_from_each(v@, w@, v@.len() as int);
    }
    w
}

proof fn lemma_same_pieces_from_each(a: Seq<Content>, b: Seq<Content>, n: int)
    requires
        0 <= n <= a.len(),
        n <= b.len(),
        forall|j: int| 0 <= j < n ==> #[trigger] same_content(a[j], b[j]),
    ensures
        same_pieces(a, b, n),
    decreases n,
{
    if n > 0 {
        lemma_same_pieces_from_each(a, b, n - 1);
        assert(same_content(a[n - 1], b[n - 1]));
    }
}

impl Clone for Content {
    fn clone(&self) -> (r: Self)
        ensures
            same_content(*self, r),
    {
        copy_content(self)
    }
}

impl Clone for ToolResult {
    fn clone(&self) -> (r: Self)
        ensures
            same_tool_result(*self, r),
    {
        copy_tool_result(self)
    }
}

impl Clone for ToolResultContent {
    fn clone(&self) -> (r: Self)
        ensures
            same_result_content(*self, r),
    {
        copy_result_content(self)
    }
}

} // verus!
