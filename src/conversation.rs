//! A conversation: its history, system prompt and tools, and whose turn it is.
//!
//! A conversation is idle or awaits a response. A turn operation (a user message, tool
//! results, a retry) is taken only when idle: it appends to the history where it has
//! something to append, returns the request to send, and waits for the response. The
//! response is taken only while waiting. A successful one appends the assistant's message;
//! an error leaves the history as it was and makes the conversation idle again. The
//! message that opened the turn stays in the history, so that the same request can be sent
//! again with [`Conversation::retry`].
use vstd::prelude::*;
use crate::{classify_response, Api, MessagesRequestBuilder, ResponseError, request_headers_ok};
use crate::anthropic::{
    copy_pieces, same_pieces, ApiResponse, Content, Message, Role, Tool, ToolResult, ToolUse,
};
use crate::http_request::HttpRequest;
use crate::request_body::body_json;
use crate::shared_vec::{
    message_at, message_items, messages_clone, messages_len, messages_new, messages_push,
    tool_at, tool_items, tools_clone, tools_len, tools_new, tools_push,
};

verus! {

/// A turn operation was called in the wrong state.
#[derive(Clone, Copy, Debug, PartialEq, Eq, Structural)]
pub enum ProtocolError {
    /// A request is outstanding: no new turn may start.
    NotIdle,
    /// No request is outstanding: there is no response to take.
    NotAwaitingResponse,
    /// The history does not end with a message of the user: there is no request to repeat.
    NothingToRetry,
}

/// What the caller does with a response.
#[derive(Debug)]
pub enum Action {
    /// Show or act on the pieces of the assistant's message.
    HandleAgentMessage(Vec<Content>),
}

/// A conversation with the API.
#[derive(Debug)]
pub struct Conversation {
    system: Option<String>,
    messages: im::Vector<Message>,
    tools: im::Vector<Tool>,
    awaiting: bool,
}

/// `r` is the request for the whole of `history`, with the system prompt and, when there
/// are any, the tools, under the defaults of `api`.
pub open spec fn is_request_for(
    r: HttpRequest,
    api: Api,
    system: Option<Seq<char>>,
    history: Seq<Message>,
    tools: Seq<Tool>,
) -> bool {
    &&& r.host@ == api.spec_endpoint_host()
    &&& r.path@ == "/v1/messages"@
    &&& r.method@ == "POST"@
    &&& request_headers_ok(
        r.headers@,
        api.spec_api_key(),
        api.spec_default_model(),
        api.spec_default_max_tokens(),
    )
    &&& r.body@ == body_json(
        api.spec_default_model(),
        api.spec_default_max_tokens(),
        system,
        history,
        if tools.len() > 0 {
            Some(tools)
        } else {
            None
        },
        false,
    )
}

/// A message of the user holding one piece of text.
pub open spec fn is_user_text(m: Message, text: Seq<char>) -> bool {
    &&& m.role == Role::User
    &&& m.content@.len() == 1
    &&& m.content@[0] matches Content::Text { text: t } && t@ == text
}

/// A message of the user holding the tool results, in order.
pub open spec fn is_user_results(m: Message, results: Seq<ToolResult>) -> bool {
    &&& m.role == Role::User
    &&& m.content@.len() == results.len()
    &&& forall|i: int| 0 <= i < results.len() ==> #[trigger] m.content@[i] == Content::ToolResult(results[i])
}

/// A turn that starts from `before` and appends one message: `after` awaits the response
/// to `r`, the request for the new history.
pub open spec fn opens_turn(before: Conversation, after: Conversation, api: Api, r: HttpRequest) -> bool {
    &&& before.is_idle_spec()
    &&& after.spec_history().len() == before.spec_history().len() + 1
    &&& after.spec_history().drop_last() == before.spec_history()
    &&& after.spec_system() == before.spec_system()
    &&& after.spec_tools() == before.spec_tools()
    &&& !after.is_idle_spec()
    &&& is_request_for(r, api, after.spec_system(), after.spec_history(), after.spec_tools())
}

/// `after` is `before` once the response `m` has been taken.
pub open spec fn takes_response(before: Conversation, after: Conversation, m: Message) -> bool {
    &&& !before.is_idle_spec()
    &&& after.spec_history() == before.spec_history().push(m)
    &&& after.spec_system() == before.spec_system()
    &&& after.spec_tools() == before.spec_tools()
    &&& after.is_idle_spec()
}

/// `after` is `before` made idle, with nothing else changed.
pub open spec fn returns_idle(before: Conversation, after: Conversation) -> bool {
    &&& after.spec_history() == before.spec_history()
    &&& after.spec_system() == before.spec_system()
    &&& after.spec_tools() == before.spec_tools()
    &&& after.is_idle_spec()
}

impl Conversation {
    /// The system prompt, if set.
    pub closed spec fn spec_system(&self) -> Option<Seq<char>> {
        match self.system {
            Some(s) => Some(s@),
            None => None,
        }
    }

    /// The messages of the conversation, in order.
    pub closed spec fn spec_history(&self) -> Seq<Message> {
        message_items(self.messages)
    }

    /// The tools offered to the model, in order.
    pub closed spec fn spec_tools(&self) -> Seq<Tool> {
        tool_items(self.tools)
    }

    /// No request is outstanding.
    pub closed spec fn is_idle_spec(&self) -> bool {
        !self.awaiting
    }

    /// An idle conversation with no system prompt, history or tools.
    pub fn new() -> (r: Self)
        ensures
            r.spec_system() is None,
            r.spec_history() == Seq::<Message>::empty(),
            r.spec_tools() == Seq::<Tool>::empty(),
            r.is_idle_spec(),
    {
        Conversation { system: None, messages: messages_new(), tools: tools_new(), awaiting: false }
    }

    /// An idle conversation with the given system prompt, history and tools, as when one is
    /// restored from a saved copy.
    pub fn from_parts(system: Option<String>, messages: im::Vector<Message>, tools: im::Vector<Tool>) -> (r: Self)
        ensures
            r.spec_system() == match system {
                Some(s) => Some(s@),
                None => None::<Seq<char>>,
            },
            r.spec_history() == message_items(messages),
            r.spec_tools() == tool_items(tools),
            r.is_idle_spec(),
    {
        Conversation { system, messages, tools, awaiting: false }
    }

    /// The system prompt, if set.
    pub fn system(&self) -> (r: Option<&str>)
        ensures
            match r {
                Some(s) => self.spec_system() == Some(s@),
                None => self.spec_system() is None,
            },
    {
        match &self.system {
            Some(s) => Some(s.as_str()),
            None => None,
        }
    }

    /// The tools.
    pub fn tools(&self) -> (r: &im::Vector<Tool>)
        ensures
            tool_items(*r) == self.spec_tools(),
    {
        &self.tools
    }

    /// Whether no request is outstanding.
    pub fn is_idle(&self) -> (r: bool)
        ensures
            r == self.is_idle_spec(),
    {
        !self.awaiting
    }

    /// Sets the system prompt.
    pub fn set_system(&mut self, system: &str)
        ensures
            final(self).spec_system() == Some(system@),
            final(self).spec_history() == old(self).spec_history(),
            final(self).spec_tools() == old(self).spec_tools(),
            final(self).is_idle_spec() == old(self).is_idle_spec(),
    {
        self.system = Some(system.to_string());
    }

    /// Adds a tool, offered in every later request.
    pub fn add_tool(&mut self, tool: Tool)
        ensures
            final(self).spec_tools() == old(self).spec_tools().push(tool),
            final(self).spec_system() == old(self).spec_system(),
            final(self).spec_history() == old(self).spec_history(),
            final(self).is_idle_spec() == old(self).is_idle_spec(),
    {
        tools_push(&mut self.tools, tool);
    }

    /// Replaces the tools.
    pub fn set_tools(&mut self, tools: im::Vector<Tool>)
        ensures
            final(self).spec_tools() == tool_items(tools),
            final(self).spec_system() == old(self).spec_system(),
            final(self).spec_history() == old(self).spec_history(),
            final(self).is_idle_spec() == old(self).is_idle_spec(),
    {
        self.tools = tools;
    }

    /// Clears the history.
    pub fn clear(&mut self)
        ensures
            final(self).spec_history() == Seq::<Message>::empty(),
            final(self).spec_system() == old(self).spec_system(),
            final(self).spec_tools() == old(self).spec_tools(),
            final(self).is_idle_spec() == old(self).is_idle_spec(),
    {
        self.messages = messages_new();
    }

    /// The history.
    pub fn history(&self) -> (r: &im::Vector<Message>)
        ensures
            message_items(*r) == self.spec_history(),
    {
        &self.messages
    }

    /// The request for the current history, after which a response is awaited.
    fn send_history(&mut self, api: &Api) -> (r: HttpRequest)
        ensures
            final(self).spec_history() == old(self).spec_history(),
            final(self).spec_system() == old(self).spec_system(),
            final(self).spec_tools() == old(self).spec_tools(),
            !final(self).is_idle_spec(),
            is_request_for(r, *api, old(self).spec_system(), old(self).spec_history(), old(self).spec_tools()),
    {
        let mut builder = MessagesRequestBuilder::new().set_messages(messages_clone(&self.messages));
        match &self.system {
            Some(s) => {
                builder = builder.system(s.as_str());
            },
            None => {},
        }
        if tools_len(&self.tools) > 0 {
            builder = builder.set_tools(tools_clone(&self.tools));
        }
        self.awaiting = true;
        builder.build(api)
    }

    /// Appends `message` and returns the request for the new history.
    fn build_message(&mut self, api: &Api, message: Message) -> (r: HttpRequest)
        requires
            old(self).is_idle_spec(),
        ensures
            opens_turn(*old(self), *final(self), *api, r),
            final(self).spec_history().last() == message,
    {
        messages_push(&mut self.messages, message);
        assert(self.spec_history().drop_last() =~= old(self).spec_history());
        self.send_history(api)
    }

    /// Starts a turn with a message of the user; refused while a request is outstanding.
    pub fn user_message(&mut self, api: &Api, user_message: &str) -> (r: Result<HttpRequest, ProtocolError>)
        ensures
            old(self).is_idle_spec() ==> (r matches Ok(req)
                && opens_turn(*old(self), *final(self), *api, req)
                && is_user_text(final(self).spec_history().last(), user_message@)),
            !old(self).is_idle_spec() ==> r == Err::<HttpRequest, ProtocolError>(ProtocolError::NotIdle)
                && *final(self) == *old(self),
    {
        if self.awaiting {
            return Err(ProtocolError::NotIdle);
        }
        let message = Message::from_text(Role::User, user_message);
        let req = self.build_message(api, message);
        Ok(req)
    }

    /// Starts a turn with the result of one tool use; refused while a request is outstanding.
    pub fn tool_result(&mut self, api: &Api, tool_result: ToolResult) -> (r: Result<HttpRequest, ProtocolError>)
        ensures
            old(self).is_idle_spec() ==> (r matches Ok(req)
                && opens_turn(*old(self), *final(self), *api, req)
                && is_user_results(final(self).spec_history().last(), seq![tool_result])),
            !old(self).is_idle_spec() ==> r == Err::<HttpRequest, ProtocolError>(ProtocolError::NotIdle)
                && *final(self) == *old(self),
    {
        if self.awaiting {
            return Err(ProtocolError::NotIdle);
        }
        let ghost results = seq![tool_result];
        let message = Message { role: Role::User, content: vec![Content::ToolResult(tool_result)] };
        assert(is_user_results(message, results));
        let req = self.build_message(api, message);
        Ok(req)
    }

    /// Starts a turn with the results of all tool uses of the last response, in one message;
    /// refused while a request is outstanding.
    pub fn tool_results(&mut self, api: &Api, tool_results: Vec<ToolResult>) -> (r: Result<HttpRequest, ProtocolError>)
        ensures
            old(self).is_idle_spec() ==> (r matches Ok(req)
                && opens_turn(*old(self), *final(self), *api, req)
                && is_user_results(final(self).spec_history().last(), tool_results@)),
            !old(self).is_idle_spec() ==> r == Err::<HttpRequest, ProtocolError>(ProtocolError::NotIdle)
                && *final(self) == *old(self),
    {
        if self.awaiting {
            return Err(ProtocolError::NotIdle);
        }
        let mut rest = tool_results;
        let mut content: Vec<Content> = Vec::new();
        while rest.len() > 0
            invariant
                content@.len() + rest@.len() == tool_results@.len(),
                rest@ == tool_results@.subrange(content@.len() as int, tool_results@.len() as int),
                forall|i: int| 0 <= i < content@.len() ==> #[trigger] content@[i] == Content::ToolResult(tool_results@[i]),
            decreases rest@.len(),
        {
            let t = rest.remove(0);
            content.push(Content::ToolResult(t));
        }
        let message = Message { role: Role::User, content };
        assert(is_user_results(message, tool_results@));
        let req = self.build_message(api, message);
        Ok(req)
    }

    /// Sends the request of the current turn again, after the response to it failed. The
    /// history must end with the user's message; refused while a request is outstanding.
    pub fn retry(&mut self, api: &Api) -> (r: Result<HttpRequest, ProtocolError>)
        ensures
            !old(self).is_idle_spec() ==> r == Err::<HttpRequest, ProtocolError>(ProtocolError::NotIdle)
                && *final(self) == *old(self),
            old(self).is_idle_spec() && (old(self).spec_history().len() == 0
                || old(self).spec_history().last().role != Role::User) ==> r
                == Err::<HttpRequest, ProtocolError>(ProtocolError::NothingToRetry) && *final(self) == *old(self),
            old(self).is_idle_spec() && old(self).spec_history().len() > 0
                && old(self).spec_history().last().role == Role::User ==> (r matches Ok(req)
                && final(self).spec_history() == old(self).spec_history()
                && final(self).spec_system() == old(self).spec_system()
                && final(self).spec_tools() == old(self).spec_tools()
                && !final(self).is_idle_spec()
                && is_request_for(req, *api, old(self).spec_system(), old(self).spec_history(), old(self).spec_tools())),
    {
        if self.awaiting {
            return Err(ProtocolError::NotIdle);
        }
        let n = messages_len(&self.messages);
        if n == 0 {
            return Err(ProtocolError::NothingToRetry);
        }
        if message_at(&self.messages, n - 1).role != Role::User {
            return Err(ProtocolError::NothingToRetry);
        }
        Ok(self.send_history(api))
    }

    /// Gives up the outstanding request: the conversation is idle, its history unchanged.
    pub fn cancel(&mut self)
        ensures
            final(self).is_idle_spec(),
            final(self).spec_history() == old(self).spec_history(),
            final(self).spec_system() == old(self).spec_system(),
            final(self).spec_tools() == old(self).spec_tools(),
    {
        self.awaiting = false;
    }

    /// Takes the response to the outstanding request. A message is appended to the history
    /// and its pieces returned; on any error the history stays as it was. Either way the
    /// conversation is idle again. Refused when no request is outstanding.
    pub fn handle_response(&mut self, response: Result<ApiResponse, serde_json::Error>) -> (r: Result<Action, ResponseError>)
        ensures
            old(self).is_idle_spec() ==> (r matches Err(ResponseError::Protocol(ProtocolError::NotAwaitingResponse))
                && *final(self) == *old(self)),
            !old(self).is_idle_spec() ==> match response {
                Ok(ApiResponse::Message(m)) => r matches Ok(Action::HandleAgentMessage(c))
                    && takes_response(*old(self), *final(self), m.message)
                    && c@.len() == m.message.content@.len()
                    && same_pieces(m.message.content@, c@, c@.len() as int),
                Ok(ApiResponse::Error { error }) => r matches Err(ResponseError::Api(e2))
                    && e2 == error && returns_idle(*old(self), *final(self)),
                Err(e) => r matches Err(ResponseError::Serde(e2)) && e2 == e
                    && returns_idle(*old(self), *final(self)),
            },
    {
        if !self.awaiting {
            return Err(ResponseError::Protocol(ProtocolError::NotAwaitingResponse));
        }
        self.awaiting = false;
        match classify_response(response) {
            Ok(m) => {
                let content = copy_pieces(&m.message.content);
                messages_push(&mut self.messages, m.message);
                Ok(Action::HandleAgentMessage(content))
            },
            Err(e) => Err(e),
        }
    }

    /// The error result to send back for a tool use whose tool is not registered; `None`
    /// when a tool of that name is registered, for the caller to run.
    pub fn unknown_tool_result(&self, tool_use: &ToolUse) -> (r: Option<ToolResult>)
        ensures
            r is None <==> exists|i: int| 0 <= i < self.spec_tools().len() && #[trigger] self.spec_tools()[i].name@ == tool_use.name@,
            r matches Some(t) ==> (t.tool_use_id@ == tool_use.id@ && t.is_error == Some(true)
                && (t.content matches crate::anthropic::ToolResultContent::String(msg) && msg@ == "Unknown tool: "@ + tool_use.name@)),
    {
        let n = tools_len(&self.tools);
        let mut i: usize = 0;
        while i < n
            invariant
                n == self.spec_tools().len(),
                i <= n,
                forall|j: int| 0 <= j < i ==> #[trigger] self.spec_tools()[j].name@ != tool_use.name@,
            decreases n - i,
        {
            if tool_at(&self.tools, i).name == tool_use.name {
                return None;
            }
            i = i + 1;
        }
        Some(ToolResult::unknown_tool(tool_use.id.clone(), tool_use.name.as_str()))
    }
}

impl Default for Conversation {
    fn default() -> (r: Self)
        ensures
            r.spec_system() is None,
            r.spec_history() == Seq::<Message>::empty(),
            r.spec_tools() == Seq::<Tool>::empty(),
            r.is_idle_spec(),
    {
        Conversation::new()
    }
}

/// A tool round trip: a user's message, an answer, the result of a tool and the final
/// answer append exactly four messages to the history, in that order, and the request for
/// the tool's result carries the whole history up to it.
pub proof fn lemma_tool_round_trip(
    c0: Conversation,
    c1: Conversation,
    c2: Conversation,
    c3: Conversation,
    c4: Conversation,
    api: Api,
    text: Seq<char>,
    first_request: HttpRequest,
    tool_use_answer: Message,
    result: ToolResult,
    result_request: HttpRequest,
    final_answer: Message,
)
    requires
        opens_turn(c0, c1, api, first_request),
        is_user_text(c1.spec_history().last(), text),
        takes_response(c1, c2, tool_use_answer),
        opens_turn(c2, c3, api, result_request),
        is_user_results(c3.spec_history().last(), seq![result]),
        takes_response(c3, c4, final_answer),
    ensures
        c4.spec_history().len() == c0.spec_history().len() + 4,
        c4.spec_history().subrange(0, c0.spec_history().len() as int) == c0.spec_history(),
        is_user_text(c4.spec_history()[c0.spec_history().len() as int], text),
        c4.spec_history()[c0.spec_history().len() + 1int] == tool_use_answer,
        is_user_results(c4.spec_history()[c0.spec_history().len() + 2int], seq![result]),
        c4.spec_history()[c0.spec_history().len() + 3int] == final_answer,
        is_request_for(result_request, api, c0.spec_system(), c3.spec_history(), c0.spec_tools()),
        c4.is_idle_spec(),
        c0.spec_history().len() == 0 ==> c4.spec_history().len() == 4,
{
    let n = c0.spec_history().len() as int;
    let h1 = c1.spec_history();
    let h3 = c3.spec_history();
    let h4 = c4.spec_history();
    assert(h1 =~= h1.drop_last().push(h1.last()));
    assert(h3 =~= h3.drop_last().push(h3.last()));
    assert(h4 =~= c0.spec_history().push(h1.last()).push(tool_use_answer).push(h3.last()).push(final_answer));
    assert(h4.subrange(0, n) =~= c0.spec_history());
}

} // verus!
