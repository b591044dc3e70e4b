//! The JSON text of a request to the messages endpoint.
use vstd::prelude::*;
use crate::anthropic::{Content, Message, Role, Tool, ToolResult, ToolResultContent};
use crate::json_value::{quote, quoted, value_text, value_to_json};
use crate::shared_vec::{message_at, message_items, messages_len, tool_at, tool_items, tools_len};

verus! {

/// The decimal digit for `d`.
pub open spec fn digit_char(d: nat) -> char {
    if d == 0 { '0' }
    else if d == 1 { '1' }
    else if d == 2 { '2' }
    else if d == 3 { '3' }
    else if d == 4 { '4' }
    else if d == 5 { '5' }
    else if d == 6 { '6' }
    else if d == 7 { '7' }
    else if d == 8 { '8' }
    else { '9' }
}

/// The decimal text of `n`, without leading zeros.
pub open spec fn decimal(n: nat) -> Seq<char>
    decreases n,
{
    if n < 10 {
        seq![digit_char(n)]
    } else {
        decimal(n / 10) + seq![digit_char(n % 10)]
    }
}

/// Relies on `ToString for u32`, which writes the number in decimal.
#[verifier::external_body]
pub fn u32_to_decimal(n: u32) -> (r: String)
    ensures
        r@ == decimal(n as nat),
{
    n.to_string()
}

/// `true` or `false`.
pub open spec fn bool_json(b: bool) -> Seq<char> {
    if b { "true"@ } else { "false"@ }
}

/// The JSON text of a role.
pub open spec fn role_json(r: Role) -> Seq<char> {
    match r {
        Role::User => "\"user\""@,
        Role::Assistant => "\"assistant\""@,
    }
}

/// The JSON object of a content piece, tagged by `type`.
pub open spec fn content_json(c: Content) -> Seq<char>
    decreases c, 0int,
{
    match c {
        Content::Text { text } => "{\"type\":\"text\",\"text\":"@ + quoted(text@) + "}"@,
        Content::Image => "{\"type\":\"image\"}"@,
        Content::ToolUse(u) => "{\"type\":\"tool_use\",\"id\":"@ + quoted(u.id@) + ",\"name\":"@
            + quoted(u.name@) + ",\"input\":"@ + value_text(u.input) + "}"@,
        Content::ToolResult(t) => tool_result_json(t),
        Content::Thinking { thinking, signature } => "{\"type\":\"thinking\",\"thinking\":"@
            + quoted(thinking@) + ",\"signature\":"@ + quoted(signature@) + "}"@,
    }
}

/// The JSON object of a tool result; `is_error` is written only when it is set.
pub open spec fn tool_result_json(t: ToolResult) -> Seq<char>
    decreases t, 0int,
{
    "{\"type\":\"tool_result\",\"tool_use_id\":"@ + quoted(t.tool_use_id@) + ",\"content\":"@
        + result_content_json(t.content) + match t.is_error {
        Some(b) => ",\"is_error\":"@ + bool_json(b),
        None => Seq::empty(),
    } + "}"@
}

/// A list of pieces as an array; a string as a JSON string.
pub open spec fn result_content_json(c: ToolResultContent) -> Seq<char>
    decreases c, 0int,
{
    match c {
        ToolResultContent::Content(v) => "["@ + pieces_json(v@, v@.len() as int) + "]"@,
        ToolResultContent::String(s) => quoted(s@),
    }
}

/// The JSON objects of the first `n` pieces, separated by commas.
pub open spec fn pieces_json(pieces: Seq<Content>, n: int) -> Seq<char>
    decreases pieces, n,
{
    if n <= 0 || n > pieces.len() {
        Seq::empty()
    } else if n == 1 {
        content_json(pieces[0])
    } else {
        pieces_json(pieces, n - 1) + ","@ + content_json(pieces[n - 1])
    }
}

/// The JSON object of a message.
pub open spec fn message_json(m: Message) -> Seq<char> {
    "{\"role\":"@ + role_json(m.role) + ",\"content\":["@ + pieces_json(m.content@, m.content@.len() as int)
        + "]}"@
}

/// The JSON objects of the first `n` messages, separated by commas.
pub open spec fn messages_json(ms: Seq<Message>, n: int) -> Seq<char>
    decreases n,
{
    if n <= 0 || n > ms.len() {
        Seq::empty()
    } else if n == 1 {
        message_json(ms[0])
    } else {
        messages_json(ms, n - 1) + ","@ + message_json(ms[n - 1])
    }
}

/// The JSON object of a tool.
pub open spec fn tool_json(t: Tool) -> Seq<char> {
    "{\"name\":"@ + quoted(t.name@) + ",\"description\":"@ + quoted(t.description@)
        + ",\"input_schema\":"@ + value_text(t.input_schema) + "}"@
}

/// The JSON objects of the first `n` tools, separated by commas.
pub open spec fn tools_json(ts: Seq<Tool>, n: int) -> Seq<char>
    decreases n,
{
    if n <= 0 || n > ts.len() {
        Seq::empty()
    } else if n == 1 {
        tool_json(ts[0])
    } else {
        tools_json(ts, n - 1) + ","@ + tool_json(ts[n - 1])
    }
}

/// The body of a messages request. `system` and `tools` are written only when present,
/// `stream` only when it is set.
pub open spec fn body_json(
    model: Seq<char>,
    max_tokens: u32,
    system: Option<Seq<char>>,
    messages: Seq<Message>,
    tools: Option<Seq<Tool>>,
    stream: bool,
) -> Seq<char> {
    "{\"model\":"@ + quoted(model) + ",\"max_tokens\":"@ + decimal(max_tokens as nat) + match system {
        Some(s) => ",\"system\":"@ + quoted(s),
        None => Seq::empty(),
    } + ",\"messages\":["@ + messages_json(messages, messages.len() as int) + "]"@ + match tools {
        Some(ts) => ",\"tools\":["@ + tools_json(ts, ts.len() as int) + "]"@,
        None => Seq::empty(),
    } + if stream {
        ",\"stream\":true"@
    } else {
        Seq::empty()
    } + "}"@
}

/// Writes the JSON object of a piece.
pub fn content_to_json(c: &Content) -> (r: String)
    ensures
        r@ == content_json(*c),
    decreases c, 0int,
{
    match c {
        Content::Text { text } => {
            let mut out = String::from_str("{\"type\":\"text\",\"text\":");
            out.append(quote(text.as_str()).as_str());
            out.append("}");
            out
        },
        Content::Image => String::from_str("{\"type\":\"image\"}"),
        Content::ToolUse(u) => {
            let mut out = String::from_str("{\"type\":\"tool_use\",\"id\":");
            out.append(quote(u.id.as_str()).as_str());
            out.append(",\"name\":");
            out.append(quote(u.name.as_str()).as_str());
            out.append(",\"input\":");
            out.append(value_to_json(&u.input).as_str());
            out.append("}");
            out
        },
        Content::ToolResult(t) => tool_result_to_json(t),
        Content::Thinking { thinking, signature } => {
            let mut out = String::from_str("{\"type\":\"thinking\",\"thinking\":");
            out.append(quote(thinking.as_str()).as_str());
            out.append(",\"signature\":");
            out.append(quote(signature.as_str()).as_str());
            out.append("}");
            out
        },
    }
}

/// Writes the JSON object of a tool result.
pub fn tool_result_to_json(t: &ToolResult) -> (r: String)
    ensures
        r@ == tool_result_json(*t),
    decreases t, 0int,
{
    let mut out = String::from_str("{\"type\":\"tool_result\",\"tool_use_id\":");
    out.append(quote(t.tool_use_id.as_str()).as_str());
    out.append(",\"content\":");
    out.append(result_content_to_json(&t.content).as_str());
    match t.is_error {
        Some(b) => {
            out.append(",\"is_error\":");
            if b {
                out.append("true");
            } else {
                out.append("false");
            }
        },
        None => {},
    }
    out.append("}");
    out
}

/// Writes the content of a tool result.
pub fn result_content_to_json(c: &ToolResultContent) -> (r: String)
    ensures
        r@ == result_content_json(*c),
    decreases c, 0int,
{
    match c {
        ToolResultContent::Content(v) => {
            let mut out = String::from_str("[");
            out.append(pieces_to_json(v).as_str());
            out.append("]");
            out
        },
        ToolResultContent::String(s) => quote(s.as_str()),
    }
}

/// Writes the JSON objects of `pieces`, separated by commas.
pub fn pieces_to_json(pieces: &Vec<Content>) -> (r: String)
    ensures
        r@ == pieces_json(pieces@, pieces@.len() as int),
    decreases pieces, 1int,
{
    let mut out = String::new();
    let mut i: usize = 0;
    while i < pieces.len()
        invariant
            i <= pieces@.len(),
            out@ == pieces_json(pieces@, i as int),
        decreases pieces@.len() - i,
    {
        proof {
            vstd::std_specs::vec::axiom_vec_index_decreases(*pieces, i as int);
        }
        if i > 0 {
            out.append(",");
        }
        out.append(content_to_json(&pieces[i]).as_str());
        i = i + 1;
    }
    out
}

/// Writes the JSON object of a message.
pub fn message_to_json(m: &Message) -> (r: String)
    ensures
        r@ == message_json(*m),
{
    let mut out = String::from_str("{\"role\":");
    match m.role {
        Role::User => out.append("\"user\""),
        Role::Assistant => out.append("\"assistant\""),
    }
    out.append(",\"content\":[");
    out.append(pieces_to_json(&m.content).as_str());
    out.append("]}");
    out
}

/// Writes the JSON objects of the messages, separated by commas.
pub fn messages_to_json(ms: &im::Vector<Message>) -> (r: String)
    ensures
        r@ == messages_json(message_items(*ms), message_items(*ms).len() as int),
{
    let n = messages_len(ms);
    let mut out = String::new();
    let mut i: usize = 0;
    while i < n
        invariant
            n == message_items(*ms).len(),
            i <= n,
            out@ == messages_json(message_items(*ms), i as int),
        decreases n - i,
    {
        if i > 0 {
            out.append(",");
        }
        out.append(message_to_json(message_at(ms, i)).as_str());
        i = i + 1;
    }
    out
}

/// Writes the JSON objects of the tools, separated by commas.
pub fn tools_to_json(ts: &im::Vector<Tool>) -> (r: String)
    ensures
        r@ == tools_json(tool_items(*ts), tool_items(*ts).len() as int),
{
    let n = tools_len(ts);
    let mut out = String::new();
    let mut i: usize = 0;
    while i < n
        invariant
            n == tool_items(*ts).len(),
            i <= n,
            out@ == tools_json(tool_items(*ts), i as int),
        decreases n - i,
    {
        let t = tool_at(ts, i);
        if i > 0 {
            out.append(",");
        }
        out.append("{\"name\":");
        out.append(quote(t.name.as_str()).as_str());
        out.append(",\"description\":");
        out.append(quote(t.description.as_str()).as_str());
        out.append(",\"input_schema\":");
        out.append(value_to_json(&t.input_schema).as_str());
        out.append("}");
        i = i + 1;
    }
    out
}

/// Writes the body of a messages request.
pub fn body_to_json(
    model: &str,
    max_tokens: u32,
    system: &Option<String>,
    messages: &im::Vector<Message>,
    tools: &Option<im::Vector<Tool>>,
    stream: bool,
) -> (r: String)
    ensures
        r@ == body_json(
            model@,
            max_tokens,
            match *system {
                Some(s) => Some(s@),
                None => None,
            },
            message_items(*messages),
            match *tools {
                Some(t) => Some(tool_items(t)),
                None => None,
            },
            stream,
        ),
{
    let mut body = String::from_str("{\"model\":");
    body.append(quote(model).as_str());
    body.append(",\"max_tokens\":");
    body.append(u32_to_decimal(max_tokens).as_str());
    match system {
        Some(s) => {
            body.append(",\"system\":");
            body.append(quote(s.as_str()).as_str());
        },
        None => {},
    }
    body.append(",\"messages\":[");
    body.append(messages_to_json(messages).as_str());
    body.append("]");
    match tools {
        Some(ts) => {
            body.append(",\"tools\":[");
            body.append(tools_to_json(ts).as_str());
            body.append("]");
        },
        None => {},
    }
    if stream {
        body.append(",\"stream\":true");
    }
    body.append("}");
    body
}

} // verus!
