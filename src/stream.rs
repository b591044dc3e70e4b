//! Folding the events of a streamed response into the finished message.
use vstd::prelude::*;
use crate::anthropic::{
    ApiError, Content, Delta, Message, MessagesResponse, StopReason, StreamEvent, StreamingMessage,
    StreamingUsage, ToolUse, Usage,
};
use crate::json_value::{parse_value, parsed_value};

verus! {

/// The content block being received: its index, the piece so far, and the JSON text of a
/// tool's input received so far.
#[derive(Debug)]
pub struct OpenBlock {
    pub index: u32,
    pub piece: Content,
    pub partial_json: String,
}

/// What a fed event yields.
#[derive(Debug)]
pub enum ReduceStep {
    /// Nothing to report yet.
    Pending,
    /// An event of an unknown kind, passed on for logging; the reduction goes on.
    Unknown { event_type: Vec<u8>, contents: serde_json::Value },
    /// The message is finished.
    Finished(MessagesResponse),
}

/// Why an event could not be taken.
#[derive(Debug)]
pub enum StreamError {
    /// The API reported an error: the turn is over.
    Api(ApiError),
    /// The event needs a started message, and there is none.
    NotStarted,
    /// A message was started twice.
    AlreadyStarted,
    /// A block was started, or the message stopped, while a block was open.
    BlockOpen { index: u32 },
    /// The event names a block that is not open.
    NoOpenBlock { index: u32 },
    /// The delta does not fit the kind of the open block.
    DeltaMismatch { index: u32 },
    /// The input of a tool use is not JSON.
    InvalidToolInput(serde_json::Error),
    /// The message stopped without a stop reason.
    MissingStopReason,
}

/// Accumulates the events of one streamed turn.
#[derive(Debug)]
pub struct StreamReducer {
    message: Option<StreamingMessage>,
    open: Option<OpenBlock>,
}

/// The usage `u` with the counts that `d` carries.
pub open spec fn merge_usage(u: Usage, d: Option<StreamingUsage>) -> Usage {
    match d {
        Some(s) => Usage {
            input_tokens: match s.input_tokens {
                Some(n) => n,
                None => u.input_tokens,
            },
            output_tokens: match s.output_tokens {
                Some(n) => n,
                None => u.output_tokens,
            },
        },
        None => u,
    }
}

/// `after` is the open block `before` with `delta` applied.
pub open spec fn applies_delta(before: OpenBlock, delta: Delta, after: OpenBlock) -> bool {
    &&& after.index == before.index
    &&& match delta {
        Delta::TextDelta { text: d } => before.piece matches Content::Text { text: t }
            && after.piece matches Content::Text { text: t2 } && t2@ == t@ + d@
            && after.partial_json == before.partial_json,
        Delta::ThinkingDelta { thinking: d } => before.piece matches Content::Thinking { thinking: t, signature: s }
            && after.piece matches Content::Thinking { thinking: t2, signature: s2 } && t2@ == t@ + d@
            && s2 == s && after.partial_json == before.partial_json,
        Delta::SignatureDelta { signature: d } => before.piece matches Content::Thinking { thinking: t, signature: s }
            && after.piece matches Content::Thinking { thinking: t2, signature: s2 } && s2@ == s@ + d@
            && t2 == t && after.partial_json == before.partial_json,
        Delta::InputJsonDelta { partial_json: d } => before.piece is ToolUse
            && after.piece == before.piece && after.partial_json@ == before.partial_json@ + d@,
    }
}

/// Whether `delta` fits the piece of an open block.
pub open spec fn delta_fits(piece: Content, delta: Delta) -> bool {
    match delta {
        Delta::TextDelta { .. } => piece is Text,
        Delta::ThinkingDelta { .. } => piece is Thinking,
        Delta::SignatureDelta { .. } => piece is Thinking,
        Delta::InputJsonDelta { .. } => piece is ToolUse,
    }
}

/// The piece a closed block adds to the message: a tool use takes the input received in
/// pieces, when any was; `None` when that input is not JSON.
pub open spec fn closed_piece_ok(b: OpenBlock, piece: Content) -> bool {
    match b.piece {
        Content::ToolUse(u) => if b.partial_json@.len() == 0 {
            piece == b.piece
        } else {
            parsed_value(b.partial_json@) matches Some(v) && piece == Content::ToolUse(
                ToolUse { input: v, ..u },
            )
        },
        _ => piece == b.piece,
    }
}

/// `m` is the finished response of the streamed message `s`.
pub open spec fn finishes(s: StreamingMessage, m: MessagesResponse) -> bool {
    &&& s.stop_reason == Some(m.stop_reason)
    &&& m.id == s.id
    &&& m.model == s.model
    &&& m.stop_sequence == s.stop_sequence
    &&& m.usage == s.usage
    &&& m.message.role == s.role
    &&& m.message.content@ == s.content@
}

/// Applies `delta` to the open block `b`; gives `b` back when the delta does not fit.
fn apply_delta(b: OpenBlock, delta: Delta) -> (r: Result<OpenBlock, OpenBlock>)
    ensures
        delta_fits(b.piece, delta) ==> (r matches Ok(b2) && applies_delta(b, delta, b2)),
        !delta_fits(b.piece, delta) ==> r == Err::<OpenBlock, OpenBlock>(b),
{
    let OpenBlock { index, piece, partial_json } = b;
    match delta {
        Delta::TextDelta { text: d } => match piece {
            Content::Text { text } => {
                let mut t = text;
                t.append(d.as_str());
                Ok(OpenBlock { index, piece: Content::Text { text: t }, partial_json })
            },
            other => Err(OpenBlock { index, piece: other, partial_json }),
        },
        Delta::ThinkingDelta { thinking: d } => match piece {
            Content::Thinking { thinking, signature } => {
                let mut t = thinking;
                t.append(d.as_str());
                Ok(OpenBlock { index, piece: Content::Thinking { thinking: t, signature }, partial_json })
            },
            other => Err(OpenBlock { index, piece: other, partial_json }),
        },
        Delta::SignatureDelta { signature: d } => match piece {
            Content::Thinking { thinking, signature } => {
                let mut sig = signature;
                sig.append(d.as_str());
                Ok(OpenBlock { index, piece: Content::Thinking { thinking, signature: sig }, partial_json })
            },
            other => Err(OpenBlock { index, piece: other, partial_json }),
        },
        Delta::InputJsonDelta { partial_json: d } => match piece {
            Content::ToolUse(u) => {
                let mut j = partial_json;
                j.append(d.as_str());
                Ok(OpenBlock { index, piece: Content::ToolUse(u), partial_json: j })
            },
            other => Err(OpenBlock { index, piece: other, partial_json }),
        },
    }
}

/// The piece a closed block adds to the message; the block back, with the error, when the
/// input of a tool use is not JSON.
fn close_block(b: OpenBlock) -> (r: Result<Content, (OpenBlock, serde_json::Error)>)
    ensures
        b.piece is ToolUse && b.partial_json@.len() > 0 && parsed_value(b.partial_json@) is None
            ==> (r matches Err((b2, _)) && b2 == b),
        !(b.piece is ToolUse && b.partial_json@.len() > 0 && parsed_value(b.partial_json@) is None)
            ==> (r matches Ok(p) && closed_piece_ok(b, p)),
{
    let OpenBlock { index, piece, partial_json } = b;
    match piece {
        Content::ToolUse(u) => {
            if partial_json.as_str().is_empty() {
                Ok(Content::ToolUse(u))
            } else {
                match parse_value(partial_json.as_str()) {
                    Ok(v) => Ok(Content::ToolUse(ToolUse { id: u.id, name: u.name, input: v })),
                    Err(e) => Err((OpenBlock { index, piece: Content::ToolUse(u), partial_json }, e)),
                }
            }
        },
        other => Ok(other),
    }
}

impl StreamReducer {
    /// The message being received, if one was started.
    pub closed spec fn spec_message(&self) -> Option<StreamingMessage> {
        self.message
    }

    /// The block being received, if one is open.
    pub closed spec fn spec_open(&self) -> Option<OpenBlock> {
        self.open
    }

    /// A block is open only within a started message.
    pub open spec fn wf(&self) -> bool {
        self.spec_open() is Some ==> self.spec_message() is Some
    }

    /// A reducer that waits for the start of a message.
    pub fn new() -> (r: Self)
        ensures
            r.wf(),
            r.spec_message() is None,
            r.spec_open() is None,
    {
        StreamReducer { message: None, open: None }
    }

    /// Takes the next event of the stream, in the order received.
    pub fn feed(&mut self, event: StreamEvent) -> (r: Result<ReduceStep, StreamError>)
        requires
            old(self).wf(),
        ensures
            final(self).wf(),
            feeds(*old(self), event, *final(self), r),
    {
        match event {
            StreamEvent::Ping => Ok(ReduceStep::Pending),
            StreamEvent::Unknown { event_type, contents } => Ok(ReduceStep::Unknown { event_type, contents }),
            StreamEvent::Error { error } => {
                self.message = None;
                self.open = None;
                Err(StreamError::Api(error))
            },
            StreamEvent::MessageStart { message } => {
                if self.message.is_some() {
                    return Err(StreamError::AlreadyStarted);
                }
                self.message = Some(StreamingMessage {
                    id: message.id,
                    model: message.model,
                    stop_reason: None,
                    stop_sequence: None,
                    usage: message.usage,
                    role: message.role,
                    content: Vec::new(),
                });
                Ok(ReduceStep::Pending)
            },
            StreamEvent::ContentBlockStart { index, content_block } => {
                if self.message.is_none() {
                    return Err(StreamError::NotStarted);
                }
                match &self.open {
                    Some(b) => {
                        return Err(StreamError::BlockOpen { index: b.index });
                    },
                    None => {},
                }
                self.open = Some(OpenBlock { index, piece: content_block, partial_json: String::new() });
                Ok(ReduceStep::Pending)
            },
            StreamEvent::ContentBlockDelta { index, delta } => {
                if self.message.is_none() {
                    return Err(StreamError::NotStarted);
                }
                let b = match self.open.take() {
                    Some(b) => b,
                    None => {
                        return Err(StreamError::NoOpenBlock { index });
                    },
                };
                if b.index != index {
                    self.open = Some(b);
                    return Err(StreamError::NoOpenBlock { index });
                }
                match apply_delta(b, delta) {
                    Ok(b2) => {
                        self.open = Some(b2);
                        Ok(ReduceStep::Pending)
                    },
                    Err(b) => {
                        self.open = Some(b);
                        Err(StreamError::DeltaMismatch { index })
                    },
                }
            },
            StreamEvent::ContentBlockStop { index } => {
                if self.message.is_none() {
                    return Err(StreamError::NotStarted);
                }
                let b = match self.open.take() {
                    Some(b) => b,
                    None => {
                        return Err(StreamError::NoOpenBlock { index });
                    },
                };
                if b.index != index {
                    self.open = Some(b);
                    return Err(StreamError::NoOpenBlock { index });
                }
                match close_block(b) {
                    Ok(piece) => {
                        let mut s = self.message.take().unwrap();
                        let ghost before = s.content@;
                        s.content.push(piece);
                        proof {
                            assert(s.content@.drop_last() =~= before);
                        }
                        self.message = Some(s);
                        Ok(ReduceStep::Pending)
                    },
                    Err((b, e)) => {
                        self.open = Some(b);
                        Err(StreamError::InvalidToolInput(e))
                    },
                }
            },
            StreamEvent::MessageDelta { delta, usage } => {
                if self.message.is_none() {
                    return Err(StreamError::NotStarted);
                }
                let mut s = self.message.take().unwrap();
                s.update(delta);
                match usage {
                    Some(u) => {
                        match u.input_tokens {
                            Some(n) => {
                                s.usage.input_tokens = n;
                            },
                            None => {},
                        }
                        match u.output_tokens {
                            Some(n) => {
                                s.usage.output_tokens = n;
                            },
                            None => {},
                        }
                    },
                    None => {},
                }
                self.message = Some(s);
                Ok(ReduceStep::Pending)
            },
            StreamEvent::MessageStop => {
                if self.message.is_none() {
                    return Err(StreamError::NotStarted);
                }
                match &self.open {
                    Some(b) => {
                        return Err(StreamError::BlockOpen { index: b.index });
                    },
                    None => {},
                }
                let s = self.message.take().unwrap();
                match s.stop_reason {
                    Some(stop_reason) => Ok(ReduceStep::Finished(MessagesResponse {
                        id: s.id,
                        model: s.model,
                        stop_reason,
                        stop_sequence: s.stop_sequence,
                        usage: s.usage,
                        message: Message { role: s.role, content: s.content },
                    })),
                    None => {
                        self.message = Some(s);
                        Err(StreamError::MissingStopReason)
                    },
                }
            },
        }
    }
}

/// Feeding `event` to `before` gives `after` and returns `r`. An error leaves the reducer as
/// it was, but for an error of the API, after which it waits for a new message.
pub open spec fn feeds(before: StreamReducer, event: StreamEvent, after: StreamReducer, r: Result<ReduceStep, StreamError>) -> bool {
    let unchanged = after.spec_message() == before.spec_message() && after.spec_open() == before.spec_open();
    match event {
        StreamEvent::Ping => r matches Ok(ReduceStep::Pending) && unchanged,
        StreamEvent::Unknown { event_type, contents } => unchanged && (r matches Ok(ReduceStep::Unknown { event_type: t, contents: c })
            && t@ == event_type@ && c == contents),
        StreamEvent::Error { error } => r matches Err(StreamError::Api(e)) && e == error
            && after.spec_message() is None && after.spec_open() is None,
        StreamEvent::MessageStart { message } => if before.spec_message() is Some {
            r matches Err(StreamError::AlreadyStarted) && unchanged
        } else {
            r matches Ok(ReduceStep::Pending) && after.spec_open() == before.spec_open()
                && (after.spec_message() matches Some(s) && s.id == message.id && s.model == message.model
                && s.usage == message.usage && s.role == message.role && s.stop_reason is None
                && s.stop_sequence is None && s.content@.len() == 0)
        },
        _ => if before.spec_message() is None {
            r matches Err(StreamError::NotStarted) && unchanged
        } else {
            let s = before.spec_message()->0;
            match event {
                StreamEvent::ContentBlockStart { index, content_block } => if before.spec_open() is Some {
                    r matches Err(StreamError::BlockOpen { index: i }) && i == before.spec_open()->0.index && unchanged
                } else {
                    r matches Ok(ReduceStep::Pending) && after.spec_message() == before.spec_message()
                        && (after.spec_open() matches Some(b) && b.index == index && b.piece == content_block
                        && b.partial_json@.len() == 0)
                },
                StreamEvent::ContentBlockDelta { index, delta } => if !(before.spec_open() matches Some(b) && b.index == index) {
                    r matches Err(StreamError::NoOpenBlock { index: i }) && i == index && unchanged
                } else if !delta_fits(before.spec_open()->0.piece, delta) {
                    r matches Err(StreamError::DeltaMismatch { index: i }) && i == index && unchanged
                } else {
                    r matches Ok(ReduceStep::Pending) && after.spec_message() == before.spec_message()
                        && (after.spec_open() matches Some(b2) && applies_delta(before.spec_open()->0, delta, b2))
                },
                StreamEvent::ContentBlockStop { index } => if !(before.spec_open() matches Some(b) && b.index == index) {
                    r matches Err(StreamError::NoOpenBlock { index: i }) && i == index && unchanged
                } else {
                    let b = before.spec_open()->0;
                    if b.piece is ToolUse && b.partial_json@.len() > 0 && parsed_value(b.partial_json@) is None {
                        r matches Err(StreamError::InvalidToolInput(_)) && unchanged
                    } else {
                        r matches Ok(ReduceStep::Pending) && after.spec_open() is None
                            && (after.spec_message() matches Some(s2) && s2.id == s.id && s2.model == s.model
                            && s2.usage == s.usage && s2.role == s.role && s2.stop_reason == s.stop_reason
                            && s2.stop_sequence == s.stop_sequence && s2.content@.len() == s.content@.len() + 1
                            && s2.content@.drop_last() == s.content@ && closed_piece_ok(b, s2.content@.last()))
                    }
                },
                StreamEvent::MessageDelta { delta, usage } => r matches Ok(ReduceStep::Pending)
                    && after.spec_open() == before.spec_open() && (after.spec_message() matches Some(s2)
                    && s2.id == s.id && s2.model == s.model && s2.role == s.role && s2.content == s.content
                    && s2.usage == merge_usage(s.usage, usage)
                    && s2.stop_reason == (if delta.stop_reason is Some { delta.stop_reason } else { s.stop_reason })
                    && s2.stop_sequence == (if delta.stop_sequence is Some { delta.stop_sequence } else { s.stop_sequence })),
                StreamEvent::MessageStop => if before.spec_open() is Some {
                    r matches Err(StreamError::BlockOpen { index: i }) && i == before.spec_open()->0.index && unchanged
                } else if s.stop_reason is None {
                    r matches Err(StreamError::MissingStopReason) && unchanged
                } else {
                    after.spec_message() is None && after.spec_open() is None
                        && (r matches Ok(ReduceStep::Finished(m)) && finishes(s, m))
                },
                _ => false,
            }
        },
    }
}

/// The index of the block an event starts, stops or updates.
pub open spec fn event_index(e: StreamEvent) -> u32 {
    match e {
        StreamEvent::ContentBlockStart { index, .. } => index,
        StreamEvent::ContentBlockDelta { index, .. } => index,
        StreamEvent::ContentBlockStop { index } => index,
        _ => 0,
    }
}

/// The text a text delta adds; nothing for any other event.
pub open spec fn delta_text(e: StreamEvent) -> Seq<char> {
    match e {
        StreamEvent::ContentBlockDelta { delta: Delta::TextDelta { text }, .. } => text@,
        _ => Seq::empty(),
    }
}

/// The texts added by the deltas among `events[lo..hi]`, in order.
pub open spec fn text_deltas(events: Seq<StreamEvent>, lo: int, hi: int) -> Seq<char>
    decreases hi - lo,
{
    if hi <= lo {
        Seq::empty()
    } else {
        text_deltas(events, lo, hi - 1) + delta_text(events[hi - 1])
    }
}

/// The stream of one text message: a start, a text block opened with `n` text deltas and
/// closed, a message delta that ends the turn, and the stop.
pub open spec fn is_text_message_stream(events: Seq<StreamEvent>, n: int) -> bool {
    &&& n >= 0
    &&& events.len() == n + 5
    &&& events[0] is MessageStart
    &&& events[1] matches StreamEvent::ContentBlockStart { content_block: Content::Text { .. }, .. }
    &&& forall|i: int| 2 <= i < n + 2 ==> (#[trigger] events[i] matches StreamEvent::ContentBlockDelta { delta: Delta::TextDelta { .. }, .. })
        && event_index(events[i]) == event_index(events[1])
    &&& events[n + 2] is ContentBlockStop && event_index(events[n + 2]) == event_index(events[1])
    &&& events[n + 3] matches StreamEvent::MessageDelta { delta, .. } && delta.stop_reason == Some(StopReason::EndTurn)
    &&& events[n + 4] is MessageStop
}

/// The response that the non-streamed API gives for the message of such a stream: the
/// start's id, model and role, the end of turn with the stop sequence of the message delta,
/// the start's usage with the delta's counts, and one text piece holding the block's first
/// text followed by every delta's text.
pub open spec fn text_message_response(events: Seq<StreamEvent>, n: int, m: MessagesResponse) -> bool {
    match (events[0], events[1], events[n + 3]) {
        (
            StreamEvent::MessageStart { message: start },
            StreamEvent::ContentBlockStart { content_block: Content::Text { text: first }, .. },
            StreamEvent::MessageDelta { delta, usage },
        ) => {
            &&& m.id == start.id
            &&& m.model == start.model
            &&& m.message.role == start.role
            &&& m.stop_reason == StopReason::EndTurn
            &&& m.stop_sequence == delta.stop_sequence
            &&& m.usage == merge_usage(start.usage, usage)
            &&& m.message.content@.len() == 1
            &&& m.message.content@[0] matches Content::Text { text } && text@ == first@ + text_deltas(events, 2, n + 2)
        },
        _ => false,
    }
}

/// Reducing the stream of a text message yields that message, exactly as the non-streamed
/// response carries it.
pub proof fn lemma_stream_reduction(
    states: Seq<StreamReducer>,
    events: Seq<StreamEvent>,
    results: Seq<Result<ReduceStep, StreamError>>,
    n: int,
)
    requires
        is_text_message_stream(events, n),
        states.len() == n + 6,
        results.len() == n + 5,
        states[0].spec_message() is None,
        states[0].spec_open() is None,
        forall|i: int| #![trigger results[i]] 0 <= i < n + 5 ==> feeds(states[i], events[i], states[i + 1], results[i]),
    ensures
        results[n + 4] matches Ok(ReduceStep::Finished(m)) && text_message_response(events, n, m),
{
    assert(feeds(states[0], events[0], states[1], results[0]));
    assert(feeds(states[1], events[1], states[2], results[1]));
    let s1 = states[1].spec_message()->0;
    lemma_text_deltas_accumulate(states, events, results, n, n + 2);
    let k = n + 2;
    assert(feeds(states[k], events[k], states[k + 1], results[k]));
    assert(feeds(states[k + 1], events[k + 1], states[k + 2], results[k + 1]));
    assert(feeds(states[k + 2], events[k + 2], states[k + 3], results[k + 2]));
    let s3 = states[k + 1].spec_message()->0;
    assert(s3.content@.len() == 1);
}

/// While the deltas come, the message stays as started and the open block holds the first
/// text followed by the deltas' texts so far.
proof fn lemma_text_deltas_accumulate(
    states: Seq<StreamReducer>,
    events: Seq<StreamEvent>,
    results: Seq<Result<ReduceStep, StreamError>>,
    n: int,
    i: int,
)
    requires
        is_text_message_stream(events, n),
        states.len() == n + 6,
        results.len() == n + 5,
        states[0].spec_message() is None,
        states[0].spec_open() is None,
        forall|j: int| #![trigger results[j]] 0 <= j < n + 5 ==> feeds(states[j], events[j], states[j + 1], results[j]),
        2 <= i <= n + 2,
    ensures
        states[i].spec_message() == states[2].spec_message(),
        states[i].spec_message() is Some,
        states[i].spec_message()->0.content@.len() == 0,
        states[i].spec_message()->0.stop_reason is None,
        states[i].spec_message()->0.stop_sequence is None,
        states[i].spec_open() matches Some(b) && b.index == event_index(events[1])
            && b.partial_json@.len() == 0
            && (b.piece matches Content::Text { text } && (events[1] matches StreamEvent::ContentBlockStart {
                content_block: Content::Text { text: first }, .. } && text@ == first@ + text_deltas(events, 2, i))),
    decreases i,
{
    assert(feeds(states[0], events[0], states[1], results[0]));
    assert(feeds(states[1], events[1], states[2], results[1]));
    if i > 2 {
        lemma_text_deltas_accumulate(states, events, results, n, i - 1);
        assert(feeds(states[i - 1], events[i - 1], states[i], results[i - 1]));
        assert(events[i - 1] matches StreamEvent::ContentBlockDelta { delta: Delta::TextDelta { .. }, .. });
        assert(text_deltas(events, 2, i) == text_deltas(events, 2, i - 1) + delta_text(events[i - 1]));
    } else {
        assert(text_deltas(events, 2, 2) =~= Seq::<char>::empty());
    }
}

} // verus!
