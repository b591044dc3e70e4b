use claus::anthropic::{
    ApiError, Content, Delta, MessageDelta, Role, StopReason, StreamEvent, StreamingMessage,
    StreamingUsage, ToolUse, Usage,
};
use claus::anthropic::ApiResponse;
use claus::conversation::Conversation;
use claus::stream::{ReduceStep, StreamError, StreamReducer};
use claus::Api;

fn start() -> StreamEvent {
    StreamEvent::MessageStart {
        message: StreamingMessage {
            id: "msg_1".to_string(),
            model: "test-model".to_string(),
            stop_reason: None,
            stop_sequence: None,
            usage: Usage { input_tokens: 25, output_tokens: 1 },
            role: Role::Assistant,
            content: vec![],
        },
    }
}

fn text_delta(index: u32, text: &str) -> StreamEvent {
    StreamEvent::ContentBlockDelta { index, delta: Delta::TextDelta { text: text.to_string() } }
}

fn end_turn() -> StreamEvent {
    StreamEvent::MessageDelta {
        delta: MessageDelta { stop_reason: Some(StopReason::EndTurn), stop_sequence: None },
        usage: Some(StreamingUsage { input_tokens: None, output_tokens: Some(38) }),
    }
}

fn pending(r: Result<ReduceStep, StreamError>) {
    assert!(matches!(r, Ok(ReduceStep::Pending)));
}

#[test]
fn streamed_text_equals_direct_message() {
    let mut r = StreamReducer::new();
    pending(r.feed(start()));
    pending(r.feed(StreamEvent::ContentBlockStart {
        index: 0,
        content_block: Content::Text { text: String::new() },
    }));
    pending(r.feed(text_delta(0, "Hello")));
    pending(r.feed(StreamEvent::Ping));
    pending(r.feed(text_delta(0, ", ")));
    pending(r.feed(text_delta(0, "world")));
    pending(r.feed(StreamEvent::ContentBlockStop { index: 0 }));
    pending(r.feed(end_turn()));
    let Ok(ReduceStep::Finished(m)) = r.feed(StreamEvent::MessageStop) else {
        panic!("expected the finished message")
    };
    assert_eq!(m.id, "msg_1");
    assert_eq!(m.model, "test-model");
    assert_eq!(m.stop_reason, StopReason::EndTurn);
    assert_eq!(m.stop_sequence, None);
    assert_eq!(m.usage, Usage { input_tokens: 25, output_tokens: 38 });
    assert_eq!(m.message.role, Role::Assistant);
    assert_eq!(m.message.content.len(), 1);
    assert_eq!(m.message.content[0].as_text(), Some("Hello, world"));
}

#[test]
fn blocks_keep_wire_order_with_sparse_indices() {
    let mut r = StreamReducer::new();
    pending(r.feed(start()));
    pending(r.feed(StreamEvent::ContentBlockStart { index: 3, content_block: Content::from_text("a") }));
    pending(r.feed(StreamEvent::ContentBlockStop { index: 3 }));
    pending(r.feed(StreamEvent::ContentBlockStart { index: 7, content_block: Content::from_text("b") }));
    pending(r.feed(text_delta(7, "c")));
    pending(r.feed(StreamEvent::ContentBlockStop { index: 7 }));
    pending(r.feed(end_turn()));
    let Ok(ReduceStep::Finished(m)) = r.feed(StreamEvent::MessageStop) else { panic!("not finished") };
    assert_eq!(m.message.content.len(), 2);
    assert_eq!(m.message.content[0].as_text(), Some("a"));
    assert_eq!(m.message.content[1].as_text(), Some("bc"));
}

#[test]
fn tool_input_arrives_in_fragments() {
    let mut r = StreamReducer::new();
    pending(r.feed(start()));
    let empty: serde_json::Value = serde_json::from_str("{}").unwrap();
    pending(r.feed(StreamEvent::ContentBlockStart {
        index: 0,
        content_block: Content::ToolUse(ToolUse { id: "t".to_string(), name: "calc".to_string(), input: empty }),
    }));
    for part in [r#"{"ex"#, r#"pr":"2"#, r#"+2"}"#] {
        pending(r.feed(StreamEvent::ContentBlockDelta {
            index: 0,
            delta: Delta::InputJsonDelta { partial_json: part.to_string() },
        }));
    }
    pending(r.feed(StreamEvent::ContentBlockStop { index: 0 }));
    pending(r.feed(StreamEvent::MessageDelta {
        delta: MessageDelta { stop_reason: Some(StopReason::ToolUse), stop_sequence: None },
        usage: None,
    }));
    let Ok(ReduceStep::Finished(m)) = r.feed(StreamEvent::MessageStop) else { panic!("not finished") };
    let Content::ToolUse(u) = &m.message.content[0] else { panic!("expected a tool use") };
    assert_eq!(u.input["expr"], "2+2");
    assert_eq!(m.stop_reason, StopReason::ToolUse);
}

#[test]
fn thinking_and_signature_accumulate() {
    let mut r = StreamReducer::new();
    pending(r.feed(start()));
    pending(r.feed(StreamEvent::ContentBlockStart {
        index: 0,
        content_block: Content::Thinking { thinking: String::new(), signature: String::new() },
    }));
    pending(r.feed(StreamEvent::ContentBlockDelta { index: 0, delta: Delta::ThinkingDelta { thinking: "let me ".to_string() } }));
    pending(r.feed(StreamEvent::ContentBlockDelta { index: 0, delta: Delta::ThinkingDelta { thinking: "see".to_string() } }));
    pending(r.feed(StreamEvent::ContentBlockDelta { index: 0, delta: Delta::SignatureDelta { signature: "xyz".to_string() } }));
    pending(r.feed(StreamEvent::ContentBlockStop { index: 0 }));
    pending(r.feed(end_turn()));
    let Ok(ReduceStep::Finished(m)) = r.feed(StreamEvent::MessageStop) else { panic!("not finished") };
    assert!(matches!(&m.message.content[0], Content::Thinking { thinking, signature } if thinking == "let me see" && signature == "xyz"));
}

#[test]
fn invalid_tool_input_is_reported() {
    let mut r = StreamReducer::new();
    pending(r.feed(start()));
    pending(r.feed(StreamEvent::ContentBlockStart {
        index: 0,
        content_block: Content::ToolUse(ToolUse { id: "t".to_string(), name: "calc".to_string(), input: serde_json::Value::Null }),
    }));
    pending(r.feed(StreamEvent::ContentBlockDelta { index: 0, delta: Delta::InputJsonDelta { partial_json: "{oops".to_string() } }));
    assert!(matches!(r.feed(StreamEvent::ContentBlockStop { index: 0 }), Err(StreamError::InvalidToolInput(_))));
}

#[test]
fn unknown_events_pass_through() {
    let mut r = StreamReducer::new();
    pending(r.feed(start()));
    let contents: serde_json::Value = serde_json::from_str(r#"{"x":1}"#).unwrap();
    let out = r.feed(StreamEvent::Unknown { event_type: b"future_event".to_vec(), contents });
    let Ok(ReduceStep::Unknown { event_type, contents }) = out else { panic!("expected the unknown event") };
    assert_eq!(event_type, b"future_event".to_vec());
    assert_eq!(contents["x"], 1);
    pending(r.feed(end_turn()));
    assert!(matches!(r.feed(StreamEvent::MessageStop), Ok(ReduceStep::Finished(_))));
}

#[test]
fn error_event_aborts_the_turn() {
    let mut r = StreamReducer::new();
    pending(r.feed(start()));
    assert!(matches!(
        r.feed(StreamEvent::Error { error: ApiError::OverloadedError }),
        Err(StreamError::Api(ApiError::OverloadedError))
    ));
    assert!(matches!(r.feed(StreamEvent::MessageStop), Err(StreamError::NotStarted)));
}

#[test]
fn protocol_violations_are_errors() {
    let mut r = StreamReducer::new();
    assert!(matches!(r.feed(text_delta(0, "x")), Err(StreamError::NotStarted)));
    pending(r.feed(start()));
    assert!(matches!(r.feed(start()), Err(StreamError::AlreadyStarted)));
    assert!(matches!(r.feed(text_delta(0, "x")), Err(StreamError::NoOpenBlock { index: 0 })));
    pending(r.feed(StreamEvent::ContentBlockStart { index: 1, content_block: Content::from_text("") }));
    assert!(matches!(
        r.feed(StreamEvent::ContentBlockStart { index: 2, content_block: Content::from_text("") }),
        Err(StreamError::BlockOpen { index: 1 })
    ));
    assert!(matches!(
        r.feed(StreamEvent::ContentBlockDelta { index: 1, delta: Delta::SignatureDelta { signature: "s".to_string() } }),
        Err(StreamError::DeltaMismatch { index: 1 })
    ));
    assert!(matches!(r.feed(StreamEvent::MessageStop), Err(StreamError::BlockOpen { index: 1 })));
    pending(r.feed(StreamEvent::ContentBlockStop { index: 1 }));
    assert!(matches!(r.feed(StreamEvent::MessageStop), Err(StreamError::MissingStopReason)));
}

#[test]
fn streamed_message_joins_the_history() {
    let api = Api::new("k", "test-model");
    let mut c = Conversation::new();
    c.user_message(&api, "hi").unwrap();
    let mut r = StreamReducer::new();
    pending(r.feed(start()));
    pending(r.feed(StreamEvent::ContentBlockStart { index: 0, content_block: Content::from_text("Hel") }));
    pending(r.feed(text_delta(0, "lo")));
    pending(r.feed(StreamEvent::ContentBlockStop { index: 0 }));
    pending(r.feed(end_turn()));
    let Ok(ReduceStep::Finished(m)) = r.feed(StreamEvent::MessageStop) else { panic!("not finished") };
    c.handle_response(Ok(ApiResponse::Message(m))).unwrap();
    assert_eq!(c.history().len(), 2);
    assert_eq!(c.history()[1].content[0].as_text(), Some("Hello"));
}

#[test]
fn cancelled_stream_leaves_history_unchanged() {
    let api = Api::new("k", "test-model");
    let mut c = Conversation::new();
    c.user_message(&api, "hi").unwrap();
    let mut r = StreamReducer::new();
    pending(r.feed(start()));
    assert!(matches!(r.feed(text_delta(0, "x")), Err(StreamError::NoOpenBlock { index: 0 })));
    c.cancel();
    assert!(c.is_idle());
    assert_eq!(c.history().len(), 1);
}
