use claus::anthropic::{
    ApiError, ApiResponse, Content, Message, MessagesResponse, Role, StopReason, Tool, ToolResult,
    ToolResultContent, ToolUse, Usage,
};
use claus::conversation::{Action, Conversation, ProtocolError};
use claus::{classify_response, Api, ResponseError};

fn answer(content: Vec<Content>, stop_reason: StopReason) -> Result<ApiResponse, serde_json::Error> {
    Ok(ApiResponse::Message(MessagesResponse {
        id: "msg_1".to_string(),
        model: "test-model".to_string(),
        stop_reason,
        stop_sequence: None,
        usage: Usage { input_tokens: 10, output_tokens: 5 },
        message: Message { role: Role::Assistant, content },
    }))
}

fn decode_error() -> serde_json::Error {
    serde_json::from_str::<serde_json::Value>("{not json").unwrap_err()
}

fn calc_use() -> ToolUse {
    ToolUse {
        id: "toolu_1".to_string(),
        name: "calc".to_string(),
        input: serde_json::from_str(r#"{"expr":"2+2"}"#).unwrap(),
    }
}

#[test]
fn test_conversation_with_tools() {
    let api = Api::new("test-api-key", "test-model");
    let mut conversation = Conversation::new();

    let schema: serde_json::Value = serde_json::from_str(
        r#"{"type":"object","properties":{"param":{"type":"string","description":"A test parameter"}},"required":["param"]}"#,
    )
    .unwrap();
    let test_tool = Tool::new("test_tool", "A test tool for testing", schema);

    conversation.add_tool(test_tool);

    let http_request = conversation.user_message(&api, "Hello, use the tool!").unwrap();

    assert!(http_request.body.contains("\"tools\":["));
    assert!(http_request.body.contains("\"name\":\"test_tool\""));
    assert!(http_request
        .body
        .contains("\"description\":\"A test tool for testing\""));

    assert!(http_request.body.contains("\"messages\":["));
    assert!(http_request.body.contains("\"Hello, use the tool!\""));
}

#[test]
fn tool_round_trip_leaves_four_messages() {
    let api = Api::new("k", "test-model");
    let mut c = Conversation::new();
    c.user_message(&api, "What's 2+2?").unwrap();
    let action = c
        .handle_response(answer(vec![Content::ToolUse(calc_use())], StopReason::ToolUse))
        .unwrap();
    let Action::HandleAgentMessage(pieces) = action;
    assert_eq!(pieces.len(), 1);
    let Content::ToolUse(u) = &pieces[0] else { panic!("expected a tool use") };
    assert_eq!(u.name, "calc");
    let req = c
        .tool_result(&api, ToolResult::success(u.id.clone(), ToolResultContent::String("4".to_string())))
        .unwrap();
    assert!(req.body.contains(r#""tool_use_id":"toolu_1","content":"4""#));
    c.handle_response(answer(vec![Content::from_text("It is 4.")], StopReason::EndTurn))
        .unwrap();

    let h = c.history();
    assert_eq!(h.len(), 4);
    assert_eq!(h[0].role, Role::User);
    assert_eq!(h[1].role, Role::Assistant);
    assert_eq!(h[2].role, Role::User);
    assert_eq!(h[3].role, Role::Assistant);
    assert_eq!(h[0].content[0].as_text(), Some("What's 2+2?"));
    assert!(matches!(&h[2].content[0], Content::ToolResult(t) if t.tool_use_id == "toolu_1"));
    assert_eq!(h[3].content[0].as_text(), Some("It is 4."));
    assert!(c.is_idle());
}

#[test]
fn tool_results_are_batched_in_one_message() {
    let api = Api::new("k", "test-model");
    let mut c = Conversation::new();
    c.user_message(&api, "two tools").unwrap();
    c.handle_response(answer(vec![Content::from_text("ok")], StopReason::ToolUse)).unwrap();
    let results = vec![
        ToolResult::success("a".to_string(), ToolResultContent::String("1".to_string())),
        ToolResult::error("b".to_string(), ToolResultContent::String("no".to_string())),
    ];
    c.tool_results(&api, results).unwrap();
    let h = c.history();
    assert_eq!(h.len(), 3);
    assert_eq!(h[2].role, Role::User);
    assert_eq!(h[2].content.len(), 2);
    assert!(matches!(&h[2].content[1], Content::ToolResult(t) if t.tool_use_id == "b" && t.is_error == Some(true)));
}

#[test]
fn unknown_tool_gets_error_result() {
    let mut c = Conversation::new();
    c.add_tool(Tool::new("web_search", "search", serde_json::Value::Null));
    let r = c.unknown_tool_result(&calc_use()).unwrap();
    assert_eq!(r.tool_use_id, "toolu_1");
    assert_eq!(r.is_error, Some(true));
    assert!(matches!(&r.content, ToolResultContent::String(m) if m == "Unknown tool: calc"));

    let known = ToolUse { name: "web_search".to_string(), ..calc_use() };
    assert!(c.unknown_tool_result(&known).is_none());
}

#[test]
fn decode_error_leaves_history_unchanged() {
    let api = Api::new("k", "test-model");
    let mut c = Conversation::new();
    c.user_message(&api, "hi").unwrap();
    let before = c.history().len();
    let r = c.handle_response(Err(decode_error()));
    assert!(matches!(r, Err(ResponseError::Serde(_))));
    assert_eq!(c.history().len(), before);
    assert!(c.is_idle());
}

#[test]
fn api_error_leaves_history_unchanged() {
    let api = Api::new("k", "test-model");
    let mut c = Conversation::new();
    c.user_message(&api, "hi").unwrap();
    let r = c.handle_response(Ok(ApiResponse::Error { error: ApiError::OverloadedError }));
    assert!(matches!(r, Err(ResponseError::Api(ApiError::OverloadedError))));
    assert_eq!(c.history().len(), 1);
}

#[test]
fn retry_resends_the_same_request() {
    let api = Api::new("k", "test-model");
    let mut c = Conversation::new();
    let first = c.user_message(&api, "hi").unwrap();
    c.handle_response(Err(decode_error())).unwrap_err();
    let again = c.retry(&api).unwrap();
    assert_eq!(again.body, first.body);
    assert!(!c.is_idle());
    assert_eq!(c.history().len(), 1);
}

#[test]
fn retry_needs_a_user_message_last() {
    let api = Api::new("k", "test-model");
    let mut c = Conversation::new();
    assert!(matches!(c.retry(&api), Err(ProtocolError::NothingToRetry)));
    c.user_message(&api, "hi").unwrap();
    assert!(matches!(c.retry(&api), Err(ProtocolError::NotIdle)));
    c.handle_response(answer(vec![Content::from_text("yo")], StopReason::EndTurn)).unwrap();
    assert!(matches!(c.retry(&api), Err(ProtocolError::NothingToRetry)));
}

#[test]
fn turn_operations_respect_state() {
    let api = Api::new("k", "test-model");
    let mut c = Conversation::new();
    assert!(matches!(
        c.handle_response(answer(vec![], StopReason::EndTurn)),
        Err(ResponseError::Protocol(ProtocolError::NotAwaitingResponse))
    ));
    assert_eq!(c.history().len(), 0);
    c.user_message(&api, "one").unwrap();
    assert!(matches!(c.user_message(&api, "two"), Err(ProtocolError::NotIdle)));
    assert_eq!(c.history().len(), 1);
    c.cancel();
    assert!(c.is_idle());
    assert_eq!(c.history().len(), 1);
}

#[test]
fn request_carries_system_and_whole_history() {
    let api = Api::new("k", "test-model");
    let mut c = Conversation::default();
    c.set_system("Be brief.");
    c.user_message(&api, "a").unwrap();
    c.handle_response(answer(vec![Content::from_text("b")], StopReason::EndTurn)).unwrap();
    let req = c.user_message(&api, "c").unwrap();
    assert_eq!(
        req.body,
        r#"{"model":"test-model","max_tokens":1024,"system":"Be brief.","messages":[{"role":"user","content":[{"type":"text","text":"a"}]},{"role":"assistant","content":[{"type":"text","text":"b"}]},{"role":"user","content":[{"type":"text","text":"c"}]}]}"#
    );
    assert!(!req.body.contains("tools"));
}

#[test]
fn clear_and_set_tools() {
    let api = Api::new("k", "test-model");
    let mut c = Conversation::new();
    c.user_message(&api, "a").unwrap();
    c.cancel();
    c.clear();
    assert_eq!(c.history().len(), 0);
    let mut tools = im::Vector::new();
    tools.push_back(Tool::new("t", "d", serde_json::Value::Null));
    c.set_tools(tools);
    let req = c.user_message(&api, "b").unwrap();
    assert!(req.body.contains(r#""tools":[{"name":"t","description":"d","input_schema":null}]"#));
}

#[test]
fn classify_response_sorts_outcomes() {
    assert!(matches!(
        classify_response(Ok(ApiResponse::Error { error: ApiError::NotFoundError })),
        Err(ResponseError::Api(ApiError::NotFoundError))
    ));
    assert!(matches!(
        classify_response(Ok(ApiResponse::Error { error: ApiError::InvalidRequestError })),
        Err(ResponseError::Api(ApiError::InvalidRequestError))
    ));
    assert!(matches!(classify_response(Err(decode_error())), Err(ResponseError::Serde(_))));
    let m = classify_response(answer(vec![Content::from_text("Hi! Nice to meet you.")], StopReason::EndTurn)).unwrap();
    assert_eq!(m.id, "msg_1");
    assert_eq!(m.stop_reason, StopReason::EndTurn);
    assert_eq!(m.message.content[0].as_text(), Some("Hi! Nice to meet you."));
}
