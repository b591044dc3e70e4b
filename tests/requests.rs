use claus::anthropic::{Content, Message, Role, Tool, ToolResult, ToolResultContent, ToolUse};
use claus::http_request::HttpRequest;
use claus::{Api, MessagesRequestBuilder};

fn weather_schema() -> serde_json::Value {
    serde_json::from_str(
        r#"{"type":"object","properties":{"location":{"type":"string","description":"The city and state, e.g. San Francisco, CA"},"unit":{"type":["string","null"],"description":"Unit for the output - one of (celsius, fahrenheit)"}},"required":["location"]}"#,
    )
    .unwrap()
}

#[test]
fn test_messages_request_builder_with_system_prompt() {
    let api = Api::new("test-api-key", "test-model");

    let http_request = MessagesRequestBuilder::new()
        .system("You are a helpful assistant.")
        .push_message(Role::User, "Hello!")
        .build(&api);

    assert_eq!(http_request.method, "POST");
    assert_eq!(http_request.path, "/v1/messages");
    assert_eq!(http_request.host, "api.anthropic.com");

    assert!(http_request
        .body
        .contains("\"system\":\"You are a helpful assistant.\""));
    assert!(http_request.body.contains("\"messages\":["));
    assert!(http_request.body.contains("\"role\":\"user\""));
    assert!(http_request.body.contains("\"text\":\"Hello!\""));
}

#[test]
fn test_messages_request_builder_with_tools() {
    let api = Api::new("test-api-key", "test-model");

    let weather_tool = Tool::new(
        "get_weather",
        "Get the current weather in a given location",
        weather_schema(),
    );

    let mut tools = im::Vector::new();
    tools.push_back(weather_tool);

    let http_request = MessagesRequestBuilder::new()
        .push_message(Role::User, "What's the weather in San Francisco?")
        .set_tools(tools)
        .build(&api);

    assert_eq!(http_request.method, "POST");
    assert_eq!(http_request.path, "/v1/messages");
    assert_eq!(http_request.host, "api.anthropic.com");

    assert!(http_request.body.contains("\"tools\":["));
    assert!(http_request.body.contains("\"name\":\"get_weather\""));
    assert!(http_request
        .body
        .contains("\"description\":\"Get the current weather in a given location\""));
    assert!(http_request.body.contains("\"input_schema\""));
    assert!(http_request.body.contains("\"properties\""));
    assert!(http_request.body.contains("\"location\""));
    assert!(http_request.body.contains("\"unit\""));
    assert!(http_request.body.contains("\"required\":[\"location\"]"));

    assert!(http_request.body.contains("\"messages\":["));
    assert!(http_request.body.contains("\"role\":\"user\""));
    assert!(http_request
        .body
        .contains("\"What's the weather in San Francisco?\""));
}

#[test]
fn build_writes_exact_body_and_headers() {
    let api = Api::new("k", "test-model");
    let req = MessagesRequestBuilder::new()
        .push_message(Role::User, "Hi")
        .build(&api);
    assert_eq!(
        req.body,
        r#"{"model":"test-model","max_tokens":1024,"messages":[{"role":"user","content":[{"type":"text","text":"Hi"}]}]}"#
    );
    let names: Vec<&str> = req.headers.iter().map(|h| h.0).collect();
    assert_eq!(
        names,
        vec!["content-type", "anthropic-version", "x-api-key", "anthropic-model", "max-tokens"]
    );
    assert_eq!(req.headers[0].1, "application/json");
    assert_eq!(req.headers[1].1, "2023-06-01");
    assert_eq!(req.headers[2].1, "k");
    assert_eq!(req.headers[3].1, "test-model");
    assert_eq!(req.headers[4].1, "1024");
}

#[test]
fn build_uses_own_model_tokens_and_stream() {
    let api = Api::new("k", "test-model")
        .default_model("m-default")
        .default_max_tokens(10)
        .endpoint_host("example.test");
    let req = MessagesRequestBuilder::new()
        .model("m-own")
        .max_tokens(4096)
        .stream(true)
        .build(&api);
    assert_eq!(req.host, "example.test");
    assert_eq!(req.headers[3].1, "m-own");
    assert_eq!(req.headers[4].1, "4096");
    assert_eq!(
        req.body,
        r#"{"model":"m-own","max_tokens":4096,"messages":[],"stream":true}"#
    );
    let defaults = MessagesRequestBuilder::default().build(&api);
    assert_eq!(defaults.headers[3].1, "m-default");
    assert_eq!(
        defaults.body,
        r#"{"model":"m-default","max_tokens":10,"messages":[]}"#
    );
}

#[test]
fn build_escapes_strings() {
    let api = Api::new("k", "test-model");
    let req = MessagesRequestBuilder::new()
        .system("say \"hi\"\n")
        .build(&api);
    assert!(req.body.contains(r#""system":"say \"hi\"\n""#));
}

#[test]
fn build_encodes_every_kind_of_piece() {
    let api = Api::new("k", "test-model");
    let input: serde_json::Value = serde_json::from_str(r#"{"expr":"2+2"}"#).unwrap();
    let assistant = Message {
        role: Role::Assistant,
        content: vec![
            Content::Thinking { thinking: "hm".to_string(), signature: "sig".to_string() },
            Content::ToolUse(ToolUse { id: "t1".to_string(), name: "calc".to_string(), input }),
            Content::Image,
        ],
    };
    let results = Message {
        role: Role::User,
        content: vec![
            Content::ToolResult(ToolResult::success("t1".to_string(), ToolResultContent::String("4".to_string()))),
            Content::ToolResult(ToolResult::error(
                "t2".to_string(),
                ToolResultContent::Content(vec![Content::from_text("bad")]),
            )),
        ],
    };
    let req = MessagesRequestBuilder::new().push(assistant).push(results).build(&api);
    assert!(req.body.contains(
        r#"{"role":"assistant","content":[{"type":"thinking","thinking":"hm","signature":"sig"},{"type":"tool_use","id":"t1","name":"calc","input":{"expr":"2+2"}},{"type":"image"}]}"#
    ));
    assert!(req.body.contains(
        r#"{"role":"user","content":[{"type":"tool_result","tool_use_id":"t1","content":"4"},{"type":"tool_result","tool_use_id":"t2","content":[{"type":"text","text":"bad"}],"is_error":true}]}"#
    ));
}

fn sample_request() -> HttpRequest {
    HttpRequest {
        host: "api.anthropic.com".to_string(),
        path: "/v1/messages".to_string(),
        method: "POST",
        headers: vec![
            ("content-type", "application/json".to_string()),
            ("x-api-key", "test-key".to_string()),
        ],
        body: "{}".to_string(),
    }
}

#[test]
fn render_headers_one_per_line() {
    assert_eq!(
        sample_request().render_headers(),
        "content-type: application/json\nx-api-key: test-key"
    );
}

#[test]
fn request_text_and_url() {
    let r = sample_request();
    assert_eq!(
        r.to_text(),
        "POST /v1/messages HTTP/1.1\nHost: api.anthropic.com\ncontent-type: application/json\nx-api-key: test-key\n\n{}"
    );
    assert_eq!(r.url(), "https://api.anthropic.com/v1/messages");
}
