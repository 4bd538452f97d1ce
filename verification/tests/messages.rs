use rusty_claw::error::ClawError;
use rusty_claw::json::codec::{decode, encode};
use rusty_claw::json::{JsonNumber, JsonValue};
use rusty_claw::messages::{
    parse_item, ApiMessage, AssistantMessage, ContentBlock, McpServerInfo, Message, ResultMessage,
    StreamEvent, SystemMessage, ToolInfo, UsageInfo,
};

fn json(text: &str) -> JsonValue {
    decode(text).unwrap()
}

fn wire(value: JsonValue) -> JsonValue {
    decode(&encode(&value)).unwrap()
}

fn message(text: &str) -> Message {
    Message::from_json(&json(text)).unwrap()
}

fn block(text: &str) -> ContentBlock {
    ContentBlock::from_json(&json(text)).unwrap()
}

#[test]
fn test_message_system_init() {
    let msg = message(
        r#"{"type": "system", "subtype": "init", "session_id": "sess_123",
            "tools": [{"name": "bash", "description": "Run shell commands"}],
            "mcp_servers": [{"name": "filesystem"}], "extra_field": "value"}"#,
    );
    match &msg {
        Message::System(SystemMessage::Init { session_id, tools, mcp_servers, extra }) => {
            assert_eq!(session_id, "sess_123");
            assert_eq!(tools.len(), 1);
            assert_eq!(tools[0].name, "bash");
            assert_eq!(mcp_servers.len(), 1);
            assert_eq!(mcp_servers[0].name, "filesystem");
            assert_eq!(extra, &json(r#"{"extra_field": "value"}"#));
        }
        _ => panic!("Expected System::Init message"),
    }

    let serialized = msg.to_json();
    assert_eq!(serialized.get_str("type"), Some("system"));
    assert_eq!(serialized.get_str("subtype"), Some("init"));
    assert_eq!(
        wire(serialized),
        json(
            r#"{"type": "system", "subtype": "init", "session_id": "sess_123",
                "tools": [{"name": "bash", "description": "Run shell commands", "input_schema": null}],
                "mcp_servers": [{"name": "filesystem"}], "extra_field": "value"}"#
        )
    );
}

#[test]
fn test_json_round_trip_complex() {
    let given = Message::Assistant(AssistantMessage {
        message: ApiMessage {
            role: "assistant".to_string(),
            content: vec![
                ContentBlock::Text { text: "I'll run that command.".to_string() },
                ContentBlock::ToolUse {
                    id: "tool_xyz".to_string(),
                    name: "bash".to_string(),
                    input: json(r#"{"command": "echo hello"}"#),
                },
                ContentBlock::Thinking { thinking: "This should work...".to_string() },
            ],
        },
        parent_tool_use_id: None,
        duration_ms: Some(150),
    });

    let document = given.to_json();
    let roundtrip = Message::from_json(&wire(document)).unwrap();

    match roundtrip {
        Message::Assistant(assistant_msg) => {
            assert_eq!(assistant_msg.message.content.len(), 3);
            assert_eq!(assistant_msg.duration_ms, Some(150));
        }
        _ => panic!("Expected Assistant message"),
    }
}

#[test]
fn messages_survive_the_round_trip() {
    for text in [
        r#"{"type": "system", "subtype": "compact_boundary"}"#,
        r#"{"type": "system", "subtype": "init", "session_id": "s", "tools": [{"name": "t", "description": null, "input_schema": {"type": "object"}}], "mcp_servers": [{"name": "m", "status": "up"}], "cwd": "/w"}"#,
        r#"{"type": "assistant", "message": {"role": "assistant", "content": [{"type": "tool_result", "tool_use_id": "u", "content": [1], "is_error": true}]}, "parent_tool_use_id": "p", "duration_ms": 3}"#,
        r#"{"type": "user", "message": {"role": "user", "content": []}}"#,
        r#"{"type": "result", "subtype": "success", "result": "r", "duration_ms": 1, "num_turns": 2, "session_id": "s", "total_cost_usd": 0.5, "usage": {"input_tokens": 3, "output_tokens": 4}}"#,
        r#"{"type": "result", "subtype": "error", "error": "e", "exit_code": 126}"#,
        r#"{"type": "result", "subtype": "input_required"}"#,
        r#"{"type": "control_request", "request_id": "a", "subtype": "rewind_files", "message_id": "m"}"#,
        r#"{"type": "control_response", "request_id": "a", "subtype": "error", "error": "no", "why": 1}"#,
    ] {
        let first = message(text);
        let written = wire(first.to_json());
        let second = Message::from_json(&written).unwrap();
        assert_eq!(wire(second.to_json()), written, "{}", text);
        for (key, value) in [("type", json(text).get("type").cloned())] {
            assert_eq!(written.get(key).cloned(), value);
        }
    }
    assert_eq!(
        wire(message(r#"{"type": "result", "subtype": "success", "result": "r"}"#).to_json()),
        json(
            r#"{"type": "result", "subtype": "success", "result": "r", "duration_ms": null,
                "num_turns": null, "session_id": null, "total_cost_usd": null, "usage": null}"#
        )
    );
    assert_eq!(
        wire(StreamEvent::from_json(&json(r#"{"event_type": "e", "data": 1}"#)).unwrap().to_json()),
        json(r#"{"event_type": "e", "data": 1}"#)
    );
}

#[test]
fn test_message_system_compact_boundary() {
    let msg = message(r#"{"type": "system", "subtype": "compact_boundary"}"#);
    match msg {
        Message::System(SystemMessage::CompactBoundary) => {}
        _ => panic!("Expected System::CompactBoundary message"),
    }
}

#[test]
fn test_message_assistant() {
    let msg = message(
        r#"{"type": "assistant",
            "message": {"role": "assistant", "content": [{"type": "text", "text": "Hello!"}]},
            "parent_tool_use_id": "tool_123", "duration_ms": 250}"#,
    );
    match msg {
        Message::Assistant(assistant_msg) => {
            assert_eq!(assistant_msg.message.role, "assistant");
            assert_eq!(assistant_msg.message.content.len(), 1);
            assert_eq!(assistant_msg.parent_tool_use_id, Some("tool_123".to_string()));
            assert_eq!(assistant_msg.duration_ms, Some(250));
        }
        _ => panic!("Expected Assistant message"),
    }
}

#[test]
fn test_message_user() {
    let msg = message(
        r#"{"type": "user",
            "message": {"role": "user", "content": [{"type": "text", "text": "Hello assistant!"}]}}"#,
    );
    match msg {
        Message::User(user_msg) => {
            assert_eq!(user_msg.message.role, "user");
            assert_eq!(user_msg.message.content.len(), 1);
        }
        _ => panic!("Expected User message"),
    }
}

#[test]
fn test_message_result_success() {
    let msg = message(
        r#"{"type": "result", "subtype": "success", "result": "Task completed",
            "duration_ms": 1000, "num_turns": 5, "session_id": "sess_123",
            "total_cost_usd": 0.025, "usage": {"input_tokens": 100, "output_tokens": 50}}"#,
    );
    match msg {
        Message::Result(ResultMessage::Success {
            result,
            duration_ms,
            num_turns,
            session_id,
            total_cost_usd,
            usage,
        }) => {
            assert_eq!(result, "Task completed");
            assert_eq!(duration_ms, Some(1000));
            assert_eq!(num_turns, Some(5));
            assert_eq!(session_id, Some("sess_123".to_string()));
            assert_eq!(total_cost_usd, Some(JsonNumber::Decimal("0.025".to_string())));
            assert!(usage.is_some());
            let usage = usage.unwrap();
            assert_eq!(usage.input_tokens, 100);
            assert_eq!(usage.output_tokens, 50);
        }
        _ => panic!("Expected Result::Success message"),
    }
}

#[test]
fn test_message_result_error() {
    let msg = message(
        r#"{"type": "result", "subtype": "error", "error": "Something went wrong", "code": 500}"#,
    );
    match msg {
        Message::Result(ResultMessage::Error { error, extra }) => {
            assert_eq!(error, "Something went wrong");
            assert_eq!(extra.get("code").unwrap().as_u64(), Some(500));
            assert_eq!(extra, json(r#"{"code": 500}"#));
        }
        _ => panic!("Expected Result::Error message"),
    }
}

#[test]
fn test_message_result_input_required() {
    let msg = message(r#"{"type": "result", "subtype": "input_required"}"#);
    match msg {
        Message::Result(ResultMessage::InputRequired) => {}
        _ => panic!("Expected Result::InputRequired message"),
    }
}

#[test]
fn test_content_block_text() {
    match block(r#"{"type": "text", "text": "Hello world"}"#) {
        ContentBlock::Text { text } => {
            assert_eq!(text, "Hello world");
        }
        _ => panic!("Expected Text block"),
    }
}

#[test]
fn test_content_block_tool_use() {
    match block(
        r#"{"type": "tool_use", "id": "tool_123", "name": "bash", "input": {"command": "ls -la"}}"#,
    ) {
        ContentBlock::ToolUse { id, name, input } => {
            assert_eq!(id, "tool_123");
            assert_eq!(name, "bash");
            assert_eq!(input.get_str("command"), Some("ls -la"));
        }
        _ => panic!("Expected ToolUse block"),
    }
}

#[test]
fn test_content_block_tool_result() {
    match block(
        r#"{"type": "tool_result", "tool_use_id": "tool_123",
            "content": {"output": "file1.txt\nfile2.txt"}, "is_error": false}"#,
    ) {
        ContentBlock::ToolResult { tool_use_id, content, is_error } => {
            assert_eq!(tool_use_id, "tool_123");
            assert_eq!(content.get_str("output"), Some("file1.txt\nfile2.txt"));
            assert!(!is_error);
        }
        _ => panic!("Expected ToolResult block"),
    }
}

#[test]
fn test_content_block_tool_result_default_is_error() {
    match block(
        r#"{"type": "tool_result", "tool_use_id": "tool_123", "content": {"output": "success"}}"#,
    ) {
        ContentBlock::ToolResult { is_error, .. } => {
            assert!(!is_error);
        }
        _ => panic!("Expected ToolResult block"),
    }
}

#[test]
fn test_content_block_thinking() {
    match block(r#"{"type": "thinking", "thinking": "Let me consider this..."}"#) {
        ContentBlock::Thinking { thinking } => {
            assert_eq!(thinking, "Let me consider this...");
        }
        _ => panic!("Expected Thinking block"),
    }
}

#[test]
fn test_stream_event() {
    let event = StreamEvent::from_json(&json(
        r#"{"event_type": "message_start", "data": {"message_id": "msg_123"}}"#,
    ))
    .unwrap();
    assert_eq!(event.event_type, "message_start");
    assert_eq!(event.data.get_str("message_id"), Some("msg_123"));
}

#[test]
fn test_usage_info() {
    let usage =
        UsageInfo::from_json(&json(r#"{"input_tokens": 100, "output_tokens": 50}"#)).unwrap();
    assert_eq!(usage.input_tokens, 100);
    assert_eq!(usage.output_tokens, 50);
}

#[test]
fn test_tool_info_minimal() {
    let tool = ToolInfo::from_json(&json(r#"{"name": "bash"}"#)).unwrap();
    assert_eq!(tool.name, "bash");
    assert!(tool.description.is_none());
    assert!(tool.input_schema.is_none());
}

#[test]
fn test_tool_info_full() {
    let tool = ToolInfo::from_json(&json(
        r#"{"name": "bash", "description": "Run shell commands",
            "input_schema": {"type": "object", "properties": {"command": {"type": "string"}}}}"#,
    ))
    .unwrap();
    assert_eq!(tool.name, "bash");
    assert_eq!(tool.description, Some("Run shell commands".to_string()));
    assert!(tool.input_schema.is_some());
}

#[test]
fn test_mcp_server_info() {
    let server = McpServerInfo::from_json(&json(
        r#"{"name": "filesystem", "version": "1.0.0", "extra": "data"}"#,
    ))
    .unwrap();
    assert_eq!(server.name, "filesystem");
    assert_eq!(server.extra.get_str("version"), Some("1.0.0"));
    assert_eq!(server.extra.get_str("extra"), Some("data"));
    assert!(server.extra.get("name").is_none());
}

#[test]
fn test_optional_fields_default() {
    let msg = message(
        r#"{"type": "assistant", "message": {"role": "assistant", "content": []}}"#,
    );
    match msg {
        Message::Assistant(assistant_msg) => {
            assert!(assistant_msg.parent_tool_use_id.is_none());
            assert!(assistant_msg.duration_ms.is_none());
        }
        _ => panic!("Expected Assistant message"),
    }
}

#[test]
fn test_empty_string_text_content() {
    match block(r#"{"type": "text", "text": ""}"#) {
        ContentBlock::Text { text } => {
            assert_eq!(text, "");
        }
        _ => panic!("Expected Text block"),
    }
}

#[test]
fn test_empty_content_array() {
    let msg = message(
        r#"{"type": "assistant", "message": {"role": "assistant", "content": []}}"#,
    );
    match msg {
        Message::Assistant(assistant_msg) => {
            assert_eq!(assistant_msg.message.content.len(), 0);
        }
        _ => panic!("Expected Assistant message"),
    }
}

#[test]
fn test_minimal_system_init() {
    let msg = message(
        r#"{"type": "system", "subtype": "init", "session_id": "min_123", "tools": [],
            "mcp_servers": []}"#,
    );
    match msg {
        Message::System(SystemMessage::Init { session_id, tools, mcp_servers, .. }) => {
            assert_eq!(session_id, "min_123");
            assert_eq!(tools.len(), 0);
            assert_eq!(mcp_servers.len(), 0);
        }
        _ => panic!("Expected System::Init"),
    }
}

#[test]
fn test_large_tool_input() {
    let items = vec!["\"item\""; 100].join(",");
    let text = format!(
        r#"{{"type": "tool_use", "id": "tool_large", "name": "complex_tool",
            "input": {{"config": {{"nested": {{"deeply": {{"structure": ["array", "of", "values"],
                "number": 42, "boolean": true}}}}, "large_array": [{}]}},
                "metadata": {{"timestamp": "2026-01-01T00:00:00Z", "version": "1.0.0"}}}}}}"#,
        items
    );
    match block(&text) {
        ContentBlock::ToolUse { id, name, input } => {
            assert_eq!(id, "tool_large");
            assert_eq!(name, "complex_tool");
            let config = input.get("config").unwrap();
            let deeply = config.get("nested").unwrap().get("deeply").unwrap();
            assert_eq!(deeply.get("number").unwrap().as_u64(), Some(42));
            assert_eq!(config.get("large_array").unwrap().as_array().unwrap().len(), 100);
        }
        _ => panic!("Expected ToolUse block"),
    }
}

#[test]
fn test_unicode_in_text() {
    match block("{\"type\": \"text\", \"text\": \"Hello \u{4e16}\u{754c}! \u{1f680} done \u{2705}\"}") {
        ContentBlock::Text { text } => {
            assert!(text.contains("\u{4e16}\u{754c}"));
            assert!(text.contains("\u{1f680}"));
            assert!(text.contains("\u{2705}"));
        }
        _ => panic!("Expected Text block"),
    }
}

#[test]
fn test_parse_simple_query_fixture() {
    let lines = [
        r#"{"type":"system","subtype":"init","session_id":"sess_simple_001","tools":[{"name":"bash"}],"mcp_servers":[]}"#,
        r#"{"type":"assistant","message":{"role":"assistant","content":[{"type":"text","text":"hi"}]},"duration_ms":142}"#,
        r#"{"type":"result","subtype":"success","result":"done","duration_ms":156,"num_turns":1,"usage":{"input_tokens":45,"output_tokens":28}}"#,
    ];
    let messages: Vec<Message> =
        lines.iter().map(|text| parse_item(Ok(json(text))).unwrap()).collect();
    assert_eq!(messages.len(), 3);
    assert!(matches!(messages[0], Message::System(_)));
    assert!(matches!(messages[1], Message::Assistant(_)));
    assert!(matches!(messages[2], Message::Result(_)));
    if let Message::System(SystemMessage::Init { session_id, .. }) = &messages[0] {
        assert_eq!(session_id, "sess_simple_001");
    }
    if let Message::Assistant(assistant) = &messages[1] {
        assert!(matches!(&assistant.message.content[0], ContentBlock::Text { text } if text == "hi"));
    }
    if let Message::Result(ResultMessage::Success { num_turns, .. }) = &messages[2] {
        assert_eq!(*num_turns, Some(1));
    }
}

#[test]
fn documents_that_fit_no_message() {
    for text in [
        r#"{"type": "rate_limit_event"}"#,
        r#"{"type": "stream_event", "event": {}}"#,
        r#"{"subtype": "init"}"#,
        r#"{"type": "system", "subtype": "init", "tools": [], "mcp_servers": []}"#,
        r#"{"type": "system", "subtype": "init", "session_id": "s", "tools": [{}], "mcp_servers": []}"#,
        r#"{"type": "system", "subtype": "other"}"#,
        r#"{"type": "assistant"}"#,
        r#"{"type": "assistant", "message": {"role": "assistant", "content": [{"type": "video"}]}}"#,
        r#"{"type": "assistant", "message": {"role": "assistant", "content": []}, "duration_ms": -1}"#,
        r#"{"type": "assistant", "message": {"role": "assistant", "content": []}, "duration_ms": 1.5}"#,
        r#"{"type": "assistant", "message": {"role": "assistant", "content": []}, "parent_tool_use_id": 4}"#,
        r#"{"type": "result", "subtype": "success"}"#,
        r#"{"type": "result", "subtype": "success", "result": "r", "num_turns": 4294967296}"#,
        r#"{"type": "result", "subtype": "success", "result": "r", "usage": {"input_tokens": 1}}"#,
        r#"{"type": "result", "subtype": "success", "result": "r", "total_cost_usd": "free"}"#,
        r#"{"type": "result", "subtype": "error"}"#,
        r#"{"type": "control_request", "request": {"subtype": "interrupt"}}"#,
        r#"{"type": "control_response", "request_id": "a", "subtype": "other"}"#,
        r#"[]"#,
        r#"7"#,
    ] {
        let document = json(text);
        assert!(Message::from_json(&document).is_none(), "{}", text);
        match parse_item(Ok(document.clone())) {
            Err(ClawError::MessageParse { reason, raw }) => {
                assert!(reason.starts_with("Failed to parse message"));
                assert_eq!(decode(&raw).unwrap(), document);
            }
            other => panic!("unexpected {:?}", other),
        }
    }
}

#[test]
fn errors_of_the_channel_stay_as_they_are() {
    match parse_item(Err(ClawError::ControlError("x".to_string()))) {
        Err(ClawError::ControlError(reason)) => assert_eq!(reason, "x"),
        other => panic!("unexpected {:?}", other),
    }
}

#[test]
fn numbers_at_their_limits() {
    match message(
        r#"{"type": "result", "subtype": "success", "result": "r",
            "duration_ms": 18446744073709551615, "num_turns": 4294967295, "total_cost_usd": 3,
            "session_id": null, "usage": null}"#,
    ) {
        Message::Result(ResultMessage::Success {
            duration_ms, num_turns, total_cost_usd, session_id, usage, ..
        }) => {
            assert_eq!(duration_ms, Some(u64::MAX));
            assert_eq!(num_turns, Some(u32::MAX));
            assert_eq!(total_cost_usd, Some(JsonNumber::Unsigned(3)));
            assert_eq!(session_id, None);
            assert_eq!(usage, None);
        }
        other => panic!("unexpected {:?}", other),
    }
}

#[test]
fn control_messages_in_a_typed_stream() {
    match message(r#"{"type": "control_request", "request_id": "a", "subtype": "set_model", "model": "m"}"#) {
        Message::ControlRequest { request_id, request } => {
            assert_eq!(request_id, "a");
            assert!(matches!(
                request,
                rusty_claw::control::messages::ControlRequest::SetModel { model } if model == "m"
            ));
        }
        other => panic!("unexpected {:?}", other),
    }
    match message(r#"{"type": "control_response", "request_id": "a", "subtype": "success", "x": 1}"#) {
        Message::ControlResponse { request_id, response } => {
            assert_eq!(request_id, "a");
            assert_eq!(
                response,
                rusty_claw::control::messages::ControlResponse::Success { data: json(r#"{"x": 1}"#) }
            );
        }
        other => panic!("unexpected {:?}", other),
    }
}
