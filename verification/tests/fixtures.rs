use rusty_claw::error::ClawError;
use rusty_claw::messages::{parse_item, ContentBlock, Message, ResultMessage, SystemMessage};
use rusty_claw::transport::framing::read_lines;
use rusty_claw::transport::{CliDiscovery, SubprocessCLITransport};
use std::path::PathBuf;

const SIMPLE_QUERY: &str = r#"{"type":"system","subtype":"init","session_id":"sess_simple_001","tools":[{"name":"bash","description":"Run shell commands"}],"mcp_servers":[]}
{"type":"assistant","message":{"role":"assistant","content":[{"type":"text","text":"The directory holds README.md and src."}]},"duration_ms":142}
{"type":"result","subtype":"success","result":"Listed directory contents successfully","duration_ms":156,"num_turns":1,"usage":{"input_tokens":45,"output_tokens":28}}
"#;

const TOOL_USE: &str = r#"{"type":"system","subtype":"init","session_id":"sess_tool_002","tools":[{"name":"bash","description":"Run shell commands","input_schema":{"type":"object","properties":{"command":{"type":"string"}}}}],"mcp_servers":[{"name":"filesystem","status":"connected"}]}
{"type":"assistant","message":{"role":"assistant","content":[{"type":"text","text":"Let me check the current directory."},{"type":"tool_use","id":"toolu_01ABC","name":"bash","input":{"command":"ls -la"}}]}}

{"type":"user","message":{"role":"user","content":[{"type":"tool_result","tool_use_id":"toolu_01ABC","content":"Cargo.toml\nsrc\n","is_error":false}]}}
{"type":"assistant","message":{"role":"assistant","content":[{"type":"text","text":"This is a Rust project."}]}}
{"type":"result","subtype":"success","result":"Done","num_turns":2}
"#;

const ERROR_RESPONSE: &str = r#"{"type":"system","subtype":"init","session_id":"sess_error_003","tools":[],"mcp_servers":[]}
{"type":"assistant","message":{"role":"assistant","content":[{"type":"text","text":"Running the command."}]}}
{"type":"result","subtype":"error","error":"Failed to execute command: permission denied","error_code":"EACCES","exit_code":126}
"#;

const THINKING_CONTENT: &str = r#"{"type":"system","subtype":"init","session_id":"sess_think_004","tools":[],"mcp_servers":[]}
{"type":"assistant","message":{"role":"assistant","content":[{"type":"thinking","thinking":"Let me analyze this request. I should use the bash tool."},{"type":"text","text":"I will list the files for you."}]},"duration_ms":234}
{"type":"result","subtype":"success","result":"Done","usage":{"input_tokens":10,"output_tokens":20}}
"#;

fn load_fixture(text: &str) -> Vec<Message> {
    let lines: Vec<String> = text.split('\n').map(|line| line.to_string()).collect();
    read_lines(&lines).into_iter().map(|item| parse_item(item).unwrap()).collect()
}

#[test]
fn test_simple_query_fixture() {
    let messages = load_fixture(SIMPLE_QUERY);
    assert_eq!(messages.len(), 3, "Expected 3 messages in simple_query");

    match &messages[0] {
        Message::System(SystemMessage::Init { session_id, tools, mcp_servers, .. }) => {
            assert_eq!(session_id, "sess_simple_001");
            assert_eq!(tools.len(), 1);
            assert_eq!(tools[0].name, "bash");
            assert_eq!(mcp_servers.len(), 0);
        }
        _ => panic!("Expected System::Init as first message"),
    }

    match &messages[1] {
        Message::Assistant(assistant_msg) => {
            assert_eq!(assistant_msg.message.role, "assistant");
            assert_eq!(assistant_msg.message.content.len(), 1);
            match &assistant_msg.message.content[0] {
                ContentBlock::Text { text } => {
                    assert!(text.contains("README.md"));
                }
                _ => panic!("Expected Text content block"),
            }
            assert_eq!(assistant_msg.duration_ms, Some(142));
        }
        _ => panic!("Expected Assistant message as second message"),
    }

    match &messages[2] {
        Message::Result(ResultMessage::Success { result, duration_ms, num_turns, usage, .. }) => {
            assert_eq!(result, "Listed directory contents successfully");
            assert_eq!(*duration_ms, Some(156));
            assert_eq!(*num_turns, Some(1));
            assert!(usage.is_some());
            let usage = usage.as_ref().unwrap();
            assert_eq!(usage.input_tokens, 45);
            assert_eq!(usage.output_tokens, 28);
        }
        _ => panic!("Expected Result::Success as third message"),
    }
}

#[test]
fn test_tool_use_fixture() {
    let messages = load_fixture(TOOL_USE);
    assert_eq!(messages.len(), 5, "Expected 5 messages in tool_use");

    match &messages[0] {
        Message::System(SystemMessage::Init { session_id, tools, mcp_servers, .. }) => {
            assert_eq!(session_id, "sess_tool_002");
            assert_eq!(tools.len(), 1);
            assert_eq!(tools[0].name, "bash");
            assert!(tools[0].input_schema.is_some());
            assert_eq!(mcp_servers.len(), 1);
            assert_eq!(mcp_servers[0].name, "filesystem");
        }
        _ => panic!("Expected System::Init"),
    }

    match &messages[1] {
        Message::Assistant(assistant_msg) => {
            assert_eq!(assistant_msg.message.content.len(), 2);
            match &assistant_msg.message.content[0] {
                ContentBlock::Text { text } => {
                    assert!(text.contains("check the current directory"));
                }
                _ => panic!("Expected Text block"),
            }
            match &assistant_msg.message.content[1] {
                ContentBlock::ToolUse { id, name, input } => {
                    assert_eq!(id, "toolu_01ABC");
                    assert_eq!(name, "bash");
                    assert_eq!(input.get_str("command"), Some("ls -la"));
                }
                _ => panic!("Expected ToolUse block"),
            }
        }
        _ => panic!("Expected Assistant message"),
    }

    match &messages[2] {
        Message::User(user_msg) => {
            assert_eq!(user_msg.message.content.len(), 1);
            match &user_msg.message.content[0] {
                ContentBlock::ToolResult { tool_use_id, content, is_error } => {
                    assert_eq!(tool_use_id, "toolu_01ABC");
                    assert!(!is_error);
                    let content_str = content.as_str().unwrap();
                    assert!(content_str.contains("Cargo.toml"));
                }
                _ => panic!("Expected ToolResult block"),
            }
        }
        _ => panic!("Expected User message"),
    }

    match &messages[3] {
        Message::Assistant(assistant_msg) => {
            assert_eq!(assistant_msg.message.content.len(), 1);
            match &assistant_msg.message.content[0] {
                ContentBlock::Text { text } => {
                    assert!(text.contains("Rust project"));
                }
                _ => panic!("Expected Text block"),
            }
        }
        _ => panic!("Expected Assistant message"),
    }

    match &messages[4] {
        Message::Result(ResultMessage::Success { num_turns, .. }) => {
            assert_eq!(*num_turns, Some(2));
        }
        _ => panic!("Expected Result::Success"),
    }
}

#[test]
fn test_error_response_fixture() {
    let messages = load_fixture(ERROR_RESPONSE);
    assert_eq!(messages.len(), 3, "Expected 3 messages in error_response");

    match &messages[0] {
        Message::System(SystemMessage::Init { session_id, .. }) => {
            assert_eq!(session_id, "sess_error_003");
        }
        _ => panic!("Expected System::Init"),
    }

    match &messages[1] {
        Message::Assistant(_) => {}
        _ => panic!("Expected Assistant message"),
    }

    match &messages[2] {
        Message::Result(ResultMessage::Error { error, extra }) => {
            assert_eq!(error, "Failed to execute command: permission denied");
            assert_eq!(extra.get_str("error_code"), Some("EACCES"));
            assert_eq!(extra.get("exit_code").unwrap().as_u64(), Some(126));
        }
        _ => panic!("Expected Result::Error"),
    }
}

#[test]
fn test_thinking_content_fixture() {
    let messages = load_fixture(THINKING_CONTENT);
    assert_eq!(messages.len(), 3, "Expected 3 messages in thinking_content");

    match &messages[0] {
        Message::System(SystemMessage::Init { session_id, .. }) => {
            assert_eq!(session_id, "sess_think_004");
        }
        _ => panic!("Expected System::Init"),
    }

    match &messages[1] {
        Message::Assistant(assistant_msg) => {
            assert_eq!(assistant_msg.message.content.len(), 2);
            match &assistant_msg.message.content[0] {
                ContentBlock::Thinking { thinking } => {
                    assert!(thinking.contains("analyze this request"));
                    assert!(thinking.contains("bash tool"));
                }
                _ => panic!("Expected Thinking block"),
            }
            match &assistant_msg.message.content[1] {
                ContentBlock::Text { text } => {
                    assert!(text.contains("list the files"));
                }
                _ => panic!("Expected Text block"),
            }
            assert_eq!(assistant_msg.duration_ms, Some(234));
        }
        _ => panic!("Expected Assistant message"),
    }

    match &messages[2] {
        Message::Result(ResultMessage::Success { usage, .. }) => {
            assert!(usage.is_some());
        }
        _ => panic!("Expected Result::Success"),
    }
}

#[test]
fn test_all_fixtures_valid() {
    for (name, text) in [
        ("simple_query", SIMPLE_QUERY),
        ("tool_use", TOOL_USE),
        ("error_response", ERROR_RESPONSE),
        ("thinking_content", THINKING_CONTENT),
    ] {
        let messages = load_fixture(text);
        assert!(!messages.is_empty(), "Fixture '{}' should contain at least one message", name);
        for msg in &messages {
            match msg {
                Message::System(_)
                | Message::Assistant(_)
                | Message::User(_)
                | Message::Result(_)
                | Message::ControlRequest { .. }
                | Message::ControlResponse { .. } => {}
            }
        }
    }
}

#[test]
fn test_parse_tool_use_fixture() {
    let messages = load_fixture(TOOL_USE);
    assert!(messages.len() >= 5);
    let has_tool_use = messages.iter().any(|msg| {
        if let Message::Assistant(asst) = msg {
            asst.message.content.iter().any(|content| matches!(content, ContentBlock::ToolUse { .. }))
        } else {
            false
        }
    });
    assert!(has_tool_use);
}

#[test]
fn test_parse_error_response_fixture() {
    let messages = load_fixture(ERROR_RESPONSE);
    let has_error =
        messages.iter().any(|msg| matches!(msg, Message::Result(ResultMessage::Error { .. })));
    assert!(has_error);
}

#[test]
fn test_parse_thinking_blocks_fixture() {
    let messages = load_fixture(THINKING_CONTENT);
    let has_thinking = messages.iter().any(|msg| {
        if let Message::Assistant(asst) = msg {
            asst.message.content.iter().any(|content| matches!(content, ContentBlock::Thinking { .. }))
        } else {
            false
        }
    });
    assert!(has_thinking);
}

#[test]
fn test_transport_creation() {
    let args = vec![
        "--fixture=simple_query.ndjson".to_string(),
        "--output-format=stream-json".to_string(),
    ];
    let transport = SubprocessCLITransport::new(Some(PathBuf::from("mock_cli")), args);
    assert!(!transport.is_ready());
    assert_eq!(transport.args().len(), 2);
    drop(transport);
}

#[test]
fn test_find_in_path() {
    let candidates = CliDiscovery::candidates(
        &None,
        &None,
        &Some("/usr/local/sbin:/usr/bin".to_string()),
        &None,
        "backend",
        false,
    );
    let exists: Vec<bool> = candidates
        .iter()
        .map(|candidate| candidate.directory.as_deref() == Some("/usr/bin"))
        .collect();
    match CliDiscovery::find(&exists) {
        Ok(found) => {
            assert_eq!(found, 1);
            let place = &candidates[found];
            let path = PathBuf::from(place.directory.as_ref().unwrap()).join(&place.file);
            assert!(path.is_absolute());
            assert_eq!(path, PathBuf::from("/usr/bin/backend"));
        }
        Err(ClawError::CliNotFound) => panic!("a place exists"),
        Err(e) => panic!("Unexpected error: {}", e.to_string()),
    }
}

#[test]
fn test_connect_with_invalid_cli() {
    let transport =
        SubprocessCLITransport::new(Some(PathBuf::from("/tmp/nonexistent_backend_binary")), vec![]);
    assert!(transport.connect().is_ok());
    let candidates = CliDiscovery::candidates(
        &Some("/tmp/nonexistent_backend_binary".to_string()),
        &None,
        &None,
        &None,
        "backend",
        false,
    );
    let nothing: Vec<bool> = candidates.iter().map(|_| false).collect();
    let err = CliDiscovery::find(&nothing).unwrap_err();
    assert!(
        matches!(err, ClawError::CliNotFound | ClawError::InvalidCliVersion { .. }),
        "Expected CliNotFound or InvalidCliVersion, got: {:?}",
        err
    );
}
