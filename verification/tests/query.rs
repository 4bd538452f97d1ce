use rusty_claw::error::ClawError;
use rusty_claw::json::codec::decode;
use rusty_claw::messages::{ContentBlock, Message, ResultMessage, SystemMessage};
use rusty_claw::options::{ClaudeAgentOptions, PermissionMode};
use rusty_claw::query::{query, QueryStream};
use rusty_claw::transport::subprocess::ConnectStep;
use std::path::PathBuf;

#[test]
fn test_query_stream_is_send() {
    fn assert_send<T: Send>() {}
    assert_send::<QueryStream>();
}

#[test]
fn test_query_stream_is_unpin() {
    fn assert_unpin<T: Unpin>() {}
    assert_unpin::<QueryStream>();
}

#[test]
fn test_query_accepts_string() {
    let prompt = "test".to_string();
    let stream = query(&prompt, None);
    assert!(matches!(stream.connect(), Ok(ConnectStep::Discover { cli_path: None })));
}

#[test]
fn test_query_accepts_str() {
    let stream = query("test", None);
    assert!(matches!(stream.connect(), Ok(ConnectStep::Discover { cli_path: None })));
}

#[test]
fn a_simple_query() {
    let options = ClaudeAgentOptions::builder()
        .max_turns(3)
        .model("haiku-4-5")
        .permission_mode(PermissionMode::AcceptEdits)
        .build();
    let args = options.to_cli_args("hello");
    assert_eq!(
        args,
        vec![
            "--output-format",
            "stream-json",
            "--verbose",
            "--max-turns",
            "3",
            "--model",
            "haiku-4-5",
            "--permission-mode",
            "acceptEdits",
            "--setting-sources",
            "",
            "--input-format",
            "stream-json",
            "-p",
            "hello"
        ]
    );
    let mut stream = query("hello", Some(options));
    stream.started(PathBuf::from("/usr/bin/backend"), Some(9));
    let lines = [
        r#"{"type":"system","subtype":"init","session_id":"sess","tools":[],"mcp_servers":[]}"#,
        r#"{"type":"assistant","message":{"role":"assistant","content":[{"type":"text","text":"hi"}]}}"#,
        r#"{"type":"result","subtype":"success","result":"ok","num_turns":1}"#,
    ];
    let mut seen = Vec::new();
    for text in lines {
        seen.push(stream.next(Some(Ok(decode(text).unwrap()))).unwrap().unwrap());
    }
    assert!(stream.next(None).is_none());
    assert!(stream.next(None).is_none());
    assert_eq!(seen.len(), 3);
    assert!(matches!(&seen[0], Message::System(SystemMessage::Init { session_id, .. }) if session_id == "sess"));
    match &seen[1] {
        Message::Assistant(assistant) => {
            assert!(matches!(&assistant.message.content[0], ContentBlock::Text { text } if text == "hi"))
        }
        other => panic!("unexpected {:?}", other),
    }
    assert!(matches!(&seen[2], Message::Result(ResultMessage::Success { num_turns: Some(1), .. })));
}

#[test]
fn a_query_without_options_uses_the_fixed_arguments() {
    let stream = query("what?", None);
    let with_defaults = query("what?", Some(ClaudeAgentOptions::default()));
    drop(stream);
    drop(with_defaults);
    assert_eq!(
        ClaudeAgentOptions::default().to_cli_args("what?"),
        vec![
            "--output-format",
            "stream-json",
            "--verbose",
            "--setting-sources",
            "",
            "--input-format",
            "stream-json",
            "-p",
            "what?"
        ]
    );
}

#[test]
fn parse_errors_do_not_end_the_stream() {
    let mut stream = query("q", None);
    stream.started(PathBuf::from("/b"), None);
    assert!(matches!(
        stream.next(Some(Ok(decode(r#"{"type": "unknown"}"#).unwrap()))),
        Some(Err(ClawError::MessageParse { .. }))
    ));
    assert!(matches!(
        stream.next(Some(Ok(decode(r#"{"type": "result", "subtype": "input_required"}"#).unwrap()))),
        Some(Ok(Message::Result(ResultMessage::InputRequired)))
    ));
}

#[test]
fn a_query_hands_its_arguments_out() {
    let stream = query("hello", None);
    assert_eq!(stream.args().last().map(String::as_str), Some("hello"));
    assert_eq!(stream.args()[stream.args().len() - 2], "-p");
}
