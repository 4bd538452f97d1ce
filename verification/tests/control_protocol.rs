use rusty_claw::client::{route, router_step, run_router, Routed, RouterAction};
use rusty_claw::control::handlers::{
    CanUseToolHandler, ControlHandlers, HookHandler, McpMessageHandler,
};
use rusty_claw::control::messages::{ControlRequest, ControlResponse, IncomingControlRequest};
use rusty_claw::control::pending::PendingRequests;
use rusty_claw::control::{
    handler_response, initialize_request, initialize_result, interrupt_result,
    operation_result, rewind_files_result, set_model_result, set_permission_mode_result,
    permission_response, request_line, response_line, ControlProtocol, IncomingPlan,
    RequestOutcome, REQUEST_TIMEOUT_SECS,
};
use rusty_claw::error::ClawError;
use rusty_claw::json::codec::{decode, encode};
use rusty_claw::json::JsonValue;
use rusty_claw::options::{ClaudeAgentOptions, HookEvent, PermissionMode, SdkMcpServer};
use std::sync::{Arc, Mutex};
use tokio::sync::oneshot;

fn json(text: &str) -> JsonValue {
    decode(text).unwrap()
}

fn wire(value: JsonValue) -> JsonValue {
    decode(&encode(&value)).unwrap()
}

fn line(text: &str) -> JsonValue {
    assert!(text.ends_with('\n'));
    assert_eq!(text.matches('\n').count(), 1);
    decode(&text[..text.len() - 1]).unwrap()
}

struct MockCanUseToolHandler;

impl CanUseToolHandler for MockCanUseToolHandler {
    fn can_use_tool(&self, tool_name: &str, _tool_input: &JsonValue) -> Result<bool, ClawError> {
        Ok(tool_name == "Read")
    }
}

struct DenyBash;

impl CanUseToolHandler for DenyBash {
    fn can_use_tool(&self, tool_name: &str, _tool_input: &JsonValue) -> Result<bool, ClawError> {
        Ok(tool_name != "Bash")
    }
}

struct FailingPermission;

impl CanUseToolHandler for FailingPermission {
    fn can_use_tool(&self, _tool_name: &str, _tool_input: &JsonValue) -> Result<bool, ClawError> {
        Err(ClawError::ControlError("no decision".to_string()))
    }
}

struct MockHookHandler;

impl HookHandler for MockHookHandler {
    fn call(&self, _hook_event: HookEvent, hook_input: JsonValue) -> Result<JsonValue, ClawError> {
        Ok(JsonValue::object1("echo", hook_input))
    }
}

struct MockMcpHandler;

impl McpMessageHandler for MockMcpHandler {
    fn handle(&self, server_name: &str, _message: JsonValue) -> Result<JsonValue, ClawError> {
        Ok(JsonValue::object1("server", JsonValue::text(server_name)))
    }
}

fn success(data: &str) -> ControlResponse {
    ControlResponse::Success { data: json(data) }
}

#[test]
fn test_insert_and_complete() {
    let mut pending = PendingRequests::new();
    let (tx, mut rx) = oneshot::channel();

    pending.insert("req_1".to_string(), tx);
    assert_eq!(pending.len(), 1);

    let response = success(r#"{ "result": "ok" }"#);

    let sent = pending.complete("req_1", response.clone());
    assert!(sent);
    assert_eq!(pending.len(), 0);

    let received = rx.try_recv().unwrap();
    assert_eq!(received, response);
}

#[test]
fn test_complete_nonexistent() {
    let mut pending = PendingRequests::new();

    let sent = pending.complete("nonexistent", success(r#"{ "result": "ok" }"#));
    assert!(!sent);
}

#[test]
fn test_cancel() {
    let mut pending = PendingRequests::new();
    let (tx, _rx) = oneshot::channel();

    pending.insert("req_1".to_string(), tx);
    assert_eq!(pending.len(), 1);

    pending.cancel("req_1");
    assert_eq!(pending.len(), 0);
}

#[test]
fn test_cancel_nonexistent() {
    let mut pending = PendingRequests::new();
    pending.cancel("nonexistent");
    assert_eq!(pending.len(), 0);
}

#[test]
fn test_multiple_pending() {
    let mut pending = PendingRequests::new();

    let (tx1, mut rx1) = oneshot::channel();
    let (tx2, mut rx2) = oneshot::channel();
    let (tx3, mut rx3) = oneshot::channel();

    pending.insert("req_1".to_string(), tx1);
    pending.insert("req_2".to_string(), tx2);
    pending.insert("req_3".to_string(), tx3);
    assert_eq!(pending.len(), 3);

    let response2 = success(r#"{ "id": 2 }"#);
    pending.complete("req_2", response2.clone());

    assert_eq!(pending.len(), 2);

    let received2 = rx2.try_recv().unwrap();
    assert_eq!(received2, response2);

    assert!(rx1.try_recv().is_err());
    assert!(rx3.try_recv().is_err());
}

#[test]
fn test_complete_after_receiver_dropped() {
    let mut pending = PendingRequests::new();
    let (tx, rx) = oneshot::channel();

    pending.insert("req_1".to_string(), tx);
    drop(rx);

    let sent = pending.complete("req_1", success(r#"{ "result": "ok" }"#));
    assert!(!sent);
    assert_eq!(pending.len(), 0);
}

#[test]
fn test_concurrent_access() {
    let mut pending = PendingRequests::new();
    let mut receivers = Vec::new();
    for i in 0..10 {
        let (tx, rx) = oneshot::channel();
        pending.insert(format!("req_{}", i), tx);
        receivers.push(rx);
    }
    for i in (0..10).rev() {
        let data = JsonValue::object1("id", JsonValue::unsigned(i));
        assert!(pending.complete(&format!("req_{}", i), ControlResponse::Success { data }));
    }
    for (i, mut rx) in receivers.into_iter().enumerate() {
        match rx.try_recv().unwrap() {
            ControlResponse::Success { data } => {
                assert_eq!(data.get("id").unwrap().as_u64(), Some(i as u64));
            }
            _ => panic!("Wrong response type"),
        }
    }
    assert_eq!(pending.len(), 0);
}

#[test]
fn a_second_response_finds_no_request() {
    let mut pending = PendingRequests::new();
    let (tx, mut rx) = oneshot::channel();
    pending.insert("a".to_string(), tx);
    assert!(pending.complete("a", success(r#"{"n": 1}"#)));
    assert!(!pending.complete("a", success(r#"{"n": 2}"#)));
    assert_eq!(rx.try_recv().unwrap(), success(r#"{"n": 1}"#));
}

#[test]
fn inserting_an_identifier_again_replaces_its_sender() {
    let mut pending = PendingRequests::new();
    let (first, mut first_rx) = oneshot::channel();
    let (second, mut second_rx) = oneshot::channel();
    pending.insert("a".to_string(), first);
    pending.insert("a".to_string(), second);
    assert_eq!(pending.len(), 1);
    assert!(pending.complete("a", success("{}")));
    assert!(matches!(first_rx.try_recv(), Err(oneshot::error::TryRecvError::Closed)));
    assert_eq!(second_rx.try_recv().unwrap(), success("{}"));
}

#[test]
fn test_can_use_tool_handler() {
    let handler = MockCanUseToolHandler;
    assert_eq!(handler.can_use_tool("Read", &json("{}")).unwrap(), true);
    assert_eq!(handler.can_use_tool("Bash", &json("{}")).unwrap(), false);
}

#[test]
fn test_hook_handler() {
    let handler = MockHookHandler;
    let result = handler.call(HookEvent::PreToolUse, json(r#"{ "foo": "bar" }"#)).unwrap();
    assert_eq!(result.get("echo").unwrap().get_str("foo"), Some("bar"));
}

#[test]
fn test_mcp_handler() {
    let handler = MockMcpHandler;
    let result = handler.handle("test_server", json("{}")).unwrap();
    assert_eq!(result.get_str("server"), Some("test_server"));
}

#[test]
fn test_handlers_registry_default() {
    let handlers = ControlHandlers::new();
    assert!(handlers.can_use_tool_handler().is_none());
    assert_eq!(handlers.hook_count(), 0);
    assert!(handlers.mcp_message_handler().is_none());
}

#[test]
fn test_handlers_register_can_use_tool() {
    let mut handlers = ControlHandlers::new();
    handlers.register_can_use_tool(Box::new(MockCanUseToolHandler));
    assert!(handlers.can_use_tool_handler().is_some());
}

#[test]
fn test_handlers_register_hook() {
    let mut handlers = ControlHandlers::new();
    handlers.register_hook("hook1".to_string(), Box::new(MockHookHandler));
    handlers.register_hook("hook2".to_string(), Box::new(MockHookHandler));
    assert_eq!(handlers.hook_count(), 2);
    assert!(handlers.hook_handler("hook1").is_some());
    assert!(handlers.hook_handler("hook2").is_some());
    assert!(handlers.hook_handler("hook3").is_none());
}

#[test]
fn test_handlers_register_mcp_message() {
    let mut handlers = ControlHandlers::new();
    handlers.register_mcp_message(Box::new(MockMcpHandler));
    assert!(handlers.mcp_message_handler().is_some());
}

#[test]
fn test_request_success() {
    let mut control = ControlProtocol::new();
    let mut call = control.request(&ControlRequest::Interrupt);
    assert_eq!(control.pending_len(), 1);

    let sent = line(&call.line);
    assert_eq!(sent.get_str("type"), Some("control_request"));
    let request_id = sent.get_str("request_id").unwrap().to_string();
    assert_eq!(request_id, call.id);
    assert_eq!(sent.get("request"), Some(&json(r#"{"subtype": "interrupt"}"#)));

    assert!(control.handle_response(&request_id, success(r#"{ "result": "ok" }"#)));
    assert_eq!(control.pending_len(), 0);

    let outcome = match call.receiver.try_recv() {
        Ok(response) => RequestOutcome::Answered(response),
        Err(_) => RequestOutcome::ChannelClosed,
    };
    match control.conclude(&call.id, outcome).unwrap() {
        ControlResponse::Success { data } => {
            assert_eq!(data.get_str("result"), Some("ok"));
        }
        _ => panic!("Expected success response"),
    }
}

#[test]
fn test_initialize_success() {
    let mut control = ControlProtocol::new();
    let options = ClaudeAgentOptions::default();
    let mut call = control.initialize(&options);
    let sent = line(&call.line);
    assert_eq!(
        sent.get("request"),
        Some(&json(r#"{"can_use_tool": true, "subtype": "initialize"}"#))
    );
    control.handle_response(&call.id, success("{}"));
    let response = call.receiver.try_recv().unwrap();
    initialize_result(response).unwrap();
}

#[test]
fn test_initialize_error() {
    let mut control = ControlProtocol::new();
    let options = ClaudeAgentOptions::default();
    let mut call = control.initialize(&options);
    control.handle_response(
        &call.id,
        ControlResponse::Error { error: "Bad config".to_string(), extra: json("{}") },
    );
    let result = initialize_result(call.receiver.try_recv().unwrap());
    assert!(result.is_err());
    let message = result.unwrap_err().to_string();
    assert!(message.contains("Initialization failed"));
    assert_eq!(message, "Control protocol error: Initialization failed: Bad config");
}

#[test]
fn test_handle_incoming_can_use_tool_with_handler() {
    let mut control = ControlProtocol::new();
    control.handlers().register_can_use_tool(Box::new(MockCanUseToolHandler));

    let request = IncomingControlRequest::CanUseTool {
        tool_name: "Read".to_string(),
        tool_input: json("{}"),
    };
    let written = control.handle_incoming("req_1", request);

    let msg = line(&written);
    assert_eq!(msg.get_str("type"), Some("control_response"));
    let response = msg.get("response").unwrap();
    assert_eq!(response.get_str("subtype"), Some("success"));
    assert_eq!(response.get("allowed").unwrap().as_bool(), Some(true));
    assert_eq!(response.get_str("request_id"), Some("req_1"));
}

#[test]
fn test_handle_incoming_can_use_tool_default() {
    let control = ControlProtocol::new();

    let request = IncomingControlRequest::CanUseTool {
        tool_name: "Bash".to_string(),
        tool_input: json("{}"),
    };
    let msg = line(&control.handle_incoming("req_1", request));
    assert_eq!(msg.get("response").unwrap().get("allowed").unwrap().as_bool(), Some(true));
}

#[test]
fn test_handle_incoming_hook_callback() {
    let mut control = ControlProtocol::new();
    control.handlers().register_hook("hook1".to_string(), Box::new(MockHookHandler));

    let request = IncomingControlRequest::HookCallback {
        hook_id: "hook1".to_string(),
        hook_event: HookEvent::PreToolUse,
        hook_input: json(r#"{ "test": "data" }"#),
    };
    let msg = line(&control.handle_incoming("req_1", request));
    let response = msg.get("response").unwrap();
    assert_eq!(response.get_str("subtype"), Some("success"));
    assert_eq!(response.get("echo").unwrap().get_str("test"), Some("data"));
}

#[test]
fn test_handle_incoming_mcp_message() {
    let mut control = ControlProtocol::new();
    control.handlers().register_mcp_message(Box::new(MockMcpHandler));

    let request = IncomingControlRequest::McpMessage {
        server_name: "test_server".to_string(),
        message: json(r#"{ "method": "test" }"#),
    };
    let msg = line(&control.handle_incoming("req_1", request));
    let response = msg.get("response").unwrap();
    assert_eq!(response.get_str("subtype"), Some("success"));
    assert_eq!(response.get_str("server"), Some("test_server"));
}

#[test]
fn missing_handlers_answer_with_errors() {
    let control = ControlProtocol::new();
    let hook = IncomingControlRequest::HookCallback {
        hook_id: "X".to_string(),
        hook_event: HookEvent::Stop,
        hook_input: json("{}"),
    };
    assert_eq!(
        line(&control.handle_incoming("r", hook)),
        json(
            r#"{"type": "control_response", "response": {"subtype": "error", "request_id": "r",
                "error": "No handler registered for hook_id: X"}}"#
        )
    );
    let mcp = IncomingControlRequest::McpMessage {
        server_name: "s".to_string(),
        message: json("{}"),
    };
    assert_eq!(
        line(&control.handle_incoming("r", mcp)),
        json(
            r#"{"type": "control_response", "response": {"subtype": "error", "request_id": "r",
                "error": "No MCP message handler registered"}}"#
        )
    );
}

#[test]
fn handler_failures_become_error_responses() {
    let mut control = ControlProtocol::new();
    control.handlers().register_can_use_tool(Box::new(FailingPermission));
    let request = IncomingControlRequest::CanUseTool {
        tool_name: "Read".to_string(),
        tool_input: json("{}"),
    };
    assert_eq!(
        line(&control.handle_incoming("r", request)),
        json(
            r#"{"type": "control_response", "response": {"subtype": "error", "request_id": "r",
                "error": "Control protocol error: no decision"}}"#
        )
    );
    assert_eq!(
        permission_response(Err(ClawError::ControlError("x".to_string()))),
        ControlResponse::Error {
            error: "Control protocol error: x".to_string(),
            extra: JsonValue::empty_object()
        }
    );
    assert_eq!(permission_response(Ok(false)), success(r#"{"allowed": false}"#));
    assert_eq!(handler_response(Ok(json(r#"{"a": 1}"#))), success(r#"{"a": 1}"#));
}

#[test]
fn the_identifier_of_the_request_wins_over_the_data() {
    let text = response_line("real", &success(r#"{"request_id": "forged", "x": 1}"#));
    assert_eq!(
        line(&text),
        json(
            r#"{"type": "control_response",
                "response": {"subtype": "success", "request_id": "real", "x": 1}}"#
        )
    );
}

#[test]
fn permission_denial_writes_one_response_line() {
    let mut control = ControlProtocol::new();
    control.handlers().register_can_use_tool(Box::new(DenyBash));
    let message = json(
        r#"{"type": "control_request", "request_id": "X",
            "request": {"subtype": "can_use_tool", "tool_name": "Bash",
                "tool_input": {"command": "rm -rf /"}}}"#,
    );
    match router_step(&mut control, Ok(message)) {
        RouterAction::Write(written) => assert_eq!(
            line(&written),
            json(
                r#"{"type": "control_response",
                    "response": {"subtype": "success", "request_id": "X", "allowed": false}}"#
            )
        ),
        other => panic!("unexpected {:?}", other),
    }
}

#[test]
fn responses_are_matched_by_identifier_in_any_order() {
    let mut control = ControlProtocol::new();
    let mut interrupt = control.request(&ControlRequest::Interrupt);
    let mut status = control.request(&ControlRequest::McpStatus);
    assert_ne!(interrupt.id, status.id);
    assert_eq!(control.pending_len(), 2);

    let second = format!(
        r#"{{"type": "control_response", "response": {{"subtype": "success", "request_id": "{}", "data": {{"servers": []}}}}}}"#,
        status.id
    );
    let first = format!(
        r#"{{"type": "control_response", "response": {{"subtype": "success", "request_id": "{}"}}}}"#,
        interrupt.id
    );
    assert!(matches!(router_step(&mut control, Ok(json(&second))), RouterAction::Nothing));
    assert_eq!(control.pending_len(), 1);
    assert!(interrupt.receiver.try_recv().is_err());
    assert!(matches!(router_step(&mut control, Ok(json(&first))), RouterAction::Nothing));
    assert_eq!(control.pending_len(), 0);

    let got = control
        .conclude(&status.id, RequestOutcome::Answered(status.receiver.try_recv().unwrap()))
        .unwrap();
    assert_eq!(
        wire(rusty_claw::client::mcp_status_result(got).unwrap()),
        json(r#"{"servers": []}"#)
    );
    let got = control
        .conclude(&interrupt.id, RequestOutcome::Answered(interrupt.receiver.try_recv().unwrap()))
        .unwrap();
    operation_result("Interrupt failed", got).unwrap();
}

#[test]
fn a_timeout_takes_the_request_out() {
    assert_eq!(REQUEST_TIMEOUT_SECS, 30);
    let mut control = ControlProtocol::new();
    let other = control.request(&ControlRequest::McpStatus);
    let call = control.request(&ControlRequest::Interrupt);
    assert_eq!(control.pending_len(), 2);
    match control.conclude(&call.id, RequestOutcome::TimedOut) {
        Err(ClawError::ControlTimeout { subtype }) => assert_eq!(subtype, "control_request"),
        other => panic!("unexpected {:?}", other),
    }
    assert_eq!(control.pending_len(), 1);
    assert!(!control.handle_response(&call.id, success("{}")));
    assert!(control.handle_response(&other.id, success("{}")));
}

#[test]
fn other_outcomes_of_a_request() {
    let mut control = ControlProtocol::new();
    let call = control.request(&ControlRequest::Interrupt);
    match control.conclude(&call.id, RequestOutcome::ChannelClosed) {
        Err(ClawError::ControlError(reason)) => assert_eq!(reason, "Response channel closed"),
        other => panic!("unexpected {:?}", other),
    }
    let failure = ClawError::Connection("not connected".to_string());
    match control.conclude(&call.id, RequestOutcome::WriteFailed(failure)) {
        Err(ClawError::Connection(reason)) => assert_eq!(
            reason,
            "Failed to send control request: Failed to connect to CLI: not connected"
        ),
        other => panic!("unexpected {:?}", other),
    }
    assert_eq!(control.pending_len(), 1);
    match operation_result(
        "Set model failed",
        ControlResponse::Error { error: "unknown model".to_string(), extra: json("{}") },
    ) {
        Err(ClawError::ControlError(reason)) => assert_eq!(reason, "Set model failed: unknown model"),
        other => panic!("unexpected {:?}", other),
    }
}

#[test]
fn identifiers_are_fresh() {
    let mut control = ControlProtocol::new();
    let mut seen = std::collections::HashSet::new();
    for _ in 0..50 {
        let call = control.request(&ControlRequest::Interrupt);
        assert_eq!(call.id.len(), 36);
        assert!(seen.insert(call.id));
    }
    assert_eq!(control.pending_len(), 50);
}

#[test]
fn request_lines_have_the_identifier_beside_the_request() {
    let text = request_line(
        "abc",
        &ControlRequest::SetPermissionMode { mode: "acceptEdits".to_string() },
    );
    assert_eq!(
        line(&text),
        json(
            r#"{"type": "control_request", "request_id": "abc",
                "request": {"subtype": "set_permission_mode", "mode": "acceptEdits"}}"#
        )
    );
}

#[test]
fn initialize_carries_the_options() {
    let options = ClaudeAgentOptions::builder()
        .permission_mode(PermissionMode::Plan)
        .sdk_mcp_servers(vec![
            SdkMcpServer { name: "tools_v1".to_string(), version: "1.0.0".to_string() },
            SdkMcpServer { name: "files".to_string(), version: "0.1.0".to_string() },
        ])
        .build();
    assert_eq!(
        wire(initialize_request(&options).to_json()),
        json(
            r#"{"subtype": "initialize", "sdkMcpServers": ["tools_v1", "files"],
                "permissions": "plan", "can_use_tool": true}"#
        )
    );
}

#[test]
fn routing_by_type() {
    match route(json(r#"{"type": "assistant", "message": {}}"#)) {
        Routed::Forward(message) => assert_eq!(message.get_str("type"), Some("assistant")),
        other => panic!("unexpected {:?}", other),
    }
    assert!(matches!(route(json(r#"{"no_type": 1}"#)), Routed::Forward(_)));
    assert!(matches!(route(json(r#"[1, 2]"#)), Routed::Forward(_)));
    assert!(matches!(route(json(r#"{"type": 5}"#)), Routed::Forward(_)));
    match route(json(
        r#"{"type": "control_response", "request_id": "outer",
            "response": {"subtype": "success", "request_id": "inner"}}"#,
    )) {
        Routed::Response { request_id, .. } => assert_eq!(request_id, "inner"),
        other => panic!("unexpected {:?}", other),
    }
    match route(json(r#"{"type": "control_response", "response": {"subtype": "success"}}"#)) {
        Routed::Response { request_id, .. } => assert_eq!(request_id, ""),
        other => panic!("unexpected {:?}", other),
    }
    match route(json(
        r#"{"type": "control_request", "request_id": "outer",
            "request": {"subtype": "mcp_message", "server_name": "s", "message": {},
                "request_id": "inner"}}"#,
    )) {
        Routed::Request { request_id, .. } => assert_eq!(request_id, "outer"),
        other => panic!("unexpected {:?}", other),
    }
    for text in [
        r#"{"type": "control_response"}"#,
        r#"{"type": "control_response", "response": {"subtype": "other"}}"#,
        r#"{"type": "control_response", "response": 3}"#,
        r#"{"type": "control_request", "request_id": "X"}"#,
        r#"{"type": "control_request", "request_id": "X", "request": {"subtype": "unknown"}}"#,
    ] {
        assert!(matches!(route(json(text)), Routed::Dropped), "{}", text);
    }
}

#[test]
fn a_malformed_response_leaves_the_request_waiting() {
    let mut control = ControlProtocol::new();
    let call = control.request(&ControlRequest::Interrupt);
    let malformed = format!(
        r#"{{"type": "control_response", "response": {{"subtype": "bogus", "request_id": "{}"}}}}"#,
        call.id
    );
    assert!(matches!(router_step(&mut control, Ok(json(&malformed))), RouterAction::Nothing));
    assert_eq!(control.pending_len(), 1);
}

#[test]
fn the_user_sees_the_other_messages_in_order() {
    let mut control = ControlProtocol::new();
    let call = control.request(&ControlRequest::Interrupt);
    let items = vec![
        Ok(json(r#"{"type": "system", "subtype": "init", "n": 1}"#)),
        Ok(json(&format!(
            r#"{{"type": "control_response", "response": {{"subtype": "success", "request_id": "{}"}}}}"#,
            call.id
        ))),
        Ok(json(r#"{"type": "assistant", "n": 2}"#)),
        Ok(json(
            r#"{"type": "control_request", "request_id": "q1",
                "request": {"subtype": "can_use_tool", "tool_name": "Read", "tool_input": {}}}"#,
        )),
        Err(ClawError::ControlError("bad line".to_string())),
        Ok(json(r#"{"type": "control_request", "request": {"subtype": "unknown"}}"#)),
        Ok(json(r#"{"type": "rate_limit_event", "n": 3}"#)),
        Ok(json(
            r#"{"type": "control_request", "request_id": "q2",
                "request": {"subtype": "mcp_message", "server_name": "s", "message": {}}}"#,
        )),
        Ok(json(r#"{"type": "result", "subtype": "success", "n": 4}"#)),
    ];
    let out = run_router(&mut control, items);
    assert_eq!(control.pending_len(), 0);
    let seen: Vec<String> = out
        .user
        .iter()
        .map(|item| match item {
            Ok(message) => message.get("n").unwrap().as_u64().unwrap().to_string(),
            Err(error) => error.to_string(),
        })
        .collect();
    assert_eq!(seen, vec!["1", "2", "Control protocol error: bad line", "3", "4"]);
    assert_eq!(out.written.len(), 2);
    assert_eq!(
        line(&out.written[0]).get("response").unwrap().get_str("request_id"),
        Some("q1")
    );
    assert_eq!(
        line(&out.written[1]),
        json(
            r#"{"type": "control_response", "response": {"subtype": "error", "request_id": "q2",
                "error": "No MCP message handler registered"}}"#
        )
    );
}

#[test]
fn a_shared_handler_is_registered_as_it_is() {
    let mut handlers = ControlHandlers::new();
    let permission: Arc<Box<dyn CanUseToolHandler>> = Arc::new(Box::new(DenyBash));
    handlers.install_can_use_tool(permission.clone());
    let kept = handlers.can_use_tool_handler().unwrap();
    assert!(Arc::ptr_eq(&kept, &permission));
    let hook: Arc<Box<dyn HookHandler>> = Arc::new(Box::new(MockHookHandler));
    handlers.install_hook("h".to_string(), hook.clone());
    assert!(Arc::ptr_eq(&handlers.hook_handler("h").unwrap(), &hook));
    assert!(handlers.hook_handler("other").is_none());
    let replacement: Arc<Box<dyn HookHandler>> = Arc::new(Box::new(MockHookHandler));
    handlers.install_hook("h".to_string(), replacement.clone());
    assert_eq!(handlers.hook_count(), 1);
    assert!(Arc::ptr_eq(&handlers.hook_handler("h").unwrap(), &replacement));
    let mcp: Arc<Box<dyn McpMessageHandler>> = Arc::new(Box::new(MockMcpHandler));
    handlers.install_mcp_message(mcp.clone());
    assert!(Arc::ptr_eq(&handlers.mcp_message_handler().unwrap(), &mcp));
}

struct Recorder {
    calls: Arc<Mutex<Vec<String>>>,
}

impl Recorder {
    fn note(&self, call: String) {
        self.calls.lock().unwrap().push(call);
    }
}

impl CanUseToolHandler for Recorder {
    fn can_use_tool(&self, tool_name: &str, tool_input: &JsonValue) -> Result<bool, ClawError> {
        self.note(format!("permission {} {}", tool_name, encode(tool_input)));
        Ok(tool_name != "Bash")
    }
}

impl HookHandler for Recorder {
    fn call(&self, hook_event: HookEvent, hook_input: JsonValue) -> Result<JsonValue, ClawError> {
        self.note(format!("hook {:?} {}", hook_event, encode(&hook_input)));
        Ok(JsonValue::object1("echo", hook_input))
    }
}

impl McpMessageHandler for Recorder {
    fn handle(&self, server_name: &str, message: JsonValue) -> Result<JsonValue, ClawError> {
        self.note(format!("mcp {} {}", server_name, encode(&message)));
        Ok(message)
    }
}

fn recorder() -> (Arc<Mutex<Vec<String>>>, Box<Recorder>) {
    let calls = Arc::new(Mutex::new(Vec::new()));
    (calls.clone(), Box::new(Recorder { calls }))
}

#[test]
fn the_hook_under_the_identifier_is_called_with_event_and_input() {
    let mut control = ControlProtocol::new();
    let (first, hook1) = recorder();
    let (second, hook2) = recorder();
    control.handlers().register_hook("hook1".to_string(), hook1);
    control.handlers().register_hook("hook2".to_string(), hook2);
    let request = IncomingControlRequest::HookCallback {
        hook_id: "hook1".to_string(),
        hook_event: HookEvent::PreToolUse,
        hook_input: json(r#"{"test": "data"}"#),
    };
    match control.plan(request.clone()) {
        IncomingPlan::Hook { handler, hook_event, hook_input } => {
            assert!(Arc::ptr_eq(&handler, &control.registered().hook_handler("hook1").unwrap()));
            assert_eq!(hook_event, HookEvent::PreToolUse);
            assert_eq!(hook_input, json(r#"{"test": "data"}"#));
        }
        _ => panic!("a hook is registered"),
    }
    assert!(first.lock().unwrap().is_empty());
    let msg = line(&control.handle_incoming("req_1", request));
    let response = msg.get("response").unwrap();
    assert_eq!(response.get_str("subtype"), Some("success"));
    assert_eq!(response.get_str("request_id"), Some("req_1"));
    assert_eq!(response.get("echo").unwrap().get_str("test"), Some("data"));
    assert!(response.get("data").is_none());
    assert_eq!(*first.lock().unwrap(), vec![r#"hook PreToolUse {"test":"data"}"#.to_string()]);
    assert!(second.lock().unwrap().is_empty());
}

#[test]
fn the_permission_handler_is_asked_with_name_and_input() {
    let mut control = ControlProtocol::new();
    let (calls, handler) = recorder();
    control.handlers().register_can_use_tool(handler);
    let request = IncomingControlRequest::CanUseTool {
        tool_name: "Bash".to_string(),
        tool_input: json(r#"{"command": "rm -rf /"}"#),
    };
    match control.plan(request.clone()) {
        IncomingPlan::Ask { handler, tool_name, tool_input } => {
            assert!(Arc::ptr_eq(&handler, &control.registered().can_use_tool_handler().unwrap()));
            assert_eq!(tool_name, "Bash");
            assert_eq!(tool_input, json(r#"{"command": "rm -rf /"}"#));
        }
        _ => panic!("a handler is registered"),
    }
    assert_eq!(
        line(&control.handle_incoming("X", request)),
        json(
            r#"{"type": "control_response",
                "response": {"subtype": "success", "request_id": "X", "allowed": false}}"#
        )
    );
    assert_eq!(
        *calls.lock().unwrap(),
        vec![r#"permission Bash {"command":"rm -rf /"}"#.to_string()]
    );
}

#[test]
fn the_mcp_handler_gets_the_server_and_the_message() {
    let mut control = ControlProtocol::new();
    let (calls, handler) = recorder();
    control.handlers().register_mcp_message(handler);
    let request = IncomingControlRequest::McpMessage {
        server_name: "tools_v1".to_string(),
        message: json(r#"{"jsonrpc": "2.0", "id": 7, "method": "tools/list"}"#),
    };
    match control.plan(request.clone()) {
        IncomingPlan::Mcp { handler, server_name, message } => {
            assert!(Arc::ptr_eq(&handler, &control.registered().mcp_message_handler().unwrap()));
            assert_eq!(server_name, "tools_v1");
            assert_eq!(message.get_str("method"), Some("tools/list"));
        }
        _ => panic!("a handler is registered"),
    }
    let response = control.respond(request);
    assert!(matches!(response, ControlResponse::Success { .. }));
    assert_eq!(
        *calls.lock().unwrap(),
        vec![r#"mcp tools_v1 {"id":7,"jsonrpc":"2.0","method":"tools/list"}"#.to_string()]
    );
}

#[test]
fn a_plan_without_a_handler_is_a_fixed_response() {
    let control = ControlProtocol::new();
    let plans = vec![
        control.plan(IncomingControlRequest::CanUseTool {
            tool_name: "Bash".to_string(),
            tool_input: json("{}"),
        }),
        control.plan(IncomingControlRequest::HookCallback {
            hook_id: "h".to_string(),
            hook_event: HookEvent::Stop,
            hook_input: json("{}"),
        }),
        control.plan(IncomingControlRequest::McpMessage {
            server_name: "s".to_string(),
            message: json("{}"),
        }),
    ];
    let expected = vec![
        success(r#"{"allowed": true}"#),
        ControlResponse::Error {
            error: "No handler registered for hook_id: h".to_string(),
            extra: json("{}"),
        },
        ControlResponse::Error {
            error: "No MCP message handler registered".to_string(),
            extra: json("{}"),
        },
    ];
    for (plan, expected) in plans.into_iter().zip(expected) {
        match plan {
            IncomingPlan::Reply(response) => assert_eq!(response, expected),
            _ => panic!("no handler is registered"),
        }
    }
    let fixed = IncomingPlan::Reply(success(r#"{"a": 1}"#));
    assert_eq!(fixed.carry_out(), success(r#"{"a": 1}"#));
}

#[test]
fn the_waiting_requests_are_counted() {
    let mut control = ControlProtocol::new();
    assert_eq!(control.pending_len(), 0);
    let first = control.request(&ControlRequest::Interrupt);
    let second = control.request(&ControlRequest::McpStatus);
    assert_ne!(first.id, second.id);
    assert_eq!(control.pending_len(), 2);
    control.handle_response(&second.id, success("{}"));
    control.handle_response(&first.id, success("{}"));
    assert_eq!(control.pending_len(), 0);
}

#[test]
fn each_operation_names_itself_in_its_failure() {
    let failure = || ControlResponse::Error { error: "busy".to_string(), extra: json("{}") };
    let reason = |result: Result<(), ClawError>| match result {
        Err(ClawError::ControlError(reason)) => reason,
        other => panic!("unexpected {:?}", other),
    };
    assert_eq!(reason(interrupt_result(failure())), "Interrupt failed: busy");
    assert_eq!(
        reason(set_permission_mode_result(failure())),
        "Set permission mode failed: busy"
    );
    assert_eq!(reason(set_model_result(failure())), "Set model failed: busy");
    assert_eq!(reason(rewind_files_result(failure())), "Rewind files failed: busy");
    assert_eq!(reason(initialize_result(failure())), "Initialization failed: busy");
    assert!(interrupt_result(success("{}")).is_ok());
    assert!(set_permission_mode_result(success("{}")).is_ok());
    assert!(set_model_result(success(r#"{"model": "m"}"#)).is_ok());
    assert!(rewind_files_result(success("{}")).is_ok());
}
