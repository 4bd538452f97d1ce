use rusty_claw::control::handlers::CanUseToolHandler;
use rusty_claw::json::codec::decode;
use rusty_claw::json::JsonValue;
use rusty_claw::options::PermissionMode;
use rusty_claw::permissions::DefaultPermissionHandler;

fn names(list: &[&str]) -> Vec<String> {
    list.iter().map(|name| name.to_string()).collect()
}

#[test]
fn test_allow_mode_allows_all() {
    let handler = DefaultPermissionHandler::builder().mode(PermissionMode::Allow).build();

    assert!(handler.can_use_tool("bash", &JsonValue::Null).unwrap());
    assert!(handler.can_use_tool("read", &JsonValue::Null).unwrap());
    assert!(handler.can_use_tool("write", &JsonValue::Null).unwrap());
}

#[test]
fn test_deny_mode_denies_all() {
    let handler = DefaultPermissionHandler::builder().mode(PermissionMode::Deny).build();

    assert!(!handler.can_use_tool("bash", &JsonValue::Null).unwrap());
    assert!(!handler.can_use_tool("read", &JsonValue::Null).unwrap());
    assert!(!handler.can_use_tool("write", &JsonValue::Null).unwrap());
}

#[test]
fn test_explicit_allow_overrides_deny_mode() {
    let handler = DefaultPermissionHandler::builder()
        .mode(PermissionMode::Deny)
        .allowed_tools(names(&["bash", "read"]))
        .build();

    assert!(handler.can_use_tool("bash", &JsonValue::Null).unwrap());
    assert!(handler.can_use_tool("read", &JsonValue::Null).unwrap());
    assert!(!handler.can_use_tool("write", &JsonValue::Null).unwrap());
}

#[test]
fn test_explicit_deny_overrides_allow_mode() {
    let handler = DefaultPermissionHandler::builder()
        .mode(PermissionMode::Allow)
        .disallowed_tools(names(&["bash", "write"]))
        .build();

    assert!(!handler.can_use_tool("bash", &JsonValue::Null).unwrap());
    assert!(handler.can_use_tool("read", &JsonValue::Null).unwrap());
    assert!(!handler.can_use_tool("write", &JsonValue::Null).unwrap());
}

#[test]
fn test_explicit_deny_beats_explicit_allow() {
    let handler = DefaultPermissionHandler::builder()
        .mode(PermissionMode::Allow)
        .allowed_tools(names(&["bash"]))
        .disallowed_tools(names(&["bash"]))
        .build();

    assert!(!handler.can_use_tool("bash", &JsonValue::Null).unwrap());
}

#[test]
fn test_ask_mode_defaults_to_deny() {
    let handler = DefaultPermissionHandler::builder().mode(PermissionMode::Ask).build();

    assert!(!handler.can_use_tool("bash", &JsonValue::Null).unwrap());
}

#[test]
fn test_custom_mode_defaults_to_deny() {
    let handler = DefaultPermissionHandler::builder().mode(PermissionMode::Custom).build();

    assert!(!handler.can_use_tool("bash", &JsonValue::Null).unwrap());
}

#[test]
fn test_legacy_mode_defaults_to_allow() {
    let handler = DefaultPermissionHandler::builder().mode(PermissionMode::Default).build();

    assert!(handler.can_use_tool("bash", &JsonValue::Null).unwrap());

    let handler = DefaultPermissionHandler::builder().mode(PermissionMode::AcceptEdits).build();

    assert!(handler.can_use_tool("bash", &JsonValue::Null).unwrap());
}

#[test]
fn test_empty_lists_uses_default_policy() {
    let handler = DefaultPermissionHandler::builder()
        .mode(PermissionMode::Allow)
        .allowed_tools(vec![])
        .disallowed_tools(vec![])
        .build();

    assert!(handler.can_use_tool("bash", &JsonValue::Null).unwrap());

    let handler = DefaultPermissionHandler::builder()
        .mode(PermissionMode::Deny)
        .allowed_tools(vec![])
        .disallowed_tools(vec![])
        .build();

    assert!(!handler.can_use_tool("bash", &JsonValue::Null).unwrap());
}

#[test]
fn test_allowlist_restricts_when_not_empty() {
    let handler = DefaultPermissionHandler::builder()
        .mode(PermissionMode::Allow)
        .allowed_tools(names(&["bash"]))
        .build();

    assert!(handler.can_use_tool("bash", &JsonValue::Null).unwrap());
    assert!(handler.can_use_tool("read", &JsonValue::Null).unwrap());
}

#[test]
fn test_builder_defaults() {
    let handler = DefaultPermissionHandler::builder().build();

    assert!(handler.can_use_tool("bash", &JsonValue::Null).unwrap());
}

#[test]
fn test_bypass_permissions_mode() {
    let handler =
        DefaultPermissionHandler::builder().mode(PermissionMode::BypassPermissions).build();

    assert!(handler.can_use_tool("bash", &JsonValue::Null).unwrap());
    assert!(handler.can_use_tool("write", &JsonValue::Null).unwrap());
}

#[test]
fn test_plan_mode() {
    let handler = DefaultPermissionHandler::builder().mode(PermissionMode::Plan).build();

    assert!(handler.can_use_tool("bash", &JsonValue::Null).unwrap());
}

#[test]
fn test_complex_allowlist_denylist() {
    let handler = DefaultPermissionHandler::builder()
        .mode(PermissionMode::Ask)
        .allowed_tools(names(&["bash", "read", "write"]))
        .disallowed_tools(names(&["write"]))
        .build();

    assert!(handler.can_use_tool("bash", &JsonValue::Null).unwrap());
    assert!(handler.can_use_tool("read", &JsonValue::Null).unwrap());
    assert!(!handler.can_use_tool("write", &JsonValue::Null).unwrap());
    assert!(!handler.can_use_tool("grep", &JsonValue::Null).unwrap());
}

#[test]
fn test_tool_input_parameter_ignored() {
    let handler = DefaultPermissionHandler::builder().mode(PermissionMode::Allow).build();

    let complex_input = decode(r#"{"command": "rm -rf /", "dangerous": true}"#).unwrap();

    assert!(handler.can_use_tool("bash", &complex_input).unwrap());
}

#[test]
fn test_realistic_read_only_policy() {
    let handler = DefaultPermissionHandler::builder()
        .mode(PermissionMode::Deny)
        .allowed_tools(names(&["read", "glob", "grep"]))
        .build();
    let input = decode("{}").unwrap();

    assert!(handler.can_use_tool("read", &input).unwrap());
    assert!(handler.can_use_tool("glob", &input).unwrap());
    assert!(handler.can_use_tool("grep", &input).unwrap());

    assert!(!handler.can_use_tool("write", &input).unwrap());
    assert!(!handler.can_use_tool("edit", &input).unwrap());
    assert!(!handler.can_use_tool("bash", &input).unwrap());
}

#[test]
fn test_safe_tools_policy() {
    let handler = DefaultPermissionHandler::builder()
        .mode(PermissionMode::Allow)
        .disallowed_tools(names(&["bash", "write", "delete"]))
        .build();
    let input = decode("{}").unwrap();

    assert!(handler.can_use_tool("read", &input).unwrap());
    assert!(handler.can_use_tool("grep", &input).unwrap());

    assert!(!handler.can_use_tool("bash", &input).unwrap());
    assert!(!handler.can_use_tool("write", &input).unwrap());
    assert!(!handler.can_use_tool("delete", &input).unwrap());
}

#[test]
fn test_can_use_tool_trait() {
    let handler: Box<dyn CanUseToolHandler> =
        Box::new(DefaultPermissionHandler::builder().mode(PermissionMode::Allow).build());

    let result = handler.can_use_tool("bash", &decode("{}").unwrap());
    assert!(result.is_ok());
    assert!(result.unwrap());
}

#[test]
fn the_parts_of_the_decision() {
    let handler = DefaultPermissionHandler::builder()
        .mode(PermissionMode::Deny)
        .allowed_tools(names(&["read"]))
        .disallowed_tools(names(&["bash"]))
        .build();
    assert!(handler.is_allowed("read"));
    assert!(!handler.is_allowed("bash"));
    assert!(handler.is_denied("bash"));
    assert!(!handler.is_denied("read"));
    assert!(!handler.default_policy());
    assert!(handler.decide("read"));
    assert!(!handler.decide("grep"));
    let open = DefaultPermissionHandler::builder().build();
    assert!(open.is_allowed("anything"));
    assert!(open.default_policy());
}
