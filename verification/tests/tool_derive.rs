use rusty_claw::error::ClawError;
use rusty_claw::json::codec::{decode, encode};
use rusty_claw::json::JsonValue;
use rusty_claw::mcp_server::{SdkMcpTool, ToolContent, ToolResult};
use rusty_claw::tool_derive::{
    claw_tool, extract_arguments, extract_doc_comment, generate_input_schema, tool_name_for,
    type_to_json_schema, value_conforms, IntKind, ParamType, ToolFunction, ToolParam,
};

fn json(text: &str) -> JsonValue {
    decode(text).unwrap()
}

fn wire(value: JsonValue) -> JsonValue {
    decode(&encode(&value)).unwrap()
}

fn param(name: &str, ty: ParamType) -> ToolParam {
    ToolParam { name: name.to_string(), ty }
}

fn optional(ty: ParamType) -> ParamType {
    ParamType::Optional(Box::new(ty))
}

fn list(ty: ParamType) -> ParamType {
    ParamType::List(Box::new(ty))
}

fn text_of(value: &Option<JsonValue>) -> String {
    value.as_ref().and_then(|v| v.as_str()).unwrap_or("").to_string()
}

fn number_of(value: &Option<JsonValue>) -> Option<i64> {
    match value {
        Some(JsonValue::Number(rusty_claw::json::JsonNumber::Unsigned(n))) => Some(*n as i64),
        Some(JsonValue::Number(rusty_claw::json::JsonNumber::Signed(n))) => Some(*n),
        _ => None,
    }
}

struct Echo;

impl ToolFunction for Echo {
    fn run(&self, arguments: Vec<Option<JsonValue>>) -> Result<ToolResult, ClawError> {
        Ok(ToolResult::text(&text_of(&arguments[0])))
    }
}

struct Greet;

impl ToolFunction for Greet {
    fn run(&self, arguments: Vec<Option<JsonValue>>) -> Result<ToolResult, ClawError> {
        Ok(ToolResult::text(&format!("Hello, {}!", text_of(&arguments[0]))))
    }
}

struct Calculate;

impl ToolFunction for Calculate {
    fn run(&self, arguments: Vec<Option<JsonValue>>) -> Result<ToolResult, ClawError> {
        let x = number_of(&arguments[0]).unwrap();
        let y = number_of(&arguments[1]).unwrap();
        let result = match text_of(&arguments[2]).as_str() {
            "add" => x + y,
            "sub" => x - y,
            "mul" => x * y,
            _ => 0,
        };
        Ok(ToolResult::text(&format!("{}", result)))
    }
}

struct Search;

impl ToolFunction for Search {
    fn run(&self, arguments: Vec<Option<JsonValue>>) -> Result<ToolResult, ClawError> {
        let max = number_of(&arguments[1]).unwrap_or(10);
        Ok(ToolResult::text(&format!("Query: {}, Limit: {}", text_of(&arguments[0]), max)))
    }
}

struct Sum;

impl ToolFunction for Sum {
    fn run(&self, arguments: Vec<Option<JsonValue>>) -> Result<ToolResult, ClawError> {
        let items = arguments[0].as_ref().unwrap().as_array().unwrap();
        let total: i64 = items.iter().map(|item| number_of(&Some(item.clone())).unwrap()).sum();
        Ok(ToolResult::text(&format!("{}", total)))
    }
}

struct Fallible;

impl ToolFunction for Fallible {
    fn run(&self, arguments: Vec<Option<JsonValue>>) -> Result<ToolResult, ClawError> {
        let value = number_of(&arguments[0]).unwrap();
        if value < 0 {
            Err(ClawError::ToolExecution("Negative value not allowed".to_string()))
        } else {
            Ok(ToolResult::text(&format!("Value: {}", value)))
        }
    }
}

fn only_text(result: &ToolResult) -> &str {
    match &result.content[0] {
        ToolContent::Text { text } => text,
        _ => panic!("Expected text content"),
    }
}

fn schema_type<'a>(tool: &'a SdkMcpTool, name: &str) -> Option<&'a str> {
    tool.input_schema.get("properties").unwrap().get(name).unwrap().get_str("type")
}

#[test]
fn test_basic_tool_with_name_and_description() {
    let tool = claw_tool(
        "echo_tool",
        Some("echo"),
        Some("Echo a message"),
        &vec![],
        vec![param("message", ParamType::Text)],
        Box::new(Echo),
    );
    assert_eq!(tool.name, "echo");
    assert_eq!(tool.description, "Echo a message");

    let schema = &tool.input_schema;
    assert_eq!(schema.get_str("type"), Some("object"));
    assert_eq!(schema_type(&tool, "message"), Some("string"));
    assert_eq!(schema.get("required").unwrap().as_array().unwrap()[0].as_str(), Some("message"));
}

#[test]
fn test_tool_inferred_name() {
    let tool = claw_tool(
        "my_test_tool",
        None,
        None,
        &vec![],
        vec![param("value", ParamType::Text)],
        Box::new(Echo),
    );
    assert_eq!(tool.name, "my-test-tool");
    assert!(tool.description.contains("my-test-tool"));
    assert_eq!(tool.description, "Tool: my-test-tool");
}

#[test]
fn test_tool_doc_comment() {
    let doc = vec![" This is a documented tool".to_string(), " that spans multiple lines".to_string()];
    let tool = claw_tool(
        "documented_tool",
        None,
        None,
        &doc,
        vec![param("input", ParamType::Text)],
        Box::new(Echo),
    );
    assert!(tool.description.contains("documented tool"));
    assert_eq!(tool.description, "This is a documented tool that spans multiple lines");
}

#[test]
fn test_multiple_parameters() {
    let tool = claw_tool(
        "add_numbers",
        Some("add"),
        Some("Add two numbers"),
        &vec![],
        vec![param("a", ParamType::Integer(IntKind::I32)), param("b", ParamType::Integer(IntKind::I32))],
        Box::new(Echo),
    );
    assert_eq!(tool.name, "add");
    assert_eq!(schema_type(&tool, "a"), Some("number"));
    assert_eq!(schema_type(&tool, "b"), Some("number"));
    assert_eq!(tool.input_schema.get("required").unwrap().as_array().unwrap().len(), 2);
}

#[test]
fn test_optional_parameter() {
    let tool = claw_tool(
        "search_tool",
        Some("search"),
        Some("Search with optional limit"),
        &vec![],
        vec![param("query", ParamType::Text), param("limit", optional(ParamType::Integer(IntKind::I32)))],
        Box::new(Search),
    );
    assert_eq!(tool.name, "search");
    assert_eq!(schema_type(&tool, "query"), Some("string"));
    assert_eq!(schema_type(&tool, "limit"), Some("number"));

    let required = tool.input_schema.get("required").unwrap().as_array().unwrap();
    assert_eq!(required.len(), 1);
    assert_eq!(required[0].as_str(), Some("query"));
}

#[test]
fn test_vec_parameter() {
    let tool = claw_tool(
        "sum_numbers",
        Some("sum"),
        Some("Sum a list of numbers"),
        &vec![],
        vec![param("numbers", list(ParamType::Integer(IntKind::I32)))],
        Box::new(Sum),
    );
    assert_eq!(tool.name, "sum");
    let numbers = tool.input_schema.get("properties").unwrap().get("numbers").unwrap();
    assert_eq!(numbers.get_str("type"), Some("array"));
    assert_eq!(numbers.get("items").unwrap().get_str("type"), Some("number"));
}

#[test]
fn test_boolean_parameter() {
    let tool = claw_tool(
        "toggle_setting",
        Some("toggle"),
        Some("Toggle a setting"),
        &vec![],
        vec![param("enabled", ParamType::Boolean)],
        Box::new(Echo),
    );
    assert_eq!(schema_type(&tool, "enabled"), Some("boolean"));
}

#[test]
fn test_numeric_types() {
    let tool = claw_tool(
        "numeric_tool",
        None,
        None,
        &vec![],
        vec![
            param("i", ParamType::Integer(IntKind::I32)),
            param("u", ParamType::Integer(IntKind::U64)),
            param("f", ParamType::Number),
        ],
        Box::new(Echo),
    );
    let schema = &tool.input_schema;
    assert_eq!(schema.get("properties").unwrap().get("i").unwrap().get_str("type"), Some("number"));
    assert_eq!(schema.get("properties").unwrap().get("u").unwrap().get_str("type"), Some("number"));
    assert_eq!(schema.get("properties").unwrap().get("f").unwrap().get_str("type"), Some("number"));
    let shown = format!("{} {} {}", schema_type(&tool, "i").unwrap(), schema_type(&tool, "u").unwrap(), schema_type(&tool, "f").unwrap());
    assert_eq!(shown, "number number number");
}

#[test]
fn test_tool_execution() {
    let tool = claw_tool(
        "greet",
        Some("greet"),
        Some("Greet someone"),
        &vec![],
        vec![param("name", ParamType::Text)],
        Box::new(Greet),
    );
    let result = tool.execute(json(r#"{"name": "World"}"#)).unwrap();

    assert_eq!(result.content.len(), 1);
    assert_eq!(only_text(&result), "Hello, World!");
}

#[test]
fn test_tool_execution_multiple_params() {
    let tool = claw_tool(
        "calculate",
        Some("calculate"),
        Some("Perform calculation"),
        &vec![],
        vec![
            param("x", ParamType::Integer(IntKind::I32)),
            param("y", ParamType::Integer(IntKind::I32)),
            param("op", ParamType::Text),
        ],
        Box::new(Calculate),
    );
    let result = tool.execute(json(r#"{"x": 10, "y": 5, "op": "add"}"#)).unwrap();
    assert_eq!(only_text(&result), "15");
}

#[test]
fn test_tool_execution_optional_provided() {
    let tool = claw_tool(
        "search_with_limit",
        None,
        None,
        &vec![],
        vec![param("query", ParamType::Text), param("limit", optional(ParamType::Integer(IntKind::I32)))],
        Box::new(Search),
    );
    let result = tool.execute(json(r#"{"query": "test", "limit": 20}"#)).unwrap();
    assert!(only_text(&result).contains("Limit: 20"));
}

#[test]
fn test_tool_execution_optional_missing() {
    let tool = claw_tool(
        "search_without_limit",
        None,
        None,
        &vec![],
        vec![param("query", ParamType::Text), param("limit", optional(ParamType::Integer(IntKind::I32)))],
        Box::new(Search),
    );
    let result = tool.execute(json(r#"{"query": "test"}"#)).unwrap();
    assert!(only_text(&result).contains("Limit: 10"));
    let result = tool.execute(json(r#"{"query": "test", "limit": null}"#)).unwrap();
    assert!(only_text(&result).contains("Limit: 10"));
    let result = tool.execute(json(r#"{"query": "test", "limit": "many"}"#)).unwrap();
    assert!(only_text(&result).contains("Limit: 10"));
}

#[test]
fn test_tool_execution_vec() {
    let tool = claw_tool(
        "sum_array",
        None,
        None,
        &vec![],
        vec![param("numbers", list(ParamType::Integer(IntKind::I32)))],
        Box::new(Sum),
    );
    let result = tool.execute(json(r#"{"numbers": [1, 2, 3, 4, 5]}"#)).unwrap();
    assert_eq!(only_text(&result), "15");
}

#[test]
fn test_optional_vec_parameter() {
    let tool = claw_tool(
        "filter_tool",
        None,
        None,
        &vec![],
        vec![param("query", ParamType::Text), param("tags", optional(list(ParamType::Text)))],
        Box::new(Echo),
    );
    assert_eq!(schema_type(&tool, "query"), Some("string"));
    let tags = tool.input_schema.get("properties").unwrap().get("tags").unwrap();
    assert_eq!(tags.get_str("type"), Some("array"));
    assert_eq!(tags.get("items").unwrap().get_str("type"), Some("string"));

    let required = tool.input_schema.get("required").unwrap().as_array().unwrap();
    assert_eq!(required.len(), 1);
    assert_eq!(required[0].as_str(), Some("query"));
}

#[test]
fn test_tool_with_result_return() {
    let tool = claw_tool(
        "fallible_tool",
        None,
        None,
        &vec![],
        vec![param("value", ParamType::Integer(IntKind::I32))],
        Box::new(Fallible),
    );

    let result = tool.execute(json(r#"{"value": 42}"#)).unwrap();
    assert_eq!(only_text(&result), "Value: 42");

    let error = tool.execute(json(r#"{"value": -1}"#)).unwrap_err();
    match error {
        ClawError::ToolExecution(msg) => {
            assert!(msg.contains("Negative value"));
        }
        _ => panic!("Expected ToolExecution error"),
    }
}

#[test]
fn missing_and_ill_typed_parameters_are_refused() {
    let tool = claw_tool(
        "pair",
        None,
        None,
        &vec![],
        vec![param("first", ParamType::Text), param("second", ParamType::Number)],
        Box::new(Echo),
    );
    match tool.execute(json(r#"{"second": 1}"#)) {
        Err(ClawError::ToolExecution(reason)) => {
            assert_eq!(reason, "Missing required parameter 'first'")
        }
        other => panic!("unexpected {:?}", other),
    }
    match tool.execute(json(r#"{"first": "a", "second": "b"}"#)) {
        Err(ClawError::ToolExecution(reason)) => {
            assert_eq!(reason, "Invalid parameter 'second': wrong type")
        }
        other => panic!("unexpected {:?}", other),
    }
    match tool.execute(json(r#"{"first": 1}"#)) {
        Err(ClawError::ToolExecution(reason)) => {
            assert_eq!(reason, "Invalid parameter 'first': wrong type")
        }
        other => panic!("unexpected {:?}", other),
    }
    match tool.execute(json(r#"[]"#)) {
        Err(ClawError::ToolExecution(reason)) => {
            assert_eq!(reason, "Missing required parameter 'first'")
        }
        other => panic!("unexpected {:?}", other),
    }
    let values = extract_arguments(
        &vec![param("a", optional(ParamType::Boolean)), param("b", ParamType::Other)],
        &json(r#"{"a": true, "b": {"any": []}}"#),
    )
    .unwrap();
    assert_eq!(values, vec![Some(JsonValue::Bool(true)), Some(json(r#"{"any": []}"#))]);
}

#[test]
fn schemas_of_types() {
    assert_eq!(type_to_json_schema(&ParamType::Text), json(r#"{"type": "string"}"#));
    assert_eq!(type_to_json_schema(&ParamType::Number), json(r#"{"type": "number"}"#));
    assert_eq!(type_to_json_schema(&ParamType::Boolean), json(r#"{"type": "boolean"}"#));
    assert_eq!(type_to_json_schema(&ParamType::Other), json(r#"{"type": "object"}"#));
    assert_eq!(type_to_json_schema(&optional(ParamType::Text)), json(r#"{"type": "string"}"#));
    assert_eq!(
        wire(type_to_json_schema(&list(optional(list(ParamType::Boolean))))),
        json(r#"{"type": "array", "items": {"type": "array", "items": {"type": "boolean"}}}"#)
    );
    assert_eq!(
        wire(generate_input_schema(&vec![
            param("q", ParamType::Text),
            param("n", optional(ParamType::Number)),
            param("tags", list(ParamType::Text)),
        ])),
        json(
            r#"{"type": "object",
                "properties": {"q": {"type": "string"}, "n": {"type": "number"},
                    "tags": {"type": "array", "items": {"type": "string"}}},
                "required": ["q", "tags"]}"#
        )
    );
    assert_eq!(
        wire(generate_input_schema(&vec![])),
        json(r#"{"type": "object", "properties": {}, "required": []}"#)
    );
}

#[test]
fn values_and_their_types() {
    assert!(value_conforms(&json("\"a\""), &ParamType::Text));
    assert!(!value_conforms(&json("1"), &ParamType::Text));
    assert!(value_conforms(&json("1.5"), &ParamType::Number));
    assert!(value_conforms(&json("-3"), &ParamType::Number));
    assert!(!value_conforms(&json("true"), &ParamType::Number));
    assert!(value_conforms(&json("null"), &optional(ParamType::Number)));
    assert!(!value_conforms(&json("null"), &ParamType::Number));
    assert!(value_conforms(&json("[1, 2]"), &list(ParamType::Number)));
    assert!(!value_conforms(&json("[1, \"2\"]"), &list(ParamType::Number)));
    assert!(value_conforms(&json("[]"), &list(ParamType::Text)));
    assert!(!value_conforms(&json("{}"), &list(ParamType::Text)));
    assert!(value_conforms(&json("{}"), &ParamType::Other));
}

#[test]
fn names_and_doc_comments() {
    assert_eq!(tool_name_for("my_test_tool"), "my-test-tool");
    assert_eq!(tool_name_for("echo"), "echo");
    assert_eq!(tool_name_for("_a__b_"), "-a--b-");
    assert_eq!(tool_name_for(""), "");
    assert_eq!(extract_doc_comment(&vec![]), None);
    assert_eq!(extract_doc_comment(&vec!["  ".to_string()]), None);
    assert_eq!(
        extract_doc_comment(&vec!["".to_string(), " one ".to_string(), "".to_string(), "two".to_string()]),
        Some("one  two".to_string())
    );
}

#[test]
fn integers_and_their_types() {
    let holds = |text: &str, kind: IntKind| value_conforms(&json(text), &ParamType::Integer(kind));
    assert!(holds("0", IntKind::I8));
    assert!(holds("127", IntKind::I8));
    assert!(!holds("128", IntKind::I8));
    assert!(holds("-128", IntKind::I8));
    assert!(!holds("-129", IntKind::I8));
    assert!(holds("32767", IntKind::I16));
    assert!(!holds("32768", IntKind::I16));
    assert!(holds("-32768", IntKind::I16));
    assert!(!holds("-32769", IntKind::I16));
    assert!(holds("2147483647", IntKind::I32));
    assert!(!holds("2147483648", IntKind::I32));
    assert!(holds("-2147483648", IntKind::I32));
    assert!(!holds("-2147483649", IntKind::I32));
    assert!(holds("9223372036854775807", IntKind::I64));
    assert!(!holds("9223372036854775808", IntKind::I64));
    assert!(holds("-9223372036854775808", IntKind::I64));
    assert!(holds("18446744073709551615", IntKind::I128));
    assert!(holds("-9223372036854775808", IntKind::I128));
    assert!(holds("255", IntKind::U8));
    assert!(!holds("256", IntKind::U8));
    assert!(!holds("-1", IntKind::U8));
    assert!(holds("65535", IntKind::U16));
    assert!(!holds("65536", IntKind::U16));
    assert!(holds("4294967295", IntKind::U32));
    assert!(!holds("4294967296", IntKind::U32));
    assert!(holds("18446744073709551615", IntKind::U64));
    assert!(!holds("-1", IntKind::U64));
    assert!(holds("18446744073709551615", IntKind::U128));
    assert!(!holds("-1", IntKind::U128));
    assert_eq!(holds("18446744073709551615", IntKind::Usize), usize::MAX as u64 == u64::MAX);
    assert_eq!(holds("9223372036854775807", IntKind::Isize), isize::MAX as i64 == i64::MAX);
    assert!(holds("-1", IntKind::Isize));
    assert!(!holds("-1", IntKind::Usize));
    for kind in [IntKind::I8, IntKind::I64, IntKind::I128, IntKind::U8, IntKind::U64, IntKind::Usize] {
        assert!(!holds("1.5", kind));
        assert!(!holds("1.0", kind));
        assert!(!holds("1e2", kind));
        assert!(!holds("\"1\"", kind));
        assert!(!holds("true", kind));
        assert!(!holds("null", kind));
        assert!(holds("1", kind));
    }
    assert!(value_conforms(&json("1.5"), &ParamType::Number));
    assert!(value_conforms(&json("1"), &ParamType::Number));
    assert!(value_conforms(&json("[1, 2]"), &list(ParamType::Integer(IntKind::U8))));
    assert!(!value_conforms(&json("[1, 256]"), &list(ParamType::Integer(IntKind::U8))));
    assert!(!value_conforms(&json("[1, 2.5]"), &list(ParamType::Integer(IntKind::I64))));
}

#[test]
fn an_integer_parameter_refuses_a_fraction_and_a_value_out_of_range() {
    let tool = claw_tool(
        "count",
        None,
        None,
        &vec![],
        vec![
            param("n", ParamType::Integer(IntKind::I32)),
            param("limit", optional(ParamType::Integer(IntKind::U8))),
        ],
        Box::new(Echo),
    );
    for args in [r#"{"n": 1.5}"#, r#"{"n": 2147483648}"#, r#"{"n": -2147483649}"#, r#"{"n": "1"}"#] {
        match tool.execute(json(args)) {
            Err(ClawError::ToolExecution(reason)) => {
                assert_eq!(reason, "Invalid parameter 'n': wrong type", "{}", args)
            }
            other => panic!("unexpected {:?} for {}", other.map(|r| r.to_json()), args),
        }
    }
    let found = extract_arguments(
        &vec![
            param("n", ParamType::Integer(IntKind::I32)),
            param("limit", optional(ParamType::Integer(IntKind::U8))),
        ],
        &json(r#"{"n": -7, "limit": 256}"#),
    )
    .unwrap();
    assert_eq!(number_of(&found[0]), Some(-7));
    assert!(found[1].is_none());
    let found = extract_arguments(
        &vec![param("limit", optional(ParamType::Integer(IntKind::U8)))],
        &json(r#"{"limit": 255}"#),
    )
    .unwrap();
    assert_eq!(number_of(&found[0]), Some(255));
}
