use rusty_claw::error::ClawError;
use rusty_claw::json::codec::{decode, encode};
use rusty_claw::json::JsonValue;
use rusty_claw::mcp_server::ToolResult;
use rusty_claw::tool_derive::signature::{
    expand_claw_tool, extract_option_inner, extract_vec_inner, handler_name_for, is_option_type,
    is_result_type, matches_type_name, param_type_of, result_ok_type, validate_function,
    ClawToolArgs, FnArgShape, FnParam, FnSignature, MetaShape, TypeShape,
};
use rusty_claw::tool_derive::{type_to_json_schema, IntKind, ParamType, ToolFunction};

fn plain(name: &str) -> TypeShape {
    TypeShape::Path { name: name.to_string(), argument: None }
}

fn of(name: &str, argument: TypeShape) -> TypeShape {
    TypeShape::Path { name: name.to_string(), argument: Some(Box::new(argument)) }
}

fn typed(name: &str, ty: TypeShape) -> FnArgShape {
    FnArgShape::Typed { name: Some(name.to_string()), ty }
}

fn pair(key: &str, value: &str) -> MetaShape {
    MetaShape::NameValue { ident: Some(key.to_string()), value: Some(value.to_string()) }
}

fn schema_text(ty: &TypeShape) -> String {
    encode(&type_to_json_schema(&param_type_of(ty)))
}

fn sorted(text: &str) -> String {
    encode(&decode(text).unwrap())
}

struct Echo;

impl ToolFunction for Echo {
    fn run(&self, arguments: Vec<Option<JsonValue>>) -> Result<ToolResult, ClawError> {
        let text = arguments[0].as_ref().and_then(|value| value.as_str()).unwrap_or("");
        Ok(ToolResult::text(text))
    }
}

fn signature(inputs: Vec<FnArgShape>) -> FnSignature {
    FnSignature {
        name: "echo_tool".to_string(),
        is_async: true,
        inputs,
        output: Some(plain("ToolResult")),
        doc_lines: vec![" Echoes a message. ".to_string(), "  Twice.".to_string()],
    }
}

#[test]
fn written_types_by_their_names() {
    assert!(matches_type_name(&plain("ToolResult"), "ToolResult"));
    assert!(!matches_type_name(&plain("ToolResults"), "ToolResult"));
    assert!(!matches_type_name(&TypeShape::Other, "ToolResult"));
    assert!(is_option_type(&plain("Option")));
    assert!(is_option_type(&of("Option", plain("i32"))));
    assert!(!is_option_type(&of("Vec", plain("Option"))));
    assert!(is_result_type(&of("Result", plain("ToolResult"))));
    assert!(!is_result_type(&plain("ToolResult")));
}

#[test]
fn the_type_inside_an_option_a_list_or_a_result() {
    let option = of("Option", plain("String"));
    assert!(matches_type_name(extract_option_inner(&option).unwrap(), "String"));
    assert!(extract_vec_inner(&option).is_none());
    assert!(result_ok_type(&option).is_none());
    let list = of("Vec", of("Option", plain("u8")));
    assert!(is_option_type(extract_vec_inner(&list).unwrap()));
    assert!(extract_option_inner(&list).is_none());
    let result = of("Result", plain("ToolResult"));
    assert!(matches_type_name(result_ok_type(&result).unwrap(), "ToolResult"));
    assert!(extract_option_inner(&plain("Option")).is_none());
    assert!(extract_vec_inner(&TypeShape::Other).is_none());
}

#[test]
fn schemas_of_written_types() {
    for name in ["String", "str"] {
        assert_eq!(schema_text(&plain(name)), r#"{"type":"string"}"#, "{}", name);
    }
    for name in [
        "i8", "i16", "i32", "i64", "i128", "isize", "u8", "u16", "u32", "u64", "u128", "usize",
        "f32", "f64",
    ] {
        assert_eq!(schema_text(&plain(name)), r#"{"type":"number"}"#, "{}", name);
    }
    assert_eq!(schema_text(&plain("bool")), r#"{"type":"boolean"}"#);
    for name in ["Custom", "string", "Bool", "I32", "", "Vec", "HashMap"] {
        assert_eq!(schema_text(&plain(name)), r#"{"type":"object"}"#, "{}", name);
    }
    assert_eq!(schema_text(&TypeShape::Other), r#"{"type":"object"}"#);
    assert_eq!(schema_text(&of("Option", plain("i32"))), r#"{"type":"number"}"#);
    assert_eq!(schema_text(&plain("Option")), r#"{"type":"object"}"#);
    assert_eq!(
        schema_text(&of("Vec", plain("String"))),
        sorted(r#"{"type":"array","items":{"type":"string"}}"#)
    );
    assert_eq!(
        schema_text(&of("Option", of("Vec", of("Vec", plain("bool"))))),
        sorted(r#"{"type":"array","items":{"type":"array","items":{"type":"boolean"}}}"#)
    );
    assert_eq!(schema_text(&of("Box", plain("String"))), r#"{"type":"object"}"#);
    assert!(matches!(param_type_of(&plain("i32")), ParamType::Integer(IntKind::I32)));
    assert!(matches!(param_type_of(&plain("usize")), ParamType::Integer(IntKind::Usize)));
    assert!(matches!(param_type_of(&plain("u128")), ParamType::Integer(IntKind::U128)));
    assert!(matches!(param_type_of(&plain("f32")), ParamType::Number));
    assert!(matches!(param_type_of(&plain("f64")), ParamType::Number));
    assert!(matches!(param_type_of(&plain("Option")), ParamType::Optional(_)));
    assert!(matches!(param_type_of(&of("Vec", plain("u8"))), ParamType::List(_)));
}

#[test]
fn parameters_of_a_signature() {
    let params = FnParam::from_fn_args(vec![
        typed("query", plain("String")),
        typed("limit", of("Option", plain("i32"))),
        typed("tags", of("Vec", plain("String"))),
    ])
    .unwrap();
    assert_eq!(params.len(), 3);
    assert_eq!(params[0].name, "query");
    assert!(!params[0].is_optional);
    assert_eq!(params[1].name, "limit");
    assert!(params[1].is_optional);
    assert!(matches_type_name(extract_option_inner(&params[1].ty).unwrap(), "i32"));
    assert_eq!(params[2].name, "tags");
    assert!(!params[2].is_optional);
    assert!(FnParam::from_fn_args(vec![]).unwrap().is_empty());
}

#[test]
fn parameters_that_are_refused() {
    assert_eq!(
        FnParam::from_fn_args(vec![FnArgShape::Receiver, typed("a", plain("u8"))]).unwrap_err(),
        "Self parameter not supported in #[claw_tool]"
    );
    assert_eq!(
        FnParam::from_fn_args(vec![
            typed("a", plain("u8")),
            FnArgShape::Typed { name: None, ty: plain("u8") },
            FnArgShape::Receiver,
        ])
        .unwrap_err(),
        "Only simple parameter names are supported"
    );
}

#[test]
fn arguments_of_the_attribute() {
    let args = ClawToolArgs::parse(vec![]).unwrap();
    assert_eq!(args.name, None);
    assert_eq!(args.description, None);
    let args =
        ClawToolArgs::parse(vec![pair("name", "greet"), pair("description", "Greet a user")])
            .unwrap();
    assert_eq!(args.name.as_deref(), Some("greet"));
    assert_eq!(args.description.as_deref(), Some("Greet a user"));
    let args = ClawToolArgs::parse(vec![
        pair("description", "first"),
        pair("name", "a"),
        pair("description", "second"),
        pair("name", "b"),
    ])
    .unwrap();
    assert_eq!(args.name.as_deref(), Some("b"));
    assert_eq!(args.description.as_deref(), Some("second"));
}

#[test]
fn arguments_of_the_attribute_that_are_refused() {
    let no_literal =
        |key: &str| MetaShape::NameValue { ident: Some(key.to_string()), value: None };
    assert_eq!(
        ClawToolArgs::parse(vec![pair("name", "a"), MetaShape::Other]).unwrap_err(),
        "Expected name = \"...\" format"
    );
    assert_eq!(
        ClawToolArgs::parse(vec![MetaShape::NameValue {
            ident: None,
            value: Some("x".to_string())
        }])
        .unwrap_err(),
        "Expected simple identifier"
    );
    assert_eq!(
        ClawToolArgs::parse(vec![no_literal("name")]).unwrap_err(),
        "Expected string literal for name"
    );
    assert_eq!(
        ClawToolArgs::parse(vec![no_literal("description")]).unwrap_err(),
        "Expected string literal for description"
    );
    assert_eq!(
        ClawToolArgs::parse(vec![pair("title", "x"), MetaShape::Other]).unwrap_err(),
        "Unknown attribute 'title'"
    );
    assert_eq!(
        ClawToolArgs::parse(vec![no_literal("other")]).unwrap_err(),
        "Unknown attribute 'other'"
    );
}

#[test]
fn functions_that_can_be_tools() {
    assert!(validate_function(true, &Some(plain("ToolResult"))).is_ok());
    assert!(validate_function(true, &Some(of("Result", plain("ToolResult")))).is_ok());
    assert_eq!(
        validate_function(false, &Some(plain("ToolResult"))).unwrap_err(),
        "#[claw_tool] requires an async function"
    );
    for output in [
        None,
        Some(plain("String")),
        Some(plain("Result")),
        Some(of("Result", plain("String"))),
        Some(of("Option", plain("ToolResult"))),
        Some(TypeShape::Other),
    ] {
        assert_eq!(
            validate_function(true, &output).unwrap_err(),
            "#[claw_tool] requires return type ToolResult or Result<ToolResult, E>"
        );
    }
    assert_eq!(
        validate_function(false, &None).unwrap_err(),
        "#[claw_tool] requires an async function"
    );
}

#[test]
fn a_tool_from_a_function() {
    let tool = expand_claw_tool(
        vec![pair("name", "echo"), pair("description", "Echo a message")],
        signature(vec![typed("message", plain("String"))]),
        Box::new(Echo),
    )
    .unwrap();
    assert_eq!(tool.name, "echo");
    assert_eq!(tool.description, "Echo a message");
    assert_eq!(
        encode(&tool.input_schema),
        sorted(
            r#"{"type":"object","properties":{"message":{"type":"string"}},"required":["message"]}"#
        )
    );
    let result = tool.execute(decode(r#"{"message":"hi"}"#).unwrap()).unwrap();
    assert_eq!(encode(&result.to_json()), sorted(r#"{"content":[{"type":"text","text":"hi"}],"is_error":null}"#));
    let missing = tool.execute(decode("{}").unwrap()).unwrap_err();
    assert_eq!(missing.to_string(), "Tool execution failed: Missing required parameter 'message'");
}

#[test]
fn a_tool_takes_name_and_description_from_the_function() {
    let tool = expand_claw_tool(
        vec![],
        signature(vec![
            typed("message", plain("String")),
            typed("times", of("Option", plain("u32"))),
        ]),
        Box::new(Echo),
    )
    .unwrap();
    assert_eq!(tool.name, "echo-tool");
    assert_eq!(tool.description, "Echoes a message. Twice.");
    assert_eq!(
        encode(&tool.input_schema),
        sorted(
            r#"{"type":"object","properties":{"message":{"type":"string"},"times":{"type":"number"}},"required":["message"]}"#
        )
    );
    let mut bare = signature(vec![]);
    bare.doc_lines = vec![];
    let tool = expand_claw_tool(vec![], bare, Box::new(Echo)).unwrap();
    assert_eq!(tool.description, "Tool: echo-tool");
}

#[test]
fn a_function_that_is_refused_gives_no_tool() {
    let mut not_async = signature(vec![FnArgShape::Receiver]);
    not_async.is_async = false;
    assert_eq!(
        expand_claw_tool(vec![MetaShape::Other], not_async, Box::new(Echo)).err().unwrap(),
        "#[claw_tool] requires an async function"
    );
    assert_eq!(
        expand_claw_tool(vec![MetaShape::Other], signature(vec![FnArgShape::Receiver]), Box::new(Echo))
            .err()
            .unwrap(),
        "Expected name = \"...\" format"
    );
    assert_eq!(
        expand_claw_tool(vec![], signature(vec![FnArgShape::Receiver]), Box::new(Echo))
            .err()
            .unwrap(),
        "Self parameter not supported in #[claw_tool]"
    );
}

#[test]
fn handler_names() {
    assert_eq!(handler_name_for("greet_user"), "GreetUserHandler");
    assert_eq!(handler_name_for("echo"), "EchoHandler");
    assert_eq!(handler_name_for(""), "Handler");
    assert_eq!(handler_name_for("a__b_"), "ABHandler");
    assert_eq!(handler_name_for("_x"), "XHandler");
    assert_eq!(handler_name_for("already_Upper"), "AlreadyUpperHandler");
    assert_eq!(handler_name_for("ßtraße_öl"), "SStraßeÖlHandler");
    assert_eq!(handler_name_for("get_2nd"), "Get2ndHandler");
}
