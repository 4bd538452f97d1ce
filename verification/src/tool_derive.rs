use crate::assoc::upsert;
use crate::control::messages::texts_json;
use crate::error::ClawError;
use crate::json::{optional_json, Json, JsonNum, JsonNumber, JsonObject, JsonValue};
use crate::mcp_server::{SdkMcpTool, ToolHandler, ToolResult};
use crate::text::{join, joined, split, split_at_char, trim, trimmed};
use vstd::prelude::*;

pub mod signature;

verus! {

/// An integer type of a parameter of a tool function.
#[derive(Debug, Clone, Copy, PartialEq, Eq, Structural)]
pub enum IntKind {
    I8,
    I16,
    I32,
    I64,
    I128,
    Isize,
    U8,
    U16,
    U32,
    U64,
    U128,
    Usize,
}

impl IntKind {
    /// The least value of this type.
    pub open spec fn least(self) -> int {
        match self {
            IntKind::I8 => i8::MIN as int,
            IntKind::I16 => i16::MIN as int,
            IntKind::I32 => i32::MIN as int,
            IntKind::I64 => i64::MIN as int,
            IntKind::I128 => i128::MIN as int,
            IntKind::Isize => isize::MIN as int,
            _ => 0,
        }
    }

    /// The greatest value of this type.
    pub open spec fn greatest(self) -> int {
        match self {
            IntKind::I8 => i8::MAX as int,
            IntKind::I16 => i16::MAX as int,
            IntKind::I32 => i32::MAX as int,
            IntKind::I64 => i64::MAX as int,
            IntKind::I128 => i128::MAX as int,
            IntKind::Isize => isize::MAX as int,
            IntKind::U8 => u8::MAX as int,
            IntKind::U16 => u16::MAX as int,
            IntKind::U32 => u32::MAX as int,
            IntKind::U64 => u64::MAX as int,
            IntKind::U128 => u128::MAX as int,
            IntKind::Usize => usize::MAX as int,
        }
    }

    /// True for the integers that this type holds.
    pub open spec fn holds(self, n: int) -> bool {
        self.least() <= n <= self.greatest()
    }

    /// Tells whether this type holds `n`.
    pub fn holds_unsigned(self, n: u64) -> (held: bool)
        ensures
            held == self.holds(n as int),
    {
        match self {
            IntKind::I8 => n <= 0x7f,
            IntKind::I16 => n <= 0x7fff,
            IntKind::I32 => n <= 0x7fff_ffff,
            IntKind::I64 => n <= 0x7fff_ffff_ffff_ffff,
            IntKind::I128 => true,
            IntKind::Isize => n <= isize::MAX as u64,
            IntKind::U8 => n <= 0xff,
            IntKind::U16 => n <= 0xffff,
            IntKind::U32 => n <= 0xffff_ffff,
            IntKind::U64 => true,
            IntKind::U128 => true,
            IntKind::Usize => n <= usize::MAX as u64,
        }
    }

    /// Tells whether this type holds `n`.
    pub fn holds_signed(self, n: i64) -> (held: bool)
        ensures
            held == self.holds(n as int),
    {
        if n >= 0 {
            self.holds_unsigned(n as u64)
        } else {
            match self {
                IntKind::I8 => n >= -0x80,
                IntKind::I16 => n >= -0x8000,
                IntKind::I32 => n >= -0x8000_0000,
                IntKind::I64 => true,
                IntKind::I128 => true,
                IntKind::Isize => n >= isize::MIN as i64,
                _ => false,
            }
        }
    }
}

/// The type of a parameter of a tool function, as far as its schema and its
/// values go.
#[derive(Debug)]
pub enum ParamType {
    /// A string.
    Text,
    /// An integer of the given type.
    Integer(IntKind),
    /// A floating-point number: any number is one.
    Number,
    /// A boolean.
    Boolean,
    /// An optional value.
    Optional(Box<ParamType>),
    /// A list of values.
    List(Box<ParamType>),
    /// Any other type.
    Other,
}

impl Clone for ParamType {
    fn clone(&self) -> (copy: ParamType)
        ensures
            copy == *self,
        decreases self,
    {
        match self {
            ParamType::Text => ParamType::Text,
            ParamType::Integer(kind) => ParamType::Integer(*kind),
            ParamType::Number => ParamType::Number,
            ParamType::Boolean => ParamType::Boolean,
            ParamType::Optional(inner) => ParamType::Optional(Box::new((&**inner).clone())),
            ParamType::List(inner) => ParamType::List(Box::new((&**inner).clone())),
            ParamType::Other => ParamType::Other,
        }
    }
}

/// A parameter of a tool function.
#[derive(Debug)]
pub struct ToolParam {
    /// Name of the parameter.
    pub name: String,
    /// Type of the parameter.
    pub ty: ParamType,
}

impl Clone for ToolParam {
    fn clone(&self) -> (copy: ToolParam)
        ensures
            copy.name@ == self.name@,
            copy.ty == self.ty,
    {
        ToolParam { name: self.name.clone(), ty: self.ty.clone() }
    }
}

/// A schema that names a type and nothing else.
pub open spec fn simple_schema(name: Seq<char>) -> Json {
    Json::Object(seq![("type"@, Json::Text(name))])
}

/// The JSON schema of a type: strings, numbers and booleans by their names,
/// integers as numbers;
/// an optional value as the value itself; a list as an array of its items;
/// anything else as an object.
pub open spec fn schema_of(ty: ParamType) -> Json
    decreases ty,
{
    match ty {
        ParamType::Text => simple_schema("string"@),
        ParamType::Integer(_) => simple_schema("number"@),
        ParamType::Number => simple_schema("number"@),
        ParamType::Boolean => simple_schema("boolean"@),
        ParamType::Optional(inner) => schema_of(*inner),
        ParamType::List(inner) => Json::Object(
            seq![("type"@, Json::Text("array"@)), ("items"@, schema_of(*inner))],
        ),
        ParamType::Other => simple_schema("object"@),
    }
}

/// The schemas of the parameters by name, a later parameter of a name
/// replacing an earlier one.
pub open spec fn properties_of(params: Seq<ToolParam>) -> Seq<(Seq<char>, Json)>
    decreases params.len(),
{
    if params.len() == 0 {
        Seq::empty()
    } else {
        upsert(properties_of(params.drop_last()), params.last().name@, schema_of(params.last().ty))
    }
}

/// The names of the parameters that are not optional, in their order.
pub open spec fn required_of(params: Seq<ToolParam>) -> Seq<Seq<char>>
    decreases params.len(),
{
    if params.len() == 0 {
        Seq::empty()
    } else if params.last().ty is Optional {
        required_of(params.drop_last())
    } else {
        required_of(params.drop_last()).push(params.last().name@)
    }
}

/// The JSON schema of the input of a tool function: an object with the
/// schemas of the parameters, of which those that are not optional are
/// required.
pub open spec fn input_schema_of(params: Seq<ToolParam>) -> Json {
    Json::Object(
        seq![
            ("type"@, Json::Text("object"@)),
            ("properties"@, Json::Object(properties_of(params))),
            ("required"@, texts_json(required_of(params))),
        ],
    )
}

/// Builds the JSON schema of a type.
pub fn type_to_json_schema(ty: &ParamType) -> (schema: JsonValue)
    ensures
        schema@ == schema_of(*ty),
    decreases ty,
{
    match ty {
        ParamType::Text => JsonValue::object1("type", JsonValue::text("string")),
        ParamType::Integer(_) => JsonValue::object1("type", JsonValue::text("number")),
        ParamType::Number => JsonValue::object1("type", JsonValue::text("number")),
        ParamType::Boolean => JsonValue::object1("type", JsonValue::text("boolean")),
        ParamType::Optional(inner) => type_to_json_schema(inner),
        ParamType::List(inner) => {
            proof {
                reveal_strlit("type");
                reveal_strlit("items");
                assert("type"@.len() != "items"@.len());
            }
            JsonValue::object2("type", JsonValue::text("array"), "items", type_to_json_schema(inner))
        },
        ParamType::Other => JsonValue::object1("type", JsonValue::text("object")),
    }
}

/// Builds the JSON schema of the input of a tool function.
pub fn generate_input_schema(params: &Vec<ToolParam>) -> (schema: JsonValue)
    ensures
        schema@ == input_schema_of(params@),
{
    let mut properties = JsonObject::new();
    let mut required: Vec<String> = Vec::new();
    let mut i: usize = 0;
    while i < params.len()
        invariant
            i <= params@.len(),
            properties@ == properties_of(params@.take(i as int)),
            required.deep_view() == required_of(params@.take(i as int)),
        decreases params@.len() - i,
    {
        proof {
            assert(params@.take(i + 1).drop_last() =~= params@.take(i as int));
        }
        properties.insert(params[i].name.clone(), type_to_json_schema(&params[i].ty));
        match &params[i].ty {
            ParamType::Optional(_) => {},
            _ => {
                let ghost before = required.deep_view();
                required.push(params[i].name.clone());
                assert(required.deep_view() =~= before.push(params@[i as int].name@));
            },
        }
        i += 1;
    }
    proof {
        assert(params@.take(params@.len() as int) =~= params@);
        reveal_strlit("type");
        reveal_strlit("properties");
        reveal_strlit("required");
        assert("type"@.len() != "properties"@.len());
        assert("type"@.len() != "required"@.len());
        assert("properties"@.len() != "required"@.len());
    }
    JsonValue::object3(
        "type",
        JsonValue::text("object"),
        "properties",
        JsonValue::Object(properties),
        "required",
        JsonValue::text_array(&required),
    )
}

/// The name of the tool for a function: the name of the function with each
/// underscore turned into a hyphen.
pub open spec fn tool_name_of(fn_name: Seq<char>) -> Seq<char> {
    joined(split(fn_name, '_'), "-"@)
}

/// Derives the name of the tool from the name of its function.
pub fn tool_name_for(fn_name: &str) -> (name: String)
    ensures
        name@ == tool_name_of(fn_name@),
{
    let pieces = split_at_char(fn_name, '_');
    join(&pieces, "-")
}

/// The text of a doc comment: its lines without the white space at their
/// ends, joined by single spaces.
pub open spec fn doc_text(lines: Seq<Seq<char>>) -> Seq<char>
    decreases lines.len(),
{
    if lines.len() == 0 {
        Seq::empty()
    } else {
        let before = doc_text(lines.drop_last());
        if before.len() == 0 {
            trimmed(lines.last())
        } else {
            before + " "@ + trimmed(lines.last())
        }
    }
}

/// Gathers the text of a doc comment from its lines; an empty text counts as
/// no comment.
pub fn extract_doc_comment(lines: &Vec<String>) -> (doc: Option<String>)
    ensures
        match doc {
            Some(text) => text@ == doc_text(lines.deep_view()) && text@.len() > 0,
            None => doc_text(lines.deep_view()).len() == 0,
        },
{
    let mut doc = String::new();
    let mut i: usize = 0;
    proof {
        assert(lines.deep_view().take(0) =~= Seq::<Seq<char>>::empty());
    }
    while i < lines.len()
        invariant
            i <= lines@.len(),
            doc@ == doc_text(lines.deep_view().take(i as int)),
        decreases lines@.len() - i,
    {
        proof {
            let after = lines.deep_view().take(i + 1);
            assert(after.drop_last() =~= lines.deep_view().take(i as int));
            assert(after.last() == lines@[i as int]@);
        }
        if doc.as_str().unicode_len() > 0 {
            doc.append(" ");
        }
        doc.append(trim(lines[i].as_str()));
        i += 1;
    }
    proof {
        assert(lines.deep_view().take(lines@.len() as int) =~= lines.deep_view());
    }
    if doc.as_str().unicode_len() == 0 {
        None
    } else {
        Some(doc)
    }
}

/// The description of a tool: the one that was given; else the doc comment
/// of the function; else the word `Tool` with the name of the tool.
pub open spec fn description_of(
    given: Option<Seq<char>>,
    doc_lines: Seq<Seq<char>>,
    tool_name: Seq<char>,
) -> Seq<char> {
    match given {
        Some(text) => text,
        None => if doc_text(doc_lines).len() > 0 {
            doc_text(doc_lines)
        } else {
            "Tool: "@ + tool_name
        },
    }
}

/// True when a value has the type of a parameter of a tool function. An
/// integer parameter takes the integers of its type, and no number with a
/// fraction; a floating-point parameter takes every number.
pub open spec fn conforms(value: Json, ty: ParamType) -> bool
    decreases ty,
{
    match ty {
        ParamType::Text => value is Text,
        ParamType::Integer(kind) => value matches Json::Number(JsonNum::Integer(n)) && kind.holds(
            n,
        ),
        ParamType::Number => value is Number,
        ParamType::Boolean => value is Bool,
        ParamType::Optional(inner) => value is Null || conforms(value, *inner),
        ParamType::List(inner) => value is Array && forall|i: int|
            0 <= i < value->Array_0.len() ==> conforms(#[trigger] value->Array_0[i], *inner),
        ParamType::Other => true,
    }
}

/// Tells whether a value has the type of a parameter.
#[verifier::loop_isolation(false)]
pub fn value_conforms(value: &JsonValue, ty: &ParamType) -> (fits: bool)
    ensures
        fits == conforms(value@, *ty),
    decreases ty,
{
    match ty {
        ParamType::Text => value.as_str().is_some(),
        ParamType::Integer(kind) => match value {
            JsonValue::Number(JsonNumber::Unsigned(n)) => kind.holds_unsigned(*n),
            JsonValue::Number(JsonNumber::Signed(n)) => kind.holds_signed(*n),
            _ => false,
        },
        ParamType::Number => match value {
            JsonValue::Number(_) => true,
            _ => false,
        },
        ParamType::Boolean => value.as_bool().is_some(),
        ParamType::Optional(inner) => value.is_null() || value_conforms(value, inner),
        ParamType::List(inner) => {
            let items = match value.as_array() {
                Some(items) => items,
                None => {
                    return false;
                },
            };
            let mut i: usize = 0;
            while i < items.len()
                invariant
                    value@ is Array,
                    value@->Array_0.len() == items@.len(),
                    forall|k: int|
                        0 <= k < items@.len() ==> (#[trigger] items@[k])@ == value@->Array_0[k],
                    i <= items@.len(),
                    forall|k: int|
                        0 <= k < i ==> conforms(#[trigger] value@->Array_0[k], **inner),
                    *ty == ParamType::List(*inner),
                decreases items@.len() - i,
            {
                if !value_conforms(&items[i], inner) {
                    assert(!conforms(value@->Array_0[i as int], **inner));
                    return false;
                }
                i += 1;
            }
            true
        },
        ParamType::Other => true,
    }
}

/// The value that a tool function gets for a parameter: the member of the
/// arguments with its name. An optional parameter gets nothing where the
/// member is missing, is `null` or has another type.
pub open spec fn argument_of(param: ToolParam, args: Json) -> Option<Json> {
    match param.ty {
        ParamType::Optional(inner) => match args.field(param.name@) {
            Some(value) => if !(value is Null) && conforms(value, *inner) {
                Some(value)
            } else {
                None
            },
            None => None,
        },
        _ => args.field(param.name@),
    }
}

/// Why a parameter refuses the arguments: a parameter that is not optional
/// refuses when its member is missing or has another type.
pub open spec fn refusal_of(param: ToolParam, args: Json) -> Option<Seq<char>> {
    if param.ty is Optional {
        None
    } else {
        match args.field(param.name@) {
            None => Some("Missing required parameter '"@ + param.name@ + "'"@),
            Some(value) => if conforms(value, param.ty) {
                None
            } else {
                Some("Invalid parameter '"@ + param.name@ + "': wrong type"@)
            },
        }
    }
}

/// The refusal of the first parameter that refuses the arguments.
pub open spec fn first_refusal(params: Seq<ToolParam>, args: Json) -> Option<Seq<char>>
    decreases params.len(),
{
    if params.len() == 0 {
        None
    } else {
        match refusal_of(params[0], args) {
            Some(message) => Some(message),
            None => first_refusal(params.drop_first(), args),
        }
    }
}

/// Takes the value of each parameter out of the arguments of a call. The
/// first parameter that is not optional and whose member is missing or has
/// another type makes the call fail.
pub fn extract_arguments(params: &Vec<ToolParam>, args: &JsonValue) -> (values: Result<
    Vec<Option<JsonValue>>,
    ClawError,
>)
    ensures
        match first_refusal(params@, args@) {
            Some(message) => values matches Err(ClawError::ToolExecution(reason)) && reason@
                == message,
            None => values matches Ok(found) && found@.len() == params@.len() && forall|i: int|
                0 <= i < params@.len() ==> optional_json(#[trigger] found@[i]) == argument_of(
                    params@[i],
                    args@,
                ),
        },
{
    let mut found: Vec<Option<JsonValue>> = Vec::new();
    let mut i: usize = 0;
    assert(params@.skip(0) =~= params@);
    while i < params.len()
        invariant
            i <= params@.len(),
            found@.len() == i,
            first_refusal(params@, args@) == first_refusal(params@.skip(i as int), args@),
            forall|k: int|
                0 <= k < i ==> optional_json(#[trigger] found@[k]) == argument_of(params@[k], args@),
        decreases params@.len() - i,
    {
        proof {
            assert(params@.skip(i as int).drop_first() =~= params@.skip(i + 1));
            assert(params@.skip(i as int)[0] == params@[i as int]);
        }
        let param = &params[i];
        let member = args.get(param.name.as_str());
        match &param.ty {
            ParamType::Optional(inner) => {
                let value = match member {
                    Some(value) => if !value.is_null() && value_conforms(value, inner) {
                        Some(value.clone())
                    } else {
                        None
                    },
                    None => None,
                };
                found.push(value);
            },
            _ => {
                match member {
                    None => {
                        return Err(
                            ClawError::ToolExecution(
                                String::from_str("Missing required parameter '").concat(
                                    param.name.as_str(),
                                ).concat("'"),
                            ),
                        );
                    },
                    Some(value) => {
                        if !value_conforms(value, &param.ty) {
                            return Err(
                                ClawError::ToolExecution(
                                    String::from_str("Invalid parameter '").concat(
                                        param.name.as_str(),
                                    ).concat("': wrong type"),
                                ),
                            );
                        }
                        found.push(Some(value.clone()));
                    },
                }
            },
        }
        i += 1;
    }
    Ok(found)
}

/// The body of a tool function: it gets the values of its parameters, in
/// their order, and returns the result of the tool.
pub trait ToolFunction: Send + Sync {
    /// Runs the tool on the values of its parameters.
    fn run(&self, arguments: Vec<Option<JsonValue>>) -> Result<ToolResult, ClawError>;
}

/// The handler of a tool that was made from a function: it takes the values
/// of the parameters out of the arguments and runs the function on them.
pub struct GeneratedHandler {
    params: Vec<ToolParam>,
    function: Box<dyn ToolFunction>,
}

impl GeneratedHandler {
    /// The parameters of the function.
    pub closed spec fn parameters(self) -> Seq<ToolParam> {
        self.params@
    }
}

impl ToolHandler for GeneratedHandler {
    fn call(&self, args: JsonValue) -> (outcome: Result<ToolResult, ClawError>)
        ensures
            match first_refusal(self.parameters(), args@) {
                Some(message) => outcome matches Err(ClawError::ToolExecution(reason)) && reason@
                    == message,
                None => true,
            },
    {
        match extract_arguments(&self.params, &args) {
            Ok(arguments) => self.function.run(arguments),
            Err(error) => Err(error),
        }
    }
}

/// The characters of a text that may be missing.
pub open spec fn given_text(value: Option<&str>) -> Option<Seq<char>> {
    match value {
        Some(text) => Some(text@),
        None => None,
    }
}

/// Makes a tool from a function: the name of the tool is the one given or
/// comes from the name of the function; its description is the one given, or
/// the doc comment of the function, or a default; its input schema comes from
/// the parameters.
pub fn claw_tool(
    fn_name: &str,
    name: Option<&str>,
    description: Option<&str>,
    doc_lines: &Vec<String>,
    params: Vec<ToolParam>,
    function: Box<dyn ToolFunction>,
) -> (tool: SdkMcpTool)
    ensures
        tool.tool_name() == match name {
            Some(name) => name@,
            None => tool_name_of(fn_name@),
        },
        tool.definition() == Json::Object(
            seq![
                ("name"@, Json::Text(tool.tool_name())),
                (
                    "description"@,
                    Json::Text(
                        description_of(
                            given_text(description),
                            doc_lines.deep_view(),
                            tool.tool_name(),
                        ),
                    ),
                ),
                ("inputSchema"@, input_schema_of(params@)),
            ],
        ),
{
    let tool_name = match name {
        Some(name) => String::from_str(name),
        None => tool_name_for(fn_name),
    };
    let text = match description {
        Some(text) => String::from_str(text),
        None => match extract_doc_comment(doc_lines) {
            Some(doc) => doc,
            None => String::from_str("Tool: ").concat(tool_name.as_str()),
        },
    };
    let schema = generate_input_schema(&params);
    let handler = GeneratedHandler { params, function };
    SdkMcpTool::new(tool_name.as_str(), text.as_str(), schema, Box::new(handler))
}

} // verus!
