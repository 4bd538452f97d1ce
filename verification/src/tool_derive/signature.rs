use crate::json::Json;
use crate::mcp_server::SdkMcpTool;
use crate::text::{split, split_at_char, str_eq, text_of};
use crate::tool_derive::{
    claw_tool, description_of, input_schema_of, tool_name_of, IntKind, ParamType, ToolFunction,
    ToolParam,
};
use vstd::prelude::*;

verus! {

/// A type as the signature of a tool function writes it: a path, of which
/// the name of the last segment and the first type argument of that segment
/// count, or a type of any other form.
#[derive(Debug)]
pub enum TypeShape {
    /// A path such as `String`, `Option<i32>` or `std::vec::Vec<String>`.
    Path {
        /// The name of the last segment.
        name: String,
        /// The first type argument of the last segment.
        argument: Option<Box<TypeShape>>,
    },
    /// A reference, a tuple, or any other type that is no path.
    Other,
}

/// True for a path whose last segment has the name `name`.
pub open spec fn named(ty: TypeShape, name: Seq<char>) -> bool {
    ty matches TypeShape::Path { name: found, .. } && found@ == name
}

/// The first type argument of a path whose last segment has the name
/// `name`.
pub open spec fn inner_of(ty: TypeShape, name: Seq<char>) -> Option<TypeShape> {
    match ty {
        TypeShape::Path { name: found, argument: Some(inner) } => if found@ == name {
            Some(*inner)
        } else {
            None
        },
        _ => None,
    }
}

/// The integer type that a name stands for.
pub open spec fn int_kind_named(name: Seq<char>) -> Option<IntKind> {
    if name == "i8"@ {
        Some(IntKind::I8)
    } else if name == "i16"@ {
        Some(IntKind::I16)
    } else if name == "i32"@ {
        Some(IntKind::I32)
    } else if name == "i64"@ {
        Some(IntKind::I64)
    } else if name == "i128"@ {
        Some(IntKind::I128)
    } else if name == "isize"@ {
        Some(IntKind::Isize)
    } else if name == "u8"@ {
        Some(IntKind::U8)
    } else if name == "u16"@ {
        Some(IntKind::U16)
    } else if name == "u32"@ {
        Some(IntKind::U32)
    } else if name == "u64"@ {
        Some(IntKind::U64)
    } else if name == "u128"@ {
        Some(IntKind::U128)
    } else if name == "usize"@ {
        Some(IntKind::Usize)
    } else {
        None
    }
}

/// What a type without a type argument is, by its name: `String` and `str`
/// are strings, the integer types are integers of their kind, `f32` and `f64`
/// are floating-point numbers, `bool` is a boolean, and any other name stands
/// for an object.
pub open spec fn basic_type(name: Seq<char>) -> ParamType {
    if name == "String"@ || name == "str"@ {
        ParamType::Text
    } else if int_kind_named(name) is Some {
        ParamType::Integer(int_kind_named(name)->0)
    } else if name == "f32"@ || name == "f64"@ {
        ParamType::Number
    } else if name == "bool"@ {
        ParamType::Boolean
    } else {
        ParamType::Other
    }
}

/// What a written type is for the schema of a tool: `Option` makes its
/// argument optional, `Vec` with an argument is a list of that, any other path
/// goes by its name, and a type that is no path stands for an object.
pub open spec fn param_type(ty: TypeShape) -> ParamType
    decreases ty,
{
    match ty {
        TypeShape::Path { name, argument } => if name@ == "Option"@ {
            match argument {
                Some(inner) => ParamType::Optional(Box::new(param_type(*inner))),
                None => ParamType::Optional(Box::new(ParamType::Other)),
            }
        } else if name@ == "Vec"@ && argument is Some {
            ParamType::List(Box::new(param_type(*argument->0)))
        } else {
            basic_type(name@)
        },
        TypeShape::Other => ParamType::Other,
    }
}

/// Tells whether a type is a path whose last segment has the name `name`.
pub fn matches_type_name(ty: &TypeShape, name: &str) -> (same: bool)
    ensures
        same == named(*ty, name@),
{
    match ty {
        TypeShape::Path { name: found, .. } => str_eq(found.as_str(), name),
        TypeShape::Other => false,
    }
}

/// Tells whether a type is written as `Option`.
pub fn is_option_type(ty: &TypeShape) -> (optional: bool)
    ensures
        optional == named(*ty, "Option"@),
{
    matches_type_name(ty, "Option")
}

/// Tells whether a type is written as `Result`.
pub fn is_result_type(ty: &TypeShape) -> (result: bool)
    ensures
        result == named(*ty, "Result"@),
{
    matches_type_name(ty, "Result")
}

fn inner_type<'a>(ty: &'a TypeShape, name: &str) -> (inner: Option<&'a TypeShape>)
    ensures
        inner == match inner_of(*ty, name@) {
            Some(found) => Some(&found),
            None => None,
        },
{
    match ty {
        TypeShape::Path { name: found, argument: Some(inner) } => if str_eq(
            found.as_str(),
            name,
        ) {
            Some(&**inner)
        } else {
            None
        },
        _ => None,
    }
}

/// The type inside an `Option`.
pub fn extract_option_inner(ty: &TypeShape) -> (inner: Option<&TypeShape>)
    ensures
        inner == match inner_of(*ty, "Option"@) {
            Some(found) => Some(&found),
            None => None,
        },
{
    inner_type(ty, "Option")
}

/// The type of the items of a `Vec`.
pub fn extract_vec_inner(ty: &TypeShape) -> (inner: Option<&TypeShape>)
    ensures
        inner == match inner_of(*ty, "Vec"@) {
            Some(found) => Some(&found),
            None => None,
        },
{
    inner_type(ty, "Vec")
}

/// The type of the success of a `Result`.
pub fn result_ok_type(ty: &TypeShape) -> (inner: Option<&TypeShape>)
    ensures
        inner == match inner_of(*ty, "Result"@) {
            Some(found) => Some(&found),
            None => None,
        },
{
    inner_type(ty, "Result")
}

fn int_kind_of(name: &str) -> (kind: Option<IntKind>)
    ensures
        kind == int_kind_named(name@),
{
    if str_eq(name, "i8") {
        Some(IntKind::I8)
    } else if str_eq(name, "i16") {
        Some(IntKind::I16)
    } else if str_eq(name, "i32") {
        Some(IntKind::I32)
    } else if str_eq(name, "i64") {
        Some(IntKind::I64)
    } else if str_eq(name, "i128") {
        Some(IntKind::I128)
    } else if str_eq(name, "isize") {
        Some(IntKind::Isize)
    } else if str_eq(name, "u8") {
        Some(IntKind::U8)
    } else if str_eq(name, "u16") {
        Some(IntKind::U16)
    } else if str_eq(name, "u32") {
        Some(IntKind::U32)
    } else if str_eq(name, "u64") {
        Some(IntKind::U64)
    } else if str_eq(name, "u128") {
        Some(IntKind::U128)
    } else if str_eq(name, "usize") {
        Some(IntKind::Usize)
    } else {
        None
    }
}

fn basic_type_of(name: &str) -> (ty: ParamType)
    ensures
        ty == basic_type(name@),
{
    if str_eq(name, "String") || str_eq(name, "str") {
        return ParamType::Text;
    }
    match int_kind_of(name) {
        Some(kind) => ParamType::Integer(kind),
        None => if str_eq(name, "f32") || str_eq(name, "f64") {
            ParamType::Number
        } else if str_eq(name, "bool") {
            ParamType::Boolean
        } else {
            ParamType::Other
        },
    }
}

/// Reads a written type for the schema of a tool.
pub fn param_type_of(ty: &TypeShape) -> (kind: ParamType)
    ensures
        kind == param_type(*ty),
    decreases ty,
{
    match ty {
        TypeShape::Path { name, argument } => {
            if str_eq(name.as_str(), "Option") {
                match argument {
                    Some(inner) => ParamType::Optional(Box::new(param_type_of(inner))),
                    None => ParamType::Optional(Box::new(ParamType::Other)),
                }
            } else {
                match argument {
                    Some(inner) => if str_eq(name.as_str(), "Vec") {
                        ParamType::List(Box::new(param_type_of(inner)))
                    } else {
                        basic_type_of(name.as_str())
                    },
                    None => basic_type_of(name.as_str()),
                }
            }
        },
        TypeShape::Other => ParamType::Other,
    }
}

/// A parameter in the signature of a tool function.
#[derive(Debug)]
pub enum FnArgShape {
    /// The receiver `self`.
    Receiver,
    /// A parameter with a pattern and a type.
    Typed {
        /// The name of the parameter, where its pattern is a plain name.
        name: Option<String>,
        /// The type of the parameter.
        ty: TypeShape,
    },
}

/// A parameter of a tool function: its name, its type as written, and
/// whether the type is written as `Option`.
#[derive(Debug)]
pub struct FnParam {
    pub name: String,
    pub ty: TypeShape,
    pub is_optional: bool,
}

/// Why a parameter cannot be a parameter of a tool: it is the receiver, or
/// its pattern is no plain name.
pub open spec fn arg_refusal(arg: FnArgShape) -> Option<Seq<char>> {
    match arg {
        FnArgShape::Receiver => Some("Self parameter not supported in #[claw_tool]"@),
        FnArgShape::Typed { name: None, .. } => Some("Only simple parameter names are supported"@),
        FnArgShape::Typed { name: Some(_), .. } => None,
    }
}

/// The refusal of the first parameter that cannot be a parameter of a tool.
pub open spec fn first_arg_refusal(inputs: Seq<FnArgShape>) -> Option<Seq<char>>
    decreases inputs.len(),
{
    if inputs.len() == 0 {
        None
    } else {
        match first_arg_refusal(inputs.drop_last()) {
            Some(message) => Some(message),
            None => arg_refusal(inputs.last()),
        }
    }
}

/// The parameter of a tool that a parameter of the signature stands for.
pub open spec fn param_of(arg: FnArgShape) -> FnParam {
    FnParam {
        name: arg->Typed_name->0,
        ty: arg->Typed_ty,
        is_optional: named(arg->Typed_ty, "Option"@),
    }
}

impl FnParam {
    /// Reads the parameters of a tool from the signature of its function,
    /// first to last. The first parameter that is the receiver, or whose
    /// pattern is no plain name, is refused.
    pub fn from_fn_args(inputs: Vec<FnArgShape>) -> (params: Result<Vec<FnParam>, String>)
        ensures
            match first_arg_refusal(inputs@) {
                Some(message) => params matches Err(text) && text@ == message,
                None => params matches Ok(found) && found@.len() == inputs@.len() && forall|
                    i: int,
                |
                    0 <= i < inputs@.len() ==> #[trigger] found@[i] == param_of(inputs@[i]),
            },
    {
        let mut params: Vec<FnParam> = Vec::new();
        let ghost all = inputs@;
        proof {
            assert(all.take(0) =~= Seq::<FnArgShape>::empty());
        }
        for input in it: inputs
            invariant
                it.seq() == all,
                first_arg_refusal(all.take(it.index() as int)) is None,
                params@.len() == it.index(),
                forall|i: int| 0 <= i < params@.len() ==> #[trigger] params@[i] == param_of(all[i]),
        {
            proof {
                let after = all.take(it.index() + 1);
                assert(after.drop_last() =~= all.take(it.index() as int));
                assert(after.last() == input);
            }
            match input {
                FnArgShape::Typed { name: Some(name), ty } => {
                    let is_optional = is_option_type(&ty);
                    params.push(FnParam { name, ty, is_optional });
                },
                FnArgShape::Typed { name: None, .. } => {
                    proof {
                        lemma_refusal_stays(all, it.index() + 1);
                    }
                    return Err(String::from_str("Only simple parameter names are supported"));
                },
                FnArgShape::Receiver => {
                    proof {
                        lemma_refusal_stays(all, it.index() + 1);
                    }
                    return Err(String::from_str("Self parameter not supported in #[claw_tool]"));
                },
            }
        }
        proof {
            assert(all.take(all.len() as int) =~= all);
        }
        Ok(params)
    }
}

proof fn lemma_refusal_stays(inputs: Seq<FnArgShape>, n: int)
    requires
        0 <= n <= inputs.len(),
        first_arg_refusal(inputs.take(n)) is Some,
    ensures
        first_arg_refusal(inputs) == first_arg_refusal(inputs.take(n)),
    decreases inputs.len() - n,
{
    if n < inputs.len() {
        assert(inputs.take(n + 1).drop_last() =~= inputs.take(n));
        lemma_refusal_stays(inputs, n + 1);
    } else {
        assert(inputs.take(n) =~= inputs);
    }
}

/// One argument of the attribute that marks a tool function.
#[derive(Debug)]
pub enum MetaShape {
    /// An argument of the form `key = value`.
    NameValue {
        /// The key, where it is a plain name.
        ident: Option<String>,
        /// The value, where it is a string literal.
        value: Option<String>,
    },
    /// An argument of any other form.
    Other,
}

/// The arguments of the attribute that marks a tool function.
#[derive(Debug)]
pub struct ClawToolArgs {
    /// The name of the tool, where the attribute gives one.
    pub name: Option<String>,
    /// The description of the tool, where the attribute gives one.
    pub description: Option<String>,
}

/// The arguments of the attribute as mathematical values.
pub struct ArgsModel {
    pub name: Option<Seq<char>>,
    pub description: Option<Seq<char>>,
}

impl View for ClawToolArgs {
    type V = ArgsModel;

    open spec fn view(&self) -> ArgsModel {
        ArgsModel { name: text_of(self.name), description: text_of(self.description) }
    }
}

/// What one argument of the attribute does to the arguments read so far:
/// `name` and `description` take a string literal; any other key, a key that
/// is no plain name, a value that is no string literal, and an argument of
/// another form are refused.
pub open spec fn with_meta(args: ArgsModel, meta: MetaShape) -> Result<ArgsModel, Seq<char>> {
    match meta {
        MetaShape::Other => Err("Expected name = \"...\" format"@),
        MetaShape::NameValue { ident: None, .. } => Err("Expected simple identifier"@),
        MetaShape::NameValue { ident: Some(key), value } => if key@ == "name"@ {
            match value {
                Some(text) => Ok(ArgsModel { name: Some(text@), ..args }),
                None => Err("Expected string literal for name"@),
            }
        } else if key@ == "description"@ {
            match value {
                Some(text) => Ok(ArgsModel { description: Some(text@), ..args }),
                None => Err("Expected string literal for description"@),
            }
        } else {
            Err("Unknown attribute '"@ + key@ + "'"@)
        },
    }
}

/// The arguments of the attribute after its arguments were read, first to
/// last; the first argument that is refused ends the reading.
pub open spec fn parsed_args(metas: Seq<MetaShape>) -> Result<ArgsModel, Seq<char>>
    decreases metas.len(),
{
    if metas.len() == 0 {
        Ok(ArgsModel { name: None, description: None })
    } else {
        match parsed_args(metas.drop_last()) {
            Ok(args) => with_meta(args, metas.last()),
            Err(message) => Err(message),
        }
    }
}

proof fn lemma_parse_error_stays(metas: Seq<MetaShape>, n: int)
    requires
        0 <= n <= metas.len(),
        parsed_args(metas.take(n)) is Err,
    ensures
        parsed_args(metas) == parsed_args(metas.take(n)),
    decreases metas.len() - n,
{
    if n < metas.len() {
        assert(metas.take(n + 1).drop_last() =~= metas.take(n));
        lemma_parse_error_stays(metas, n + 1);
    } else {
        assert(metas.take(n) =~= metas);
    }
}

fn read_meta(args: ClawToolArgs, meta: MetaShape) -> (next: Result<ClawToolArgs, String>)
    ensures
        match with_meta(args@, meta) {
            Ok(model) => next matches Ok(read) && read@ == model,
            Err(message) => next matches Err(text) && text@ == message,
        },
{
    match meta {
        MetaShape::Other => Err(String::from_str("Expected name = \"...\" format")),
        MetaShape::NameValue { ident: None, .. } => Err(
            String::from_str("Expected simple identifier"),
        ),
        MetaShape::NameValue { ident: Some(key), value } => {
            if str_eq(key.as_str(), "name") {
                match value {
                    Some(text) => Ok(
                        ClawToolArgs { name: Some(text), description: args.description },
                    ),
                    None => Err(String::from_str("Expected string literal for name")),
                }
            } else if str_eq(key.as_str(), "description") {
                match value {
                    Some(text) => Ok(ClawToolArgs { name: args.name, description: Some(text) }),
                    None => Err(String::from_str("Expected string literal for description")),
                }
            } else {
                Err(String::from_str("Unknown attribute '").concat(key.as_str()).concat("'"))
            }
        },
    }
}

impl ClawToolArgs {
    /// Reads the arguments of the attribute, first to last. A later `name`
    /// or `description` replaces an earlier one.
    pub fn parse(metas: Vec<MetaShape>) -> (parsed: Result<ClawToolArgs, String>)
        ensures
            match parsed_args(metas@) {
                Ok(model) => parsed matches Ok(args) && args@ == model,
                Err(message) => parsed matches Err(text) && text@ == message,
            },
    {
        let mut args = ClawToolArgs { name: None, description: None };
        let ghost all = metas@;
        proof {
            assert(all.take(0) =~= Seq::<MetaShape>::empty());
        }
        for meta in it: metas
            invariant
                it.seq() == all,
                parsed_args(all.take(it.index() as int)) == Ok::<ArgsModel, Seq<char>>(args@),
        {
            proof {
                let after = all.take(it.index() + 1);
                assert(after.drop_last() =~= all.take(it.index() as int));
                assert(after.last() == meta);
            }
            match read_meta(args, meta) {
                Ok(next) => {
                    args = next;
                },
                Err(message) => {
                    proof {
                        lemma_parse_error_stays(all, it.index() + 1);
                    }
                    return Err(message);
                },
            }
        }
        proof {
            assert(all.take(all.len() as int) =~= all);
        }
        Ok(args)
    }
}

/// True for the return type of a tool function: `ToolResult`, or a `Result`
/// whose success is a `ToolResult`.
pub open spec fn returns_tool_result(ty: TypeShape) -> bool {
    named(ty, "ToolResult"@) || (named(ty, "Result"@) && inner_of(ty, "Result"@) is Some && named(
        inner_of(ty, "Result"@)->0,
        "ToolResult"@,
    ))
}

/// Why a function cannot be a tool: it is not `async`, or it does not return
/// the result of a tool.
pub open spec fn function_refusal(is_async: bool, output: Option<TypeShape>) -> Option<Seq<char>> {
    if !is_async {
        Some("#[claw_tool] requires an async function"@)
    } else if output is Some && returns_tool_result(output->0) {
        None
    } else {
        Some("#[claw_tool] requires return type ToolResult or Result<ToolResult, E>"@)
    }
}

/// Checks that a function can be a tool: it must be `async`, and its return
/// type must be `ToolResult` or a `Result` whose success is a `ToolResult`.
pub fn validate_function(is_async: bool, output: &Option<TypeShape>) -> (verdict: Result<
    (),
    String,
>)
    ensures
        match function_refusal(is_async, *output) {
            Some(message) => verdict matches Err(text) && text@ == message,
            None => verdict is Ok,
        },
{
    if !is_async {
        return Err(String::from_str("#[claw_tool] requires an async function"));
    }
    let valid = match output {
        Some(ty) => matches_type_name(ty, "ToolResult") || (is_result_type(ty) && match result_ok_type(
            ty,
        ) {
            Some(ok) => matches_type_name(ok, "ToolResult"),
            None => false,
        }),
        None => false,
    };
    if valid {
        Ok(())
    } else {
        Err(
            String::from_str(
                "#[claw_tool] requires return type ToolResult or Result<ToolResult, E>",
            ),
        )
    }
}

/// The signature of a tool function, as far as a tool is made from it.
#[derive(Debug)]
pub struct FnSignature {
    /// The name of the function.
    pub name: String,
    /// Whether the function is `async`.
    pub is_async: bool,
    /// The parameters, in their order.
    pub inputs: Vec<FnArgShape>,
    /// The return type, where one is written.
    pub output: Option<TypeShape>,
    /// The lines of the doc comment.
    pub doc_lines: Vec<String>,
}

/// The parameters of the tool, as its schema sees them.
pub open spec fn schema_params(inputs: Seq<FnArgShape>) -> Seq<ToolParam> {
    inputs.map_values(
        |arg: FnArgShape| ToolParam { name: arg->Typed_name->0, ty: param_type(arg->Typed_ty) },
    )
}

/// Why no tool is made from a function: the function is refused, or an
/// argument of the attribute, or a parameter; in that order.
pub open spec fn expansion_refusal(metas: Seq<MetaShape>, signature: FnSignature) -> Option<
    Seq<char>,
> {
    match function_refusal(signature.is_async, signature.output) {
        Some(message) => Some(message),
        None => match parsed_args(metas) {
            Err(message) => Some(message),
            Ok(_) => first_arg_refusal(signature.inputs@),
        },
    }
}

/// The name of the tool that is made from a function: the one that the
/// attribute gives, else the one that comes from the name of the function.
pub open spec fn expanded_name(metas: Seq<MetaShape>, signature: FnSignature) -> Seq<char> {
    match parsed_args(metas)->Ok_0.name {
        Some(name) => name,
        None => tool_name_of(signature.name@),
    }
}

/// The definition of the tool that is made from a function.
pub open spec fn expanded_definition(metas: Seq<MetaShape>, signature: FnSignature) -> Json {
    Json::Object(
        seq![
            ("name"@, Json::Text(expanded_name(metas, signature))),
            (
                "description"@,
                Json::Text(
                    description_of(
                        parsed_args(metas)->Ok_0.description,
                        signature.doc_lines.deep_view(),
                        expanded_name(metas, signature),
                    ),
                ),
            ),
            ("inputSchema"@, input_schema_of(schema_params(signature.inputs@))),
        ],
    )
}

fn tool_params(params: Vec<FnParam>) -> (out: Vec<ToolParam>)
    ensures
        out@.len() == params@.len(),
        forall|i: int|
            0 <= i < out@.len() ==> #[trigger] out@[i] == (ToolParam {
                name: params@[i].name,
                ty: param_type(params@[i].ty),
            }),
{
    let mut out: Vec<ToolParam> = Vec::new();
    let ghost all = params@;
    for param in it: params
        invariant
            it.seq() == all,
            out@.len() == it.index(),
            forall|i: int|
                0 <= i < out@.len() ==> #[trigger] out@[i] == (ToolParam {
                    name: all[i].name,
                    ty: param_type(all[i].ty),
                }),
    {
        let ty = param_type_of(&param.ty);
        out.push(ToolParam { name: param.name, ty });
    }
    out
}

/// Makes a tool from a function and the arguments of the attribute that
/// marks it. The function must be `async` and return the result of a tool;
/// the arguments of the attribute must be well formed; every parameter must
/// have a plain name. The name, the description and the input schema of the
/// tool come from the attribute and the signature; `function` runs the tool.
pub fn expand_claw_tool(
    metas: Vec<MetaShape>,
    signature: FnSignature,
    function: Box<dyn ToolFunction>,
) -> (expanded: Result<SdkMcpTool, String>)
    ensures
        match expansion_refusal(metas@, signature) {
            Some(message) => expanded matches Err(text) && text@ == message,
            None => expanded matches Ok(tool) && tool.tool_name() == expanded_name(
                metas@,
                signature,
            ) && tool.definition() == expanded_definition(metas@, signature),
        },
{
    match validate_function(signature.is_async, &signature.output) {
        Ok(()) => {},
        Err(message) => {
            return Err(message);
        },
    }
    let args = match ClawToolArgs::parse(metas) {
        Ok(args) => args,
        Err(message) => {
            return Err(message);
        },
    };
    let FnSignature { name, inputs, doc_lines, .. } = signature;
    let params = match FnParam::from_fn_args(inputs) {
        Ok(params) => params,
        Err(message) => {
            return Err(message);
        },
    };
    let params = tool_params(params);
    assert(params@ =~= schema_params(signature.inputs@));
    let given_name = match &args.name {
        Some(text) => Some(text.as_str()),
        None => None,
    };
    let given_description = match &args.description {
        Some(text) => Some(text.as_str()),
        None => None,
    };
    Ok(claw_tool(name.as_str(), given_name, given_description, &doc_lines, params, function))
}

/// The characters that `char::to_uppercase` gives for a character.
pub uninterp spec fn uppercase_of(c: char) -> Seq<char>;

/// Calls `char::to_uppercase`, which maps a character to its upper case by
/// the tables of Unicode, whatever the language, and collects the characters
/// that it gives.
#[verifier::external_body]
fn upper_case(c: char) -> (text: String)
    ensures
        text@ == uppercase_of(c),
{
    c.to_uppercase().collect()
}

/// A word with its first character in upper case.
pub open spec fn capitalised(word: Seq<char>) -> Seq<char> {
    if word.len() == 0 {
        word
    } else {
        uppercase_of(word[0]) + word.skip(1)
    }
}

/// The words, each with its first character in upper case, one after
/// another.
pub open spec fn capitalised_all(words: Seq<Seq<char>>) -> Seq<char>
    decreases words.len(),
{
    if words.len() == 0 {
        Seq::empty()
    } else {
        capitalised_all(words.drop_last()) + capitalised(words.last())
    }
}

/// The name of the handler of a tool function: the words of the function's
/// name between its underscores, each with its first character in upper
/// case, and then `Handler`.
pub open spec fn handler_name_of(fn_name: Seq<char>) -> Seq<char> {
    capitalised_all(split(fn_name, '_')) + "Handler"@
}

/// Derives the name of the handler from the name of its function.
pub fn handler_name_for(fn_name: &str) -> (name: String)
    ensures
        name@ == handler_name_of(fn_name@),
{
    let words = split_at_char(fn_name, '_');
    let mut name = String::new();
    let mut i: usize = 0;
    proof {
        assert(words.deep_view().take(0) =~= Seq::<Seq<char>>::empty());
    }
    while i < words.len()
        invariant
            i <= words@.len(),
            name@ == capitalised_all(words.deep_view().take(i as int)),
        decreases words@.len() - i,
    {
        proof {
            let after = words.deep_view().take(i + 1);
            assert(after.drop_last() =~= words.deep_view().take(i as int));
            assert(after.last() == words@[i as int]@);
        }
        let word = words[i].as_str();
        let n = word.unicode_len();
        if n > 0 {
            let first = upper_case(word.get_char(0));
            name.append(first.as_str());
            name.append(word.substring_char(1, n));
            assert(word@.subrange(1, n as int) =~= word@.skip(1));
        }
        i += 1;
    }
    proof {
        assert(words.deep_view().take(words@.len() as int) =~= words.deep_view());
    }
    name.append("Handler");
    name
}

} // verus!
