use crate::assoc::{lookup, upsert, NameMap};
use crate::control::handlers::McpMessageHandler;
use crate::error::ClawError;
use crate::json::{Json, JsonNum, JsonValue};
use crate::text::str_eq;
use std::sync::Arc;
use vstd::prelude::*;

verus! {

/// One item of content in the result of a tool.
#[derive(Debug, Clone)]
pub enum ToolContent {
    /// Text content.
    Text {
        /// The text.
        text: String,
    },
    /// Image content.
    Image {
        /// The image data, base64-encoded.
        data: String,
        /// The MIME type of the image.
        mime_type: String,
    },
}

impl ToolContent {
    /// This item on the wire.
    pub open spec fn wire(self) -> Json {
        match self {
            ToolContent::Text { text } => Json::Object(
                seq![("type"@, Json::Text("text"@)), ("text"@, Json::Text(text@))],
            ),
            ToolContent::Image { data, mime_type } => Json::Object(
                seq![
                    ("type"@, Json::Text("image"@)),
                    ("data"@, Json::Text(data@)),
                    ("mimeType"@, Json::Text(mime_type@)),
                ],
            ),
        }
    }

    /// Creates text content.
    pub fn text(text: &str) -> (content: ToolContent)
        ensures
            content matches ToolContent::Text { text: t } && t@ == text@,
    {
        ToolContent::Text { text: String::from_str(text) }
    }

    /// Creates image content.
    pub fn image(data: &str, mime_type: &str) -> (content: ToolContent)
        ensures
            content matches ToolContent::Image { data: d, mime_type: m } && d@ == data@ && m@
                == mime_type@,
    {
        ToolContent::Image { data: String::from_str(data), mime_type: String::from_str(mime_type) }
    }

    /// Builds the object that stands for this item on the wire.
    pub fn to_json(&self) -> (document: JsonValue)
        ensures
            document@ == self.wire(),
    {
        proof {
            reveal_strlit("type");
            reveal_strlit("text");
            reveal_strlit("data");
            reveal_strlit("mimeType");
            assert("type"@[1] != "text"@[1]);
            assert("type"@[1] != "data"@[1]);
            assert("type"@.len() != "mimeType"@.len());
            assert("data"@.len() != "mimeType"@.len());
        }
        match self {
            ToolContent::Text { text } => JsonValue::object2(
                "type",
                JsonValue::text("text"),
                "text",
                JsonValue::text(text.as_str()),
            ),
            ToolContent::Image { data, mime_type } => JsonValue::object3(
                "type",
                JsonValue::text("image"),
                "data",
                JsonValue::text(data.as_str()),
                "mimeType",
                JsonValue::text(mime_type.as_str()),
            ),
        }
    }
}

/// A flag as a JSON boolean, and `null` where there is none.
pub open spec fn flag_or_null(flag: Option<bool>) -> Json {
    match flag {
        Some(flag) => Json::Bool(flag),
        None => Json::Null,
    }
}

/// The result of a tool: its content, and whether it reports an error.
#[derive(Debug, Clone)]
pub struct ToolResult {
    /// The items of content.
    pub content: Vec<ToolContent>,
    /// Whether this result represents an error.
    pub is_error: Option<bool>,
}

impl ToolResult {
    /// This result on the wire.
    pub open spec fn wire(self) -> Json {
        Json::Object(
            seq![
                ("content"@, Json::Array(self.content@.map_values(|c: ToolContent| c.wire()))),
                ("is_error"@, flag_or_null(self.is_error)),
            ],
        )
    }

    /// Creates a result with one text.
    pub fn text(text: &str) -> (result: ToolResult)
        ensures
            result.content@.len() == 1,
            result.content@[0] matches ToolContent::Text { text: t } && t@ == text@,
            result.is_error is None,
    {
        let mut content: Vec<ToolContent> = Vec::new();
        content.push(ToolContent::text(text));
        ToolResult { content, is_error: None }
    }

    /// Creates a result that reports an error with one text.
    pub fn error(text: &str) -> (result: ToolResult)
        ensures
            result.content@.len() == 1,
            result.content@[0] matches ToolContent::Text { text: t } && t@ == text@,
            result.is_error == Some(true),
    {
        let mut content: Vec<ToolContent> = Vec::new();
        content.push(ToolContent::text(text));
        ToolResult { content, is_error: Some(true) }
    }

    /// Creates a result with the given content.
    pub fn new(content: Vec<ToolContent>) -> (result: ToolResult)
        ensures
            result.content == content,
            result.is_error is None,
    {
        ToolResult { content, is_error: None }
    }

    /// Builds the object that stands for this result on the wire.
    pub fn to_json(&self) -> (document: JsonValue)
        ensures
            document@ == self.wire(),
    {
        let mut items: Vec<JsonValue> = Vec::new();
        let mut i: usize = 0;
        while i < self.content.len()
            invariant
                i <= self.content@.len(),
                items@.len() == i,
                forall|k: int| 0 <= k < i ==> (#[trigger] items@[k])@ == self.content@[k].wire(),
            decreases self.content@.len() - i,
        {
            items.push(self.content[i].to_json());
            i += 1;
        }
        let content = JsonValue::Array(items);
        assert(content@->Array_0 =~= self.wire()->Object_0[0].1->Array_0);
        let flag = match self.is_error {
            Some(flag) => JsonValue::Bool(flag),
            None => JsonValue::Null,
        };
        proof {
            reveal_strlit("content");
            reveal_strlit("is_error");
            assert("content"@.len() != "is_error"@.len());
        }
        let document = JsonValue::object2("content", content, "is_error", flag);
        assert(document@->Object_0 =~= self.wire()->Object_0);
        document
    }
}

/// The behaviour of a tool.
pub trait ToolHandler: Send + Sync {
    /// Runs the tool on its arguments.
    fn call(&self, args: JsonValue) -> Result<ToolResult, ClawError>;
}

/// A tool that an MCP server offers: its name, description and input
/// schema, and the handler that runs it.
#[derive(Clone)]
pub struct SdkMcpTool {
    /// Tool name, unique within its server.
    pub name: String,
    /// Description for readers.
    pub description: String,
    /// JSON schema of the input.
    pub input_schema: JsonValue,
    handler: Arc<Box<dyn ToolHandler>>,
}

impl SdkMcpTool {
    /// The name of this tool.
    pub closed spec fn tool_name(self) -> Seq<char> {
        self.name@
    }

    /// The definition of this tool as `tools/list` reports it.
    pub closed spec fn definition(self) -> Json {
        Json::Object(
            seq![
                ("name"@, Json::Text(self.name@)),
                ("description"@, Json::Text(self.description@)),
                ("inputSchema"@, self.input_schema@),
            ],
        )
    }

    /// Creates a tool.
    pub fn new(
        name: &str,
        description: &str,
        input_schema: JsonValue,
        handler: Box<dyn ToolHandler>,
    ) -> (tool: SdkMcpTool)
        ensures
            tool.tool_name() == name@,
            tool.definition() == Json::Object(
                seq![
                    ("name"@, Json::Text(name@)),
                    ("description"@, Json::Text(description@)),
                    ("inputSchema"@, input_schema@),
                ],
            ),
    {
        SdkMcpTool {
            name: String::from_str(name),
            description: String::from_str(description),
            input_schema,
            handler: Arc::new(handler),
        }
    }

    /// Builds the definition of this tool as `tools/list` reports it.
    pub fn to_tool_definition(&self) -> (document: JsonValue)
        ensures
            document@ == self.definition(),
    {
        proof {
            reveal_strlit("name");
            reveal_strlit("description");
            reveal_strlit("inputSchema");
            assert("name"@.len() != "description"@.len());
            assert("name"@.len() != "inputSchema"@.len());
            assert("description"@[0] != "inputSchema"@[0]);
        }
        JsonValue::object3(
            "name",
            JsonValue::text(self.name.as_str()),
            "description",
            JsonValue::text(self.description.as_str()),
            "inputSchema",
            self.input_schema.clone(),
        )
    }

    /// Runs the tool on `args` and returns what its handler returns.
    pub fn execute(&self, args: JsonValue) -> (outcome: Result<ToolResult, ClawError>) {
        self.handler.call(args)
    }
}

/// A JSON-RPC response that carries a result.
pub open spec fn rpc_success(id: Json, result: Json) -> Json {
    Json::Object(seq![("jsonrpc"@, Json::Text("2.0"@)), ("id"@, id), ("result"@, result)])
}

/// A JSON-RPC response that carries an error.
pub open spec fn rpc_error(id: Json, code: int, message: Seq<char>) -> Json {
    Json::Object(
        seq![
            ("jsonrpc"@, Json::Text("2.0"@)),
            ("id"@, id),
            (
                "error"@,
                Json::Object(
                    seq![
                        ("code"@, Json::Number(JsonNum::Integer(code))),
                        ("message"@, Json::Text(message)),
                    ],
                ),
            ),
        ],
    )
}

/// The code of the error for a method that the server does not know.
pub const METHOD_NOT_FOUND: i32 = -32601;

/// The code of the error for a tool call that names no tool of the server.
pub const INVALID_PARAMS: i32 = -32602;

/// The code of the error for a tool whose handler failed.
pub const INTERNAL_ERROR: i32 = -32603;

proof fn lemma_rpc_keys()
    ensures
        "jsonrpc"@ != "id"@,
        "jsonrpc"@ != "result"@,
        "id"@ != "result"@,
        "jsonrpc"@ != "error"@,
        "id"@ != "error"@,
        "code"@ != "message"@,
{
    reveal_strlit("jsonrpc");
    reveal_strlit("id");
    reveal_strlit("result");
    reveal_strlit("error");
    reveal_strlit("code");
    reveal_strlit("message");
    assert("jsonrpc"@.len() != "id"@.len());
    assert("jsonrpc"@.len() != "result"@.len());
    assert("id"@.len() != "result"@.len());
    assert("jsonrpc"@.len() != "error"@.len());
    assert("id"@.len() != "error"@.len());
    assert("code"@.len() != "message"@.len());
}

/// The code and the message of a JSON-RPC error response are those it was
/// built with.
pub proof fn lemma_rpc_error_parts(id: Json, code: int, message: Seq<char>)
    ensures
        rpc_error(id, code, message).member("error"@).member("code"@) == Json::Number(
            JsonNum::Integer(code),
        ),
        rpc_error(id, code, message).member("error"@).member("message"@) == Json::Text(message),
        rpc_error(id, code, message).member("id"@) == id,
        rpc_error(id, code, message).field("result"@) is None,
{
    lemma_rpc_keys();
    reveal_strlit("jsonrpc");
    reveal_strlit("id");
    reveal_strlit("result");
    reveal_strlit("error");
    assert("error"@.len() != "result"@.len());
    let outer = rpc_error(id, code, message)->Object_0;
    let inner = outer[2].1->Object_0;
    crate::assoc::lemma_position_is(outer, "error"@, 2);
    crate::assoc::lemma_position_is(outer, "id"@, 1);
    crate::assoc::lemma_position_none(outer, "result"@);
    crate::assoc::lemma_position_is(inner, "code"@, 0);
    crate::assoc::lemma_position_is(inner, "message"@, 1);
}

/// Builds a JSON-RPC response that carries a result.
pub fn json_rpc_success(id: JsonValue, result: JsonValue) -> (response: JsonValue)
    ensures
        response@ == rpc_success(id@, result@),
{
    proof {
        lemma_rpc_keys();
    }
    JsonValue::object3("jsonrpc", JsonValue::text("2.0"), "id", id, "result", result)
}

/// Builds a JSON-RPC response that carries an error.
pub fn json_rpc_error(id: JsonValue, code: i32, message: String) -> (response: JsonValue)
    ensures
        response@ == rpc_error(id@, code as int, message@),
{
    proof {
        lemma_rpc_keys();
    }
    let error = JsonValue::object2(
        "code",
        JsonValue::signed(code as i64),
        "message",
        JsonValue::Text(message),
    );
    JsonValue::object3("jsonrpc", JsonValue::text("2.0"), "id", id, "error", error)
}

/// True where `response` answers the request `id` for a tool whose handler
/// failed with `error`: it is the error for a failed handler, and its message
/// carries what the error says.
pub open spec fn reports_failure(id: Json, error: ClawError, response: Json) -> bool {
    exists|text: Seq<char>| #[trigger]
        error.says(text) && response == rpc_error(
            id,
            INTERNAL_ERROR as int,
            "Tool execution failed: "@ + text,
        )
}

/// The JSON-RPC response to a tool call, from what the tool returned: its
/// result, or the error for a handler that failed.
pub fn tool_call_response(id: JsonValue, outcome: Result<ToolResult, ClawError>) -> (response:
    JsonValue)
    ensures
        match outcome {
            Ok(result) => response@ == rpc_success(id@, result.wire()),
            Err(error) => reports_failure(id@, error, response@),
        },
{
    match outcome {
        Ok(result) => json_rpc_success(id, result.to_json()),
        Err(error) => json_rpc_error(
            id,
            INTERNAL_ERROR,
            String::from_str("Tool execution failed: ").concat(error.to_string().as_str()),
        ),
    }
}

/// What a server does with a JSON-RPC request before any tool runs.
pub enum RpcPlan {
    /// The request is refused with a control error.
    Fail(Seq<char>),
    /// The response is fixed.
    Reply(Json),
    /// A tool is run on the arguments, and its outcome makes the response.
    Call { tool: SdkMcpTool, arguments: Json },
}

/// What a server has decided to do with a JSON-RPC request, before any tool
/// runs.
pub enum Prepared<'a> {
    /// The request is refused with a control error.
    Fail { reason: String },
    /// The response is fixed.
    Reply { reply: JsonValue },
    /// The tool is to be run on the arguments; its outcome makes the
    /// response to the request `id`.
    Call { id: JsonValue, tool: &'a SdkMcpTool, arguments: JsonValue },
}

impl<'a> Prepared<'a> {
    /// The plan that this decision stands for.
    pub open spec fn plan(self) -> RpcPlan {
        match self {
            Prepared::Fail { reason } => RpcPlan::Fail(reason@),
            Prepared::Reply { reply } => RpcPlan::Reply(reply@),
            Prepared::Call { tool, arguments, .. } => RpcPlan::Call {
                tool: *tool,
                arguments: arguments@,
            },
        }
    }

    /// True when the response to a call will go to the request `id`.
    pub open spec fn answers(self, id: Json) -> bool {
        self matches Prepared::Call { id: kept, .. } ==> kept@ == id
    }
}

/// An MCP server hosted by the runtime: its name and version, and its tools
/// by name.
pub struct SdkMcpServerImpl {
    /// Server name.
    pub name: String,
    /// Server version.
    pub version: String,
    tools: NameMap<SdkMcpTool>,
}

impl SdkMcpServerImpl {
    /// The name of this server.
    pub closed spec fn server_name(self) -> Seq<char> {
        self.name@
    }

    /// The version of this server.
    pub closed spec fn server_version(self) -> Seq<char> {
        self.version@
    }

    /// The tools of this server, each name with its tool.
    pub closed spec fn tools(self) -> Seq<(Seq<char>, SdkMcpTool)> {
        self.tools@
    }

    /// The result of `initialize`: the protocol version, the capabilities,
    /// and the name and version of the server.
    pub open spec fn initialize_result(self) -> Json {
        Json::Object(
            seq![
                ("protocolVersion"@, Json::Text("2024-11-05"@)),
                ("capabilities"@, Json::Object(seq![("tools"@, Json::Object(Seq::empty()))])),
                (
                    "serverInfo"@,
                    Json::Object(
                        seq![
                            ("name"@, Json::Text(self.server_name())),
                            ("version"@, Json::Text(self.server_version())),
                        ],
                    ),
                ),
            ],
        )
    }

    /// The definitions of the tools, in the order of the tools.
    pub open spec fn definitions(self) -> Seq<Json> {
        self.tools().map_values(|entry: (Seq<char>, SdkMcpTool)| entry.1.definition())
    }

    /// What the server does with a `tools/call` request: without an object
    /// `params`, without a string `name` in it, or with a name that no tool
    /// has, it replies with the error for invalid parameters; else it calls
    /// the tool on `arguments`, or on an empty object where there are none.
    pub open spec fn call_plan(self, request: Json) -> RpcPlan {
        let id = request.member("id"@);
        match request.field("params"@) {
            Some(Json::Object(params)) => match lookup(params, "name"@) {
                Some(Json::Text(name)) => match lookup(self.tools(), name) {
                    Some(tool) => RpcPlan::Call {
                        tool,
                        arguments: match lookup(params, "arguments"@) {
                            Some(arguments) => arguments,
                            None => Json::Object(Seq::empty()),
                        },
                    },
                    None => RpcPlan::Reply(
                        rpc_error(id, INVALID_PARAMS as int, "Tool not found: "@ + name),
                    ),
                },
                _ => RpcPlan::Reply(rpc_error(id, INVALID_PARAMS as int, "Missing tool name"@)),
            },
            _ => RpcPlan::Reply(rpc_error(id, INVALID_PARAMS as int, "Missing params"@)),
        }
    }

    /// What the server does with a JSON-RPC request, by its method.
    pub open spec fn plan(self, request: Json) -> RpcPlan {
        let id = request.member("id"@);
        match request.text_field("method"@) {
            None => RpcPlan::Fail("Missing method field"@),
            Some(method) => if method == "initialize"@ {
                RpcPlan::Reply(rpc_success(id, self.initialize_result()))
            } else if method == "notifications/initialized"@ {
                RpcPlan::Reply(rpc_success(id, Json::Object(Seq::empty())))
            } else if method == "tools/list"@ {
                RpcPlan::Reply(
                    rpc_success(id, Json::Object(seq![("tools"@, Json::Array(self.definitions()))])),
                )
            } else if method == "tools/call"@ {
                self.call_plan(request)
            } else {
                RpcPlan::Reply(
                    rpc_error(id, METHOD_NOT_FOUND as int, "Method not found: "@ + method),
                )
            },
        }
    }

    /// What `handle_jsonrpc` returns under a plan: the failure or the reply
    /// that the plan fixes; after a call, the response with the result of the
    /// tool, or the error for a handler that failed.
    pub open spec fn carried_out(
        plan: RpcPlan,
        id: Json,
        outcome: Result<JsonValue, ClawError>,
    ) -> bool {
        match plan {
            RpcPlan::Fail(reason) => outcome matches Err(ClawError::ControlError(r)) && r@
                == reason,
            RpcPlan::Reply(document) => outcome matches Ok(v) && v@ == document,
            RpcPlan::Call { .. } => outcome matches Ok(v) && ((exists|result: ToolResult|
                v@ == rpc_success(id, result.wire())) || (exists|error: ClawError|
                reports_failure(id, error, v@))),
        }
    }

    /// Creates a server without tools.
    pub fn new(name: &str, version: &str) -> (server: SdkMcpServerImpl)
        ensures
            server.server_name() == name@,
            server.server_version() == version@,
            server.tools() == Seq::<(Seq<char>, SdkMcpTool)>::empty(),
    {
        SdkMcpServerImpl {
            name: String::from_str(name),
            version: String::from_str(version),
            tools: NameMap::new(),
        }
    }

    /// Registers a tool under its name, in place of an earlier tool with
    /// that name.
    pub fn register_tool(&mut self, tool: SdkMcpTool)
        ensures
            final(self).tools() == upsert(old(self).tools(), tool.tool_name(), tool),
            final(self).server_name() == old(self).server_name(),
            final(self).server_version() == old(self).server_version(),
    {
        let name = tool.name.clone();
        self.tools.insert(name, tool);
    }

    /// The tool with the name `name`.
    pub fn get_tool(&self, name: &str) -> (tool: Option<&SdkMcpTool>)
        ensures
            tool == match lookup(self.tools(), name@) {
                Some(t) => Some(&t),
                None => None,
            },
    {
        self.tools.get(name)
    }

    /// The number of tools.
    pub fn tool_count(&self) -> (n: usize)
        ensures
            n == self.tools().len(),
    {
        self.tools.len()
    }

    /// The definitions of all tools, as `tools/list` reports them.
    pub fn list_tools(&self) -> (definitions: Vec<JsonValue>)
        ensures
            definitions@.len() == self.definitions().len(),
            forall|i: int|
                0 <= i < definitions@.len() ==> (#[trigger] definitions@[i])@
                    == self.definitions()[i],
    {
        let mut definitions: Vec<JsonValue> = Vec::new();
        let mut i: usize = 0;
        while i < self.tools.len()
            invariant
                i <= self.tools().len(),
                definitions@.len() == i,
                forall|k: int|
                    0 <= k < i ==> (#[trigger] definitions@[k])@ == self.definitions()[k],
            decreases self.tools().len() - i,
        {
            definitions.push(self.tools.value_at(i).to_tool_definition());
            i += 1;
        }
        definitions
    }
}

impl SdkMcpServerImpl {
    fn handle_initialize(&self) -> (document: JsonValue)
        ensures
            document@ == self.initialize_result(),
    {
        proof {
            reveal_strlit("protocolVersion");
            reveal_strlit("capabilities");
            reveal_strlit("serverInfo");
            reveal_strlit("name");
            reveal_strlit("version");
            assert("protocolVersion"@.len() != "capabilities"@.len());
            assert("protocolVersion"@.len() != "serverInfo"@.len());
            assert("capabilities"@.len() != "serverInfo"@.len());
            assert("name"@.len() != "version"@.len());
        }
        let info = JsonValue::object2(
            "name",
            JsonValue::text(self.name.as_str()),
            "version",
            JsonValue::text(self.version.as_str()),
        );
        let capabilities = JsonValue::object1("tools", JsonValue::empty_object());
        JsonValue::object3(
            "protocolVersion",
            JsonValue::text("2024-11-05"),
            "capabilities",
            capabilities,
            "serverInfo",
            info,
        )
    }

    fn handle_tools_list(&self) -> (document: JsonValue)
        ensures
            document@ == Json::Object(seq![("tools"@, Json::Array(self.definitions()))]),
    {
        let list = JsonValue::Array(self.list_tools());
        assert(list@->Array_0 =~= self.definitions());
        JsonValue::object1("tools", list)
    }

    fn prepare_call<'a>(&'a self, id: JsonValue, request: &JsonValue) -> (prepared: Prepared<'a>)
        requires
            id@ == request@.member("id"@),
        ensures
            prepared.plan() == self.call_plan(request@),
            prepared.answers(id@),
    {
        let params = match request.get("params") {
            Some(JsonValue::Object(params)) => params,
            _ => {
                return Prepared::Reply {
                    reply: json_rpc_error(id, INVALID_PARAMS, String::from_str("Missing params")),
                };
            },
        };
        let name = match params.get("name") {
            Some(JsonValue::Text(name)) => name.as_str(),
            _ => {
                return Prepared::Reply {
                    reply: json_rpc_error(
                        id,
                        INVALID_PARAMS,
                        String::from_str("Missing tool name"),
                    ),
                };
            },
        };
        let tool = match self.get_tool(name) {
            Some(tool) => tool,
            None => {
                return Prepared::Reply {
                    reply: json_rpc_error(
                        id,
                        INVALID_PARAMS,
                        String::from_str("Tool not found: ").concat(name),
                    ),
                };
            },
        };
        let arguments = match params.get("arguments") {
            Some(arguments) => arguments.clone(),
            None => JsonValue::empty_object(),
        };
        Prepared::Call { id, tool, arguments }
    }

    /// Decides what to do with a JSON-RPC request, up to the point at which
    /// a tool would run: the refusal or the reply that is fixed already, or
    /// the tool to run and the arguments to run it on.
    pub fn prepare<'a>(&'a self, request: &JsonValue) -> (prepared: Prepared<'a>)
        ensures
            prepared.plan() == self.plan(request@),
            prepared.answers(request@.member("id"@)),
    {
        let id = request.member("id");
        let method = match request.get_str("method") {
            Some(method) => method,
            None => {
                return Prepared::Fail {
                    reason: String::from_str("Missing method field"),
                };
            },
        };
        if str_eq(method, "initialize") {
            Prepared::Reply {
                reply: json_rpc_success(id, self.handle_initialize()),
            }
        } else if str_eq(method, "notifications/initialized") {
            Prepared::Reply {
                reply: json_rpc_success(id, JsonValue::empty_object()),
            }
        } else if str_eq(method, "tools/list") {
            Prepared::Reply {
                reply: json_rpc_success(id, self.handle_tools_list()),
            }
        } else if str_eq(method, "tools/call") {
            self.prepare_call(id, request)
        } else {
            Prepared::Reply {
                reply: json_rpc_error(
                    id,
                    METHOD_NOT_FOUND,
                    String::from_str("Method not found: ").concat(method),
                ),
            }
        }
    }

    /// Handles a JSON-RPC request. `initialize`, `notifications/initialized`
    /// and `tools/list` have fixed responses; `tools/call` runs the named
    /// tool on the arguments that `prepare` hands out; any other method is
    /// answered with the error for an unknown method; a request without a
    /// method is refused.
    pub fn handle_jsonrpc(&self, request: JsonValue) -> (outcome: Result<JsonValue, ClawError>)
        ensures
            Self::carried_out(self.plan(request@), request@.member("id"@), outcome),
    {
        match self.prepare(&request) {
            Prepared::Fail { reason } => Err(ClawError::ControlError(reason)),
            Prepared::Reply { reply } => Ok(reply),
            Prepared::Call { id, tool, arguments } => Ok(
                Self::handle_tools_call(id, tool, arguments),
            ),
        }
    }

    /// Runs a tool on the arguments of a call and builds the response to the
    /// request `id`: the result of the tool, or the error for a handler that
    /// failed.
    pub fn handle_tools_call(id: JsonValue, tool: &SdkMcpTool, arguments: JsonValue) -> (response:
        JsonValue)
        ensures
            (exists|result: ToolResult| response@ == rpc_success(id@, result.wire())) || (exists|
                error: ClawError,
            |
                reports_failure(id@, error, response@)),
    {
        let returned = tool.execute(arguments);
        let ghost seen = returned;
        let response = tool_call_response(id, returned);
        proof {
            match seen {
                Ok(result) => {
                    assert(response@ == rpc_success(id@, result.wire()));
                },
                Err(error) => {
                    assert(reports_failure(id@, error, response@));
                },
            }
        }
        response
    }
}

/// The MCP servers hosted by the runtime, by name.
pub struct SdkMcpServerRegistry {
    servers: NameMap<SdkMcpServerImpl>,
}

impl SdkMcpServerRegistry {
    /// The servers, each name with its server.
    pub closed spec fn servers(self) -> Seq<(Seq<char>, SdkMcpServerImpl)> {
        self.servers@
    }

    /// What `route` returns: for a name that no server has, the error that
    /// says so; else what the server returns for the message.
    pub open spec fn routed(
        self,
        server_name: Seq<char>,
        message: Json,
        outcome: Result<JsonValue, ClawError>,
    ) -> bool {
        match lookup(self.servers(), server_name) {
            None => outcome matches Err(ClawError::ControlError(reason)) && reason@
                == "Server not found: "@ + server_name,
            Some(server) => SdkMcpServerImpl::carried_out(
                server.plan(message),
                message.member("id"@),
                outcome,
            ),
        }
    }

    /// Creates a registry without servers.
    pub fn new() -> (registry: SdkMcpServerRegistry)
        ensures
            registry.servers() == Seq::<(Seq<char>, SdkMcpServerImpl)>::empty(),
    {
        SdkMcpServerRegistry { servers: NameMap::new() }
    }

    /// Registers a server under its name, in place of an earlier server with
    /// that name.
    pub fn register(&mut self, server: SdkMcpServerImpl)
        ensures
            final(self).servers() == upsert(old(self).servers(), server.server_name(), server),
    {
        let name = server.name.clone();
        self.servers.insert(name, server);
    }

    /// The server with the name `name`.
    pub fn get(&self, name: &str) -> (server: Option<&SdkMcpServerImpl>)
        ensures
            server == match lookup(self.servers(), name@) {
                Some(s) => Some(&s),
                None => None,
            },
    {
        self.servers.get(name)
    }

    /// The number of servers.
    pub fn server_count(&self) -> (n: usize)
        ensures
            n == self.servers().len(),
    {
        self.servers.len()
    }

    /// Hands a JSON-RPC message to the server `server_name`.
    pub fn route(&self, server_name: &str, message: JsonValue) -> (outcome: Result<
        JsonValue,
        ClawError,
    >)
        ensures
            self.routed(server_name@, message@, outcome),
    {
        match self.get(server_name) {
            Some(server) => server.handle_jsonrpc(message),
            None => Err(
                ClawError::ControlError(
                    String::from_str("Server not found: ").concat(server_name),
                ),
            ),
        }
    }
}

impl McpMessageHandler for SdkMcpServerRegistry {
    fn handle(&self, server_name: &str, message: JsonValue) -> (outcome: Result<
        JsonValue,
        ClawError,
    >)
        ensures
            self.routed(server_name@, message@, outcome),
    {
        self.route(server_name, message)
    }
}

/// A `tools/call` that names a tool which the server does not have is
/// answered with the error for invalid parameters, and no tool runs.
pub proof fn law_unknown_tool(
    server: SdkMcpServerImpl,
    request: Json,
    name: Seq<char>,
    outcome: Result<JsonValue, ClawError>,
)
    requires
        request.text_field("method"@) == Some("tools/call"@),
        request.field("params"@) is Some,
        request.field("params"@)->0.text_field("name"@) == Some(name),
        lookup(server.tools(), name) is None,
        SdkMcpServerImpl::carried_out(server.plan(request), request.member("id"@), outcome),
    ensures
        server.plan(request) is Reply,
        outcome matches Ok(reply) && reply@.member("error"@).member("code"@) == Json::Number(
            JsonNum::Integer(-32602),
        ) && reply@.member("id"@) == request.member("id"@),
{
    reveal_strlit("tools/call");
    reveal_strlit("initialize");
    reveal_strlit("notifications/initialized");
    reveal_strlit("tools/list");
    assert("tools/call"@.len() != "notifications/initialized"@.len());
    assert("tools/call"@[6] != "initialize"@[6]);
    assert("tools/call"@[6] != "tools/list"@[6]);
    lemma_rpc_error_parts(request.member("id"@), -32602, "Tool not found: "@ + name);
}

/// A request with a method that the server does not know is answered with
/// the error for an unknown method.
pub proof fn law_unknown_method(
    server: SdkMcpServerImpl,
    request: Json,
    method: Seq<char>,
    outcome: Result<JsonValue, ClawError>,
)
    requires
        request.text_field("method"@) == Some(method),
        method != "initialize"@,
        method != "notifications/initialized"@,
        method != "tools/list"@,
        method != "tools/call"@,
        SdkMcpServerImpl::carried_out(server.plan(request), request.member("id"@), outcome),
    ensures
        outcome matches Ok(reply) && reply@.member("error"@).member("code"@) == Json::Number(
            JsonNum::Integer(-32601),
        ) && reply@.member("id"@) == request.member("id"@),
{
    lemma_rpc_error_parts(request.member("id"@), -32601, "Method not found: "@ + method);
}

/// A tool whose handler fails is answered with the error for a failed
/// handler, and the message of that error carries the message of the
/// failure.
pub proof fn law_handler_failure(id: Json, error: ClawError, response: Json)
    requires
        reports_failure(id, error, response),
    ensures
        response.member("error"@).member("code"@) == Json::Number(JsonNum::Integer(-32603)),
        response.member("error"@).member("message"@) matches Json::Text(message) && (
        "Tool execution failed: "@ + error.message()).is_prefix_of(message),
        !error.wraps() ==> response.member("error"@).member("message"@) == Json::Text(
            "Tool execution failed: "@ + error.message(),
        ),
        response.member("id"@) == id,
        response.field("result"@) is None,
{
    let text = choose|text: Seq<char>| #[trigger]
        error.says(text) && response == rpc_error(
            id,
            INTERNAL_ERROR as int,
            "Tool execution failed: "@ + text,
        );
    lemma_rpc_error_parts(id, -32603, "Tool execution failed: "@ + text);
    let head = "Tool execution failed: "@;
    let full = head + text;
    assert((head + error.message()) =~= full.subrange(0, (head + error.message()).len() as int)) by {
        assert(error.message().is_prefix_of(text));
        assert(error.message() =~= text.subrange(0, error.message().len() as int));
    }
}

} // verus!
