use crate::assoc::without;
use crate::control::messages::{ControlRequest, ControlResponse, RequestModel, ResponseModel};
use crate::error::ClawError;
use crate::json::codec::{encode, encoded};
use crate::json::{members_of, Json, JsonNum, JsonNumber, JsonObject, JsonValue};
use crate::text::{str_eq, text_of};
use vstd::prelude::*;

verus! {

/// Token counts of a conversation.
#[derive(Debug, Clone, Copy, PartialEq, Eq, Structural)]
pub struct UsageInfo {
    /// Tokens that went in.
    pub input_tokens: u32,
    /// Tokens that came out.
    pub output_tokens: u32,
}

/// A tool that the session offers.
#[derive(Debug, Clone)]
pub struct ToolInfo {
    /// Tool name.
    pub name: String,
    /// Description of the tool.
    pub description: Option<String>,
    /// JSON schema of the tool's input.
    pub input_schema: Option<JsonValue>,
}

/// An MCP server that the session is connected to.
#[derive(Debug, Clone)]
pub struct McpServerInfo {
    /// Server name.
    pub name: String,
    /// The other members of the server's description.
    pub extra: JsonValue,
}

/// An event of a stream of partial messages.
#[derive(Debug, Clone)]
pub struct StreamEvent {
    /// Kind of the event.
    pub event_type: String,
    /// Data of the event.
    pub data: JsonValue,
}

/// One block of the content of a message.
#[derive(Debug, Clone)]
pub enum ContentBlock {
    /// Plain text.
    Text {
        /// The text.
        text: String,
    },
    /// A request to use a tool.
    ToolUse {
        /// Identifier of the tool use.
        id: String,
        /// Name of the tool.
        name: String,
        /// Input of the tool.
        input: JsonValue,
    },
    /// The result of a tool use.
    ToolResult {
        /// Identifier of the tool use.
        tool_use_id: String,
        /// Content of the result.
        content: JsonValue,
        /// Whether the result reports an error.
        is_error: bool,
    },
    /// Thinking of the assistant.
    Thinking {
        /// The thinking.
        thinking: String,
    },
}

/// A message as the API holds it: a role and blocks of content.
#[derive(Debug, Clone)]
pub struct ApiMessage {
    /// The role of the author.
    pub role: String,
    /// The blocks of content.
    pub content: Vec<ContentBlock>,
}

/// A message of the assistant.
#[derive(Debug, Clone)]
pub struct AssistantMessage {
    /// The message.
    pub message: ApiMessage,
    /// The tool use that this message belongs to.
    pub parent_tool_use_id: Option<String>,
    /// How long the message took, in milliseconds.
    pub duration_ms: Option<u64>,
}

/// A message of the user, or a tool result that was fed back.
#[derive(Debug, Clone)]
pub struct UserMessage {
    /// The message.
    pub message: ApiMessage,
}

/// A notice of the system.
#[derive(Debug, Clone)]
pub enum SystemMessage {
    /// The session started.
    Init {
        /// Identifier of the session.
        session_id: String,
        /// The tools of the session.
        tools: Vec<ToolInfo>,
        /// The MCP servers of the session.
        mcp_servers: Vec<McpServerInfo>,
        /// The other members of the notice.
        extra: JsonValue,
    },
    /// The conversation was compacted here.
    CompactBoundary,
}

/// The end of a turn.
#[derive(Debug, Clone)]
pub enum ResultMessage {
    /// The turn succeeded.
    Success {
        /// The result as text.
        result: String,
        /// How long the turn took, in milliseconds.
        duration_ms: Option<u64>,
        /// The number of turns.
        num_turns: Option<u32>,
        /// Identifier of the session.
        session_id: Option<String>,
        /// The cost of the turn in dollars, as the number that came.
        total_cost_usd: Option<JsonNumber>,
        /// Token counts.
        usage: Option<UsageInfo>,
    },
    /// The turn failed.
    Error {
        /// The error message.
        error: String,
        /// The other members of the message.
        extra: JsonValue,
    },
    /// The backend waits for input.
    InputRequired,
}

/// A message of the backend, typed.
#[derive(Debug, Clone)]
pub enum Message {
    /// A notice of the system.
    System(SystemMessage),
    /// A message of the assistant.
    Assistant(AssistantMessage),
    /// A message of the user.
    User(UserMessage),
    /// The end of a turn.
    Result(ResultMessage),
    /// A control request.
    ControlRequest {
        /// Identifier of the request.
        request_id: String,
        /// The request.
        request: ControlRequest,
    },
    /// A control response.
    ControlResponse {
        /// Identifier of the request that is answered.
        request_id: String,
        /// The response.
        response: ControlResponse,
    },
}

/// A tool of the session as a mathematical value.
pub struct ToolInfoModel {
    pub name: Seq<char>,
    pub description: Option<Seq<char>>,
    pub input_schema: Option<Json>,
}

/// An MCP server of the session as a mathematical value.
pub struct McpServerInfoModel {
    pub name: Seq<char>,
    pub extra: Json,
}

/// A stream event as a mathematical value.
pub struct StreamEventModel {
    pub event_type: Seq<char>,
    pub data: Json,
}

/// A block of content as a mathematical value.
pub enum BlockModel {
    Text { text: Seq<char> },
    ToolUse { id: Seq<char>, name: Seq<char>, input: Json },
    ToolResult { tool_use_id: Seq<char>, content: Json, is_error: bool },
    Thinking { thinking: Seq<char> },
}

/// An API message as a mathematical value.
pub struct ApiMessageModel {
    pub role: Seq<char>,
    pub content: Seq<BlockModel>,
}

/// A system notice as a mathematical value.
pub enum SystemModel {
    Init {
        session_id: Seq<char>,
        tools: Seq<ToolInfoModel>,
        mcp_servers: Seq<McpServerInfoModel>,
        extra: Json,
    },
    CompactBoundary,
}

/// The end of a turn as a mathematical value.
pub enum ResultModel {
    Success {
        result: Seq<char>,
        duration_ms: Option<int>,
        num_turns: Option<int>,
        session_id: Option<Seq<char>>,
        total_cost_usd: Option<JsonNum>,
        usage: Option<UsageInfo>,
    },
    Error { error: Seq<char>, extra: Json },
    InputRequired,
}

/// A message of the backend as a mathematical value.
pub enum MessageModel {
    System(SystemModel),
    Assistant {
        message: ApiMessageModel,
        parent_tool_use_id: Option<Seq<char>>,
        duration_ms: Option<int>,
    },
    User { message: ApiMessageModel },
    Result(ResultModel),
    ControlRequest { request_id: Seq<char>, request: RequestModel },
    ControlResponse { request_id: Seq<char>, response: ResponseModel },
}

impl View for ToolInfo {
    type V = ToolInfoModel;

    open spec fn view(&self) -> ToolInfoModel {
        ToolInfoModel {
            name: self.name@,
            description: text_of(self.description),
            input_schema: match self.input_schema {
                Some(schema) => Some(schema@),
                None => None,
            },
        }
    }
}

impl View for McpServerInfo {
    type V = McpServerInfoModel;

    open spec fn view(&self) -> McpServerInfoModel {
        McpServerInfoModel { name: self.name@, extra: self.extra@ }
    }
}

impl View for StreamEvent {
    type V = StreamEventModel;

    open spec fn view(&self) -> StreamEventModel {
        StreamEventModel { event_type: self.event_type@, data: self.data@ }
    }
}

impl View for ContentBlock {
    type V = BlockModel;

    open spec fn view(&self) -> BlockModel {
        match self {
            ContentBlock::Text { text } => BlockModel::Text { text: text@ },
            ContentBlock::ToolUse { id, name, input } => BlockModel::ToolUse {
                id: id@,
                name: name@,
                input: input@,
            },
            ContentBlock::ToolResult { tool_use_id, content, is_error } => BlockModel::ToolResult {
                tool_use_id: tool_use_id@,
                content: content@,
                is_error: *is_error,
            },
            ContentBlock::Thinking { thinking } => BlockModel::Thinking { thinking: thinking@ },
        }
    }
}

impl View for ApiMessage {
    type V = ApiMessageModel;

    open spec fn view(&self) -> ApiMessageModel {
        ApiMessageModel {
            role: self.role@,
            content: self.content@.map_values(|block: ContentBlock| block@),
        }
    }
}

impl View for SystemMessage {
    type V = SystemModel;

    open spec fn view(&self) -> SystemModel {
        match self {
            SystemMessage::Init { session_id, tools, mcp_servers, extra } => SystemModel::Init {
                session_id: session_id@,
                tools: tools@.map_values(|tool: ToolInfo| tool@),
                mcp_servers: mcp_servers@.map_values(|server: McpServerInfo| server@),
                extra: extra@,
            },
            SystemMessage::CompactBoundary => SystemModel::CompactBoundary,
        }
    }
}

/// The view of an optional count.
pub open spec fn count_of<T: Integer>(value: Option<T>) -> Option<int> {
    match value {
        Some(n) => Some(n as int),
        None => None,
    }
}

impl View for ResultMessage {
    type V = ResultModel;

    open spec fn view(&self) -> ResultModel {
        match self {
            ResultMessage::Success {
                result,
                duration_ms,
                num_turns,
                session_id,
                total_cost_usd,
                usage,
            } => ResultModel::Success {
                result: result@,
                duration_ms: count_of(*duration_ms),
                num_turns: count_of(*num_turns),
                session_id: text_of(*session_id),
                total_cost_usd: match total_cost_usd {
                    Some(cost) => Some(cost@),
                    None => None,
                },
                usage: *usage,
            },
            ResultMessage::Error { error, extra } => ResultModel::Error {
                error: error@,
                extra: extra@,
            },
            ResultMessage::InputRequired => ResultModel::InputRequired,
        }
    }
}

impl View for Message {
    type V = MessageModel;

    open spec fn view(&self) -> MessageModel {
        match self {
            Message::System(system) => MessageModel::System(system@),
            Message::Assistant(assistant) => MessageModel::Assistant {
                message: assistant.message@,
                parent_tool_use_id: text_of(assistant.parent_tool_use_id),
                duration_ms: count_of(assistant.duration_ms),
            },
            Message::User(user) => MessageModel::User { message: user.message@ },
            Message::Result(result) => MessageModel::Result(result@),
            Message::ControlRequest { request_id, request } => MessageModel::ControlRequest {
                request_id: request_id@,
                request: request@,
            },
            Message::ControlResponse { request_id, response } => MessageModel::ControlResponse {
                request_id: request_id@,
                response: response@,
            },
        }
    }
}

/// The usage that a wire object stands for.
pub open spec fn parsed_usage(document: Json) -> Option<UsageInfo> {
    match (
        document.count_field("input_tokens"@, u32::MAX as int),
        document.count_field("output_tokens"@, u32::MAX as int),
    ) {
        (Some(input), Some(output)) => Some(
            UsageInfo { input_tokens: input as u32, output_tokens: output as u32 },
        ),
        _ => None,
    }
}

/// The optional usage of a result: none where the member is missing or
/// `null`.
pub open spec fn parsed_optional_usage(document: Json) -> Option<Option<UsageInfo>> {
    match document.field("usage"@) {
        None => Some(None),
        Some(Json::Null) => Some(None),
        Some(usage) => match parsed_usage(usage) {
            Some(usage) => Some(Some(usage)),
            None => None,
        },
    }
}

/// The optional cost of a result: none where the member is missing or
/// `null`, and else any number.
pub open spec fn parsed_cost(document: Json) -> Option<Option<JsonNum>> {
    match document.field("total_cost_usd"@) {
        None => Some(None),
        Some(Json::Null) => Some(None),
        Some(Json::Number(cost)) => Some(Some(cost)),
        Some(_) => None,
    }
}

/// The tool that a wire object stands for.
pub open spec fn parsed_tool(document: Json) -> Option<ToolInfoModel> {
    match (document.text_field("name"@), document.optional_text("description"@)) {
        (Some(name), Some(description)) => Some(
            ToolInfoModel {
                name,
                description,
                input_schema: match document.field("input_schema"@) {
                    None => None,
                    Some(Json::Null) => None,
                    Some(schema) => Some(schema),
                },
            },
        ),
        _ => None,
    }
}

/// The MCP server that a wire object stands for.
pub open spec fn parsed_server(document: Json) -> Option<McpServerInfoModel> {
    match document.text_field("name"@) {
        Some(name) => Some(
            McpServerInfoModel { name, extra: Json::Object(without(members_of(document), "name"@)) },
        ),
        None => None,
    }
}

/// The stream event that a wire object stands for.
pub open spec fn parsed_event(document: Json) -> Option<StreamEventModel> {
    match (document.text_field("event_type"@), document.field("data"@)) {
        (Some(event_type), Some(data)) => Some(StreamEventModel { event_type, data }),
        _ => None,
    }
}

/// The block of content that a wire object stands for, by its member `type`.
pub open spec fn parsed_block(document: Json) -> Option<BlockModel> {
    match document.text_field("type"@) {
        Some(kind) => if kind == "text"@ {
            match document.text_field("text"@) {
                Some(text) => Some(BlockModel::Text { text }),
                None => None,
            }
        } else if kind == "tool_use"@ {
            match (document.text_field("id"@), document.text_field("name"@), document.field("input"@)) {
                (Some(id), Some(name), Some(input)) => Some(BlockModel::ToolUse { id, name, input }),
                _ => None,
            }
        } else if kind == "tool_result"@ {
            match (
                document.text_field("tool_use_id"@),
                document.field("content"@),
                crate::control::messages::parsed_flag(document, "is_error"@),
            ) {
                (Some(tool_use_id), Some(content), Some(is_error)) => Some(
                    BlockModel::ToolResult { tool_use_id, content, is_error },
                ),
                _ => None,
            }
        } else if kind == "thinking"@ {
            match document.text_field("thinking"@) {
                Some(thinking) => Some(BlockModel::Thinking { thinking }),
                None => None,
            }
        } else {
            None
        },
        None => None,
    }
}

/// The blocks that a wire array stands for.
pub open spec fn parsed_blocks(document: Json) -> Option<Seq<BlockModel>> {
    match document {
        Json::Array(items) => if forall|i: int|
            0 <= i < items.len() ==> parsed_block(#[trigger] items[i]) is Some {
            Some(Seq::new(items.len(), |i: int| parsed_block(items[i])->0))
        } else {
            None
        },
        _ => None,
    }
}

/// The tools that a wire array stands for.
pub open spec fn parsed_tools(document: Json) -> Option<Seq<ToolInfoModel>> {
    match document {
        Json::Array(items) => if forall|i: int|
            0 <= i < items.len() ==> parsed_tool(#[trigger] items[i]) is Some {
            Some(Seq::new(items.len(), |i: int| parsed_tool(items[i])->0))
        } else {
            None
        },
        _ => None,
    }
}

/// The MCP servers that a wire array stands for.
pub open spec fn parsed_servers(document: Json) -> Option<Seq<McpServerInfoModel>> {
    match document {
        Json::Array(items) => if forall|i: int|
            0 <= i < items.len() ==> parsed_server(#[trigger] items[i]) is Some {
            Some(Seq::new(items.len(), |i: int| parsed_server(items[i])->0))
        } else {
            None
        },
        _ => None,
    }
}

/// The API message that a wire object stands for.
pub open spec fn parsed_api_message(document: Json) -> Option<ApiMessageModel> {
    match (document.text_field("role"@), document.field("content"@)) {
        (Some(role), Some(content)) => match parsed_blocks(content) {
            Some(content) => Some(ApiMessageModel { role, content }),
            None => None,
        },
        _ => None,
    }
}

/// The API message in the member `message` of a document.
pub open spec fn parsed_inner_message(document: Json) -> Option<ApiMessageModel> {
    match document.field("message"@) {
        Some(message) => parsed_api_message(message),
        None => None,
    }
}

/// The members of a system notice that no field takes.
pub open spec fn init_extra(document: Json) -> Json {
    Json::Object(
        without(
            without(
                without(without(without(members_of(document), "type"@), "subtype"@), "session_id"@),
                "tools"@,
            ),
            "mcp_servers"@,
        ),
    )
}

/// The system notice that a wire object stands for, by its member `subtype`.
pub open spec fn parsed_system(document: Json) -> Option<SystemModel> {
    match document.text_field("subtype"@) {
        Some(tag) => if tag == "init"@ {
            match (
                document.text_field("session_id"@),
                document.field("tools"@),
                document.field("mcp_servers"@),
            ) {
                (Some(session_id), Some(tools), Some(servers)) => match (
                    parsed_tools(tools),
                    parsed_servers(servers),
                ) {
                    (Some(tools), Some(mcp_servers)) => Some(
                        SystemModel::Init {
                            session_id,
                            tools,
                            mcp_servers,
                            extra: init_extra(document),
                        },
                    ),
                    _ => None,
                },
                _ => None,
            }
        } else if tag == "compact_boundary"@ {
            Some(SystemModel::CompactBoundary)
        } else {
            None
        },
        None => None,
    }
}

/// The members of a failed result that no field takes.
pub open spec fn error_extra(document: Json) -> Json {
    Json::Object(without(without(without(members_of(document), "type"@), "subtype"@), "error"@))
}

/// The successful result that a wire object stands for.
pub open spec fn parsed_success(document: Json) -> Option<ResultModel> {
    match (
        document.text_field("result"@),
        document.optional_count("duration_ms"@, u64::MAX as int),
        document.optional_count("num_turns"@, u32::MAX as int),
        document.optional_text("session_id"@),
        parsed_cost(document),
        parsed_optional_usage(document),
    ) {
        (
            Some(result),
            Some(duration_ms),
            Some(num_turns),
            Some(session_id),
            Some(total_cost_usd),
            Some(usage),
        ) => Some(
            ResultModel::Success {
                result,
                duration_ms,
                num_turns,
                session_id,
                total_cost_usd,
                usage,
            },
        ),
        _ => None,
    }
}

/// The end of a turn that a wire object stands for, by its member `subtype`.
pub open spec fn parsed_result(document: Json) -> Option<ResultModel> {
    match document.text_field("subtype"@) {
        Some(tag) => if tag == "success"@ {
            parsed_success(document)
        } else if tag == "error"@ {
            match document.text_field("error"@) {
                Some(error) => Some(ResultModel::Error { error, extra: error_extra(document) }),
                None => None,
            }
        } else if tag == "input_required"@ {
            Some(ResultModel::InputRequired)
        } else {
            None
        },
        None => None,
    }
}

/// What is left of a control message for the request or the response in it:
/// the members without `type` and `request_id`.
pub open spec fn control_rest(document: Json) -> Json {
    Json::Object(without(without(members_of(document), "type"@), "request_id"@))
}

/// The message that a wire document stands for, by its member `type`.
pub open spec fn parsed_message(document: Json) -> Option<MessageModel> {
    match document.text_field("type"@) {
        Some(kind) => if kind == "system"@ {
            match parsed_system(document) {
                Some(system) => Some(MessageModel::System(system)),
                None => None,
            }
        } else if kind == "assistant"@ {
            match (
                parsed_inner_message(document),
                document.optional_text("parent_tool_use_id"@),
                document.optional_count("duration_ms"@, u64::MAX as int),
            ) {
                (Some(message), Some(parent_tool_use_id), Some(duration_ms)) => Some(
                    MessageModel::Assistant { message, parent_tool_use_id, duration_ms },
                ),
                _ => None,
            }
        } else if kind == "user"@ {
            match parsed_inner_message(document) {
                Some(message) => Some(MessageModel::User { message }),
                None => None,
            }
        } else if kind == "result"@ {
            match parsed_result(document) {
                Some(result) => Some(MessageModel::Result(result)),
                None => None,
            }
        } else if kind == "control_request"@ {
            match (document.text_field("request_id"@), RequestModel::parsed(control_rest(document))) {
                (Some(request_id), Some(request)) => Some(
                    MessageModel::ControlRequest { request_id, request },
                ),
                _ => None,
            }
        } else if kind == "control_response"@ {
            match (
                document.text_field("request_id"@),
                ResponseModel::parsed(control_rest(document)),
            ) {
                (Some(request_id), Some(response)) => Some(
                    MessageModel::ControlResponse { request_id, response },
                ),
                _ => None,
            }
        } else {
            None
        },
        None => None,
    }
}

impl UsageInfo {
    /// Reads token counts from their wire object.
    pub fn from_json(document: &JsonValue) -> (usage: Option<UsageInfo>)
        ensures
            usage == parsed_usage(document@),
    {
        match (document.get_u32("input_tokens"), document.get_u32("output_tokens")) {
            (Some(input_tokens), Some(output_tokens)) => Some(
                UsageInfo { input_tokens, output_tokens },
            ),
            _ => None,
        }
    }
}

fn rest_of(document: &JsonValue) -> (object: JsonObject)
    ensures
        object@ == members_of(document@),
{
    match document {
        JsonValue::Object(object) => object.clone(),
        _ => JsonObject::new(),
    }
}

impl ToolInfo {
    /// Reads a tool from its wire object.
    pub fn from_json(document: &JsonValue) -> (tool: Option<ToolInfo>)
        ensures
            match parsed_tool(document@) {
                Some(model) => tool is Some && tool->0@ == model,
                None => tool is None,
            },
    {
        let name = match document.get_str("name") {
            Some(name) => String::from_str(name),
            None => {
                return None;
            },
        };
        let description = match document.get_optional_str("description") {
            Some(description) => description,
            None => {
                return None;
            },
        };
        let input_schema = match document.get("input_schema") {
            None => None,
            Some(JsonValue::Null) => None,
            Some(schema) => Some(schema.clone()),
        };
        Some(ToolInfo { name, description, input_schema })
    }
}

impl McpServerInfo {
    /// Reads an MCP server from its wire object.
    pub fn from_json(document: &JsonValue) -> (server: Option<McpServerInfo>)
        ensures
            match parsed_server(document@) {
                Some(model) => server is Some && server->0@ == model,
                None => server is None,
            },
    {
        let name = match document.get_str("name") {
            Some(name) => String::from_str(name),
            None => {
                return None;
            },
        };
        let mut extra = rest_of(document);
        extra.remove("name");
        Some(McpServerInfo { name, extra: JsonValue::Object(extra) })
    }
}

impl StreamEvent {
    /// Reads a stream event from its wire object.
    pub fn from_json(document: &JsonValue) -> (event: Option<StreamEvent>)
        ensures
            match parsed_event(document@) {
                Some(model) => event is Some && event->0@ == model,
                None => event is None,
            },
    {
        match (document.get_str("event_type"), document.get("data")) {
            (Some(event_type), Some(data)) => Some(
                StreamEvent { event_type: String::from_str(event_type), data: data.clone() },
            ),
            _ => None,
        }
    }
}

impl ContentBlock {
    /// Reads a block of content from its wire object.
    pub fn from_json(document: &JsonValue) -> (block: Option<ContentBlock>)
        ensures
            match parsed_block(document@) {
                Some(model) => block is Some && block->0@ == model,
                None => block is None,
            },
    {
        let kind = match document.get_str("type") {
            Some(kind) => kind,
            None => {
                return None;
            },
        };
        if str_eq(kind, "text") {
            match document.get_str("text") {
                Some(text) => Some(ContentBlock::Text { text: String::from_str(text) }),
                None => None,
            }
        } else if str_eq(kind, "tool_use") {
            match (document.get_str("id"), document.get_str("name"), document.get("input")) {
                (Some(id), Some(name), Some(input)) => Some(
                    ContentBlock::ToolUse {
                        id: String::from_str(id),
                        name: String::from_str(name),
                        input: input.clone(),
                    },
                ),
                _ => None,
            }
        } else if str_eq(kind, "tool_result") {
            let is_error = match document.get("is_error") {
                None => Some(false),
                Some(JsonValue::Bool(flag)) => Some(*flag),
                Some(_) => None,
            };
            match (document.get_str("tool_use_id"), document.get("content"), is_error) {
                (Some(tool_use_id), Some(content), Some(is_error)) => Some(
                    ContentBlock::ToolResult {
                        tool_use_id: String::from_str(tool_use_id),
                        content: content.clone(),
                        is_error,
                    },
                ),
                _ => None,
            }
        } else if str_eq(kind, "thinking") {
            match document.get_str("thinking") {
                Some(thinking) => Some(
                    ContentBlock::Thinking { thinking: String::from_str(thinking) },
                ),
                None => None,
            }
        } else {
            None
        }
    }
}

fn blocks_from_json(document: &JsonValue) -> (blocks: Option<Vec<ContentBlock>>)
    ensures
        match parsed_blocks(document@) {
            Some(models) => blocks is Some && blocks->0@.map_values(|b: ContentBlock| b@)
                == models,
            None => blocks is None,
        },
{
    let items = match document.as_array() {
        Some(items) => items,
        None => {
            return None;
        },
    };
    let ghost sources = document@->Array_0;
    let mut blocks: Vec<ContentBlock> = Vec::new();
    let mut i: usize = 0;
    while i < items.len()
        invariant
            document@ == Json::Array(sources),
            sources.len() == items@.len(),
            forall|k: int| 0 <= k < items@.len() ==> (#[trigger] items@[k])@ == sources[k],
            i <= items@.len(),
            blocks@.len() == i,
            forall|k: int| 0 <= k < i ==> parsed_block(#[trigger] sources[k]) is Some,
            forall|k: int| 0 <= k < i ==> (#[trigger] blocks@[k])@ == parsed_block(sources[k])->0,
        decreases items@.len() - i,
    {
        match ContentBlock::from_json(&items[i]) {
            Some(block) => {
                blocks.push(block);
            },
            None => {
                assert(parsed_block(sources[i as int]) is None);
                return None;
            },
        }
        i += 1;
    }
    assert(blocks@.map_values(|b: ContentBlock| b@) =~= parsed_blocks(document@)->0);
    Some(blocks)
}

fn tools_from_json(document: &JsonValue) -> (tools: Option<Vec<ToolInfo>>)
    ensures
        match parsed_tools(document@) {
            Some(models) => tools is Some && tools->0@.map_values(|t: ToolInfo| t@) == models,
            None => tools is None,
        },
{
    let items = match document.as_array() {
        Some(items) => items,
        None => {
            return None;
        },
    };
    let ghost sources = document@->Array_0;
    let mut tools: Vec<ToolInfo> = Vec::new();
    let mut i: usize = 0;
    while i < items.len()
        invariant
            document@ == Json::Array(sources),
            sources.len() == items@.len(),
            forall|k: int| 0 <= k < items@.len() ==> (#[trigger] items@[k])@ == sources[k],
            i <= items@.len(),
            tools@.len() == i,
            forall|k: int| 0 <= k < i ==> parsed_tool(#[trigger] sources[k]) is Some,
            forall|k: int| 0 <= k < i ==> (#[trigger] tools@[k])@ == parsed_tool(sources[k])->0,
        decreases items@.len() - i,
    {
        match ToolInfo::from_json(&items[i]) {
            Some(tool) => {
                tools.push(tool);
            },
            None => {
                assert(parsed_tool(sources[i as int]) is None);
                return None;
            },
        }
        i += 1;
    }
    assert(tools@.map_values(|t: ToolInfo| t@) =~= parsed_tools(document@)->0);
    Some(tools)
}

fn servers_from_json(document: &JsonValue) -> (servers: Option<Vec<McpServerInfo>>)
    ensures
        match parsed_servers(document@) {
            Some(models) => servers is Some && servers->0@.map_values(|s: McpServerInfo| s@)
                == models,
            None => servers is None,
        },
{
    let items = match document.as_array() {
        Some(items) => items,
        None => {
            return None;
        },
    };
    let ghost sources = document@->Array_0;
    let mut servers: Vec<McpServerInfo> = Vec::new();
    let mut i: usize = 0;
    while i < items.len()
        invariant
            document@ == Json::Array(sources),
            sources.len() == items@.len(),
            forall|k: int| 0 <= k < items@.len() ==> (#[trigger] items@[k])@ == sources[k],
            i <= items@.len(),
            servers@.len() == i,
            forall|k: int| 0 <= k < i ==> parsed_server(#[trigger] sources[k]) is Some,
            forall|k: int|
                0 <= k < i ==> (#[trigger] servers@[k])@ == parsed_server(sources[k])->0,
        decreases items@.len() - i,
    {
        match McpServerInfo::from_json(&items[i]) {
            Some(server) => {
                servers.push(server);
            },
            None => {
                assert(parsed_server(sources[i as int]) is None);
                return None;
            },
        }
        i += 1;
    }
    assert(servers@.map_values(|s: McpServerInfo| s@) =~= parsed_servers(document@)->0);
    Some(servers)
}

impl ApiMessage {
    /// Reads an API message from its wire object.
    pub fn from_json(document: &JsonValue) -> (message: Option<ApiMessage>)
        ensures
            match parsed_api_message(document@) {
                Some(model) => message is Some && message->0@ == model,
                None => message is None,
            },
    {
        match (document.get_str("role"), document.get("content")) {
            (Some(role), Some(content)) => match blocks_from_json(content) {
                Some(content) => Some(ApiMessage { role: String::from_str(role), content }),
                None => None,
            },
            _ => None,
        }
    }
}

fn inner_message(document: &JsonValue) -> (message: Option<ApiMessage>)
    ensures
        match parsed_inner_message(document@) {
            Some(model) => message is Some && message->0@ == model,
            None => message is None,
        },
{
    match document.get("message") {
        Some(message) => ApiMessage::from_json(message),
        None => None,
    }
}

impl SystemMessage {
    /// Reads a system notice from its wire object.
    pub fn from_json(document: &JsonValue) -> (system: Option<SystemMessage>)
        ensures
            match parsed_system(document@) {
                Some(model) => system is Some && system->0@ == model,
                None => system is None,
            },
    {
        let tag = match document.get_str("subtype") {
            Some(tag) => tag,
            None => {
                return None;
            },
        };
        if str_eq(tag, "init") {
            match (document.get_str("session_id"), document.get("tools"), document.get("mcp_servers")) {
                (Some(session_id), Some(tools), Some(servers)) => match (
                    tools_from_json(tools),
                    servers_from_json(servers),
                ) {
                    (Some(tools), Some(mcp_servers)) => {
                        let mut extra = rest_of(document);
                        extra.remove("type");
                        extra.remove("subtype");
                        extra.remove("session_id");
                        extra.remove("tools");
                        extra.remove("mcp_servers");
                        Some(
                            SystemMessage::Init {
                                session_id: String::from_str(session_id),
                                tools,
                                mcp_servers,
                                extra: JsonValue::Object(extra),
                            },
                        )
                    },
                    _ => None,
                },
                _ => None,
            }
        } else if str_eq(tag, "compact_boundary") {
            Some(SystemMessage::CompactBoundary)
        } else {
            None
        }
    }
}

impl ResultMessage {
    fn success_from_json(document: &JsonValue) -> (result: Option<ResultMessage>)
        ensures
            match parsed_success(document@) {
                Some(model) => result is Some && result->0@ == model,
                None => result is None,
            },
    {
        let text = match document.get_str("result") {
            Some(text) => String::from_str(text),
            None => {
                return None;
            },
        };
        let duration_ms = match document.get_optional_u64("duration_ms") {
            Some(duration_ms) => duration_ms,
            None => {
                return None;
            },
        };
        let num_turns = match document.get_optional_u32("num_turns") {
            Some(num_turns) => num_turns,
            None => {
                return None;
            },
        };
        let session_id = match document.get_optional_str("session_id") {
            Some(session_id) => session_id,
            None => {
                return None;
            },
        };
        let total_cost_usd = match document.get("total_cost_usd") {
            None => None,
            Some(JsonValue::Null) => None,
            Some(JsonValue::Number(cost)) => Some(cost.clone()),
            Some(_) => {
                return None;
            },
        };
        let usage = match document.get("usage") {
            None => None,
            Some(JsonValue::Null) => None,
            Some(usage) => match UsageInfo::from_json(usage) {
                Some(usage) => Some(usage),
                None => {
                    return None;
                },
            },
        };
        Some(
            ResultMessage::Success {
                result: text,
                duration_ms,
                num_turns,
                session_id,
                total_cost_usd,
                usage,
            },
        )
    }

    /// Reads the end of a turn from its wire object.
    pub fn from_json(document: &JsonValue) -> (result: Option<ResultMessage>)
        ensures
            match parsed_result(document@) {
                Some(model) => result is Some && result->0@ == model,
                None => result is None,
            },
    {
        let tag = match document.get_str("subtype") {
            Some(tag) => tag,
            None => {
                return None;
            },
        };
        if str_eq(tag, "success") {
            ResultMessage::success_from_json(document)
        } else if str_eq(tag, "error") {
            match document.get_str("error") {
                Some(error) => {
                    let mut extra = rest_of(document);
                    extra.remove("type");
                    extra.remove("subtype");
                    extra.remove("error");
                    Some(
                        ResultMessage::Error {
                            error: String::from_str(error),
                            extra: JsonValue::Object(extra),
                        },
                    )
                },
                None => None,
            }
        } else if str_eq(tag, "input_required") {
            Some(ResultMessage::InputRequired)
        } else {
            None
        }
    }
}

fn control_rest_of(document: &JsonValue) -> (rest: JsonValue)
    ensures
        rest@ == control_rest(document@),
{
    let mut rest = rest_of(document);
    rest.remove("type");
    rest.remove("request_id");
    JsonValue::Object(rest)
}

impl Message {
    /// Reads a typed message from a document of the backend.
    pub fn from_json(document: &JsonValue) -> (message: Option<Message>)
        ensures
            match parsed_message(document@) {
                Some(model) => message is Some && message->0@ == model,
                None => message is None,
            },
    {
        let kind = match document.get_str("type") {
            Some(kind) => kind,
            None => {
                return None;
            },
        };
        if str_eq(kind, "system") {
            match SystemMessage::from_json(document) {
                Some(system) => Some(Message::System(system)),
                None => None,
            }
        } else if str_eq(kind, "assistant") {
            match (
                inner_message(document),
                document.get_optional_str("parent_tool_use_id"),
                document.get_optional_u64("duration_ms"),
            ) {
                (Some(message), Some(parent_tool_use_id), Some(duration_ms)) => Some(
                    Message::Assistant(AssistantMessage { message, parent_tool_use_id, duration_ms }),
                ),
                _ => None,
            }
        } else if str_eq(kind, "user") {
            match inner_message(document) {
                Some(message) => Some(Message::User(UserMessage { message })),
                None => None,
            }
        } else if str_eq(kind, "result") {
            match ResultMessage::from_json(document) {
                Some(result) => Some(Message::Result(result)),
                None => None,
            }
        } else if str_eq(kind, "control_request") {
            let rest = control_rest_of(document);
            match (document.get_str("request_id"), ControlRequest::from_json(&rest)) {
                (Some(request_id), Some(request)) => Some(
                    Message::ControlRequest { request_id: String::from_str(request_id), request },
                ),
                _ => None,
            }
        } else if str_eq(kind, "control_response") {
            let rest = control_rest_of(document);
            match (document.get_str("request_id"), ControlResponse::from_json(&rest)) {
                (Some(request_id), Some(response)) => Some(
                    Message::ControlResponse { request_id: String::from_str(request_id), response },
                ),
                _ => None,
            }
        } else {
            None
        }
    }
}

/// The reason that the error for a document names which is no message.
pub open spec fn parse_failure() -> Seq<char> {
    "Failed to parse message: the document does not fit the schema of a message"@
}

/// What the stream of responses makes of one item of the inbound channel: an
/// error stays as it is; a document becomes the typed message it stands for,
/// or the parse error that holds the document as text.
pub open spec fn typed(item: Result<JsonValue, ClawError>, out: Result<Message, ClawError>) -> bool {
    match item {
        Err(error) => out == Err::<Message, ClawError>(error),
        Ok(document) => match parsed_message(document@) {
            Some(model) => out matches Ok(message) && message@ == model,
            None => out matches Err(ClawError::MessageParse { reason, raw }) && reason@
                == parse_failure() && raw@ == encoded(document@),
        },
    }
}

/// Turns one item of the inbound channel into an item of the stream of
/// responses.
pub fn parse_item(item: Result<JsonValue, ClawError>) -> (out: Result<Message, ClawError>)
    ensures
        typed(item, out),
{
    match item {
        Err(error) => Err(error),
        Ok(document) => match Message::from_json(&document) {
            Some(message) => Ok(message),
            None => Err(
                ClawError::MessageParse {
                    reason: String::from_str(
                        "Failed to parse message: the document does not fit the schema of a message",
                    ),
                    raw: encode(&document),
                },
            ),
        },
    }
}

/// A count as a JSON number, and `null` where there is none.
pub open spec fn count_or_null(count: Option<int>) -> Json {
    match count {
        Some(n) => Json::Number(JsonNum::Integer(n)),
        None => Json::Null,
    }
}

/// A text as a JSON string, and `null` where there is none.
pub open spec fn string_or_null(text: Option<Seq<char>>) -> Json {
    match text {
        Some(text) => Json::Text(text),
        None => Json::Null,
    }
}

/// A document, and `null` where there is none.
pub open spec fn json_or_null(document: Option<Json>) -> Json {
    match document {
        Some(document) => document,
        None => Json::Null,
    }
}

fn count_json(count: Option<u64>) -> (document: JsonValue)
    ensures
        document@ == count_or_null(count_of(count)),
{
    match count {
        Some(n) => JsonValue::unsigned(n),
        None => JsonValue::Null,
    }
}

fn string_json(text: &Option<String>) -> (document: JsonValue)
    ensures
        document@ == string_or_null(text_of(*text)),
{
    match text {
        Some(text) => JsonValue::text(text.as_str()),
        None => JsonValue::Null,
    }
}

impl UsageInfo {
    /// These token counts on the wire.
    pub open spec fn wire(self) -> Json {
        Json::Object(
            crate::assoc::upsert(
                seq![("input_tokens"@, Json::Number(JsonNum::Integer(self.input_tokens as int)))],
                "output_tokens"@,
                Json::Number(JsonNum::Integer(self.output_tokens as int)),
            ),
        )
    }

    /// Builds the object that stands for these token counts on the wire.
    pub fn to_json(&self) -> (document: JsonValue)
        ensures
            document@ == self.wire(),
    {
        let mut object = JsonObject::new();
        object.insert(String::from_str("input_tokens"), JsonValue::unsigned(self.input_tokens as u64));
        assert(object@ =~= seq![
            ("input_tokens"@, Json::Number(JsonNum::Integer(self.input_tokens as int))),
        ]);
        object.insert(
            String::from_str("output_tokens"),
            JsonValue::unsigned(self.output_tokens as u64),
        );
        JsonValue::Object(object)
    }
}

impl ToolInfoModel {
    /// The members of this tool on the wire.
    pub open spec fn wire_members(self) -> Seq<(Seq<char>, Json)> {
        crate::assoc::upsert(
            crate::assoc::upsert(
                crate::assoc::upsert(Seq::empty(), "name"@, Json::Text(self.name)),
                "description"@,
                string_or_null(self.description),
            ),
            "input_schema"@,
            json_or_null(self.input_schema),
        )
    }
}

impl ToolInfo {
    /// Builds the object that stands for this tool on the wire.
    pub fn to_json(&self) -> (document: JsonValue)
        ensures
            document@ == Json::Object(self@.wire_members()),
    {
        let mut object = JsonObject::new();
        object.insert(String::from_str("name"), JsonValue::text(self.name.as_str()));
        object.insert(String::from_str("description"), string_json(&self.description));
        let schema = match &self.input_schema {
            Some(schema) => schema.clone(),
            None => JsonValue::Null,
        };
        object.insert(String::from_str("input_schema"), schema);
        JsonValue::Object(object)
    }
}

impl McpServerInfoModel {
    /// The members of this server on the wire: its name, then its other
    /// members set over that.
    pub open spec fn wire_members(self) -> Seq<(Seq<char>, Json)> {
        crate::assoc::merged(
            crate::assoc::upsert(Seq::empty(), "name"@, Json::Text(self.name)),
            members_of(self.extra),
        )
    }
}

impl McpServerInfo {
    /// Builds the object that stands for this server on the wire.
    pub fn to_json(&self) -> (document: JsonValue)
        ensures
            document@ == Json::Object(self@.wire_members()),
    {
        let mut object = JsonObject::new();
        object.insert(String::from_str("name"), JsonValue::text(self.name.as_str()));
        object.merge(&self.extra);
        JsonValue::Object(object)
    }
}

impl StreamEventModel {
    /// The members of this event on the wire.
    pub open spec fn wire_members(self) -> Seq<(Seq<char>, Json)> {
        crate::assoc::upsert(
            crate::assoc::upsert(Seq::empty(), "event_type"@, Json::Text(self.event_type)),
            "data"@,
            self.data,
        )
    }
}

impl StreamEvent {
    /// Builds the object that stands for this event on the wire.
    pub fn to_json(&self) -> (document: JsonValue)
        ensures
            document@ == Json::Object(self@.wire_members()),
    {
        let mut object = JsonObject::new();
        object.insert(String::from_str("event_type"), JsonValue::text(self.event_type.as_str()));
        object.insert(String::from_str("data"), self.data.clone());
        JsonValue::Object(object)
    }
}

/// The members of an object that holds its kind and one text.
pub open spec fn kind_with(kind: Seq<char>, key: Seq<char>, text: Seq<char>) -> Seq<
    (Seq<char>, Json),
> {
    crate::assoc::upsert(
        crate::assoc::upsert(Seq::empty(), "type"@, Json::Text(kind)),
        key,
        Json::Text(text),
    )
}

impl BlockModel {
    /// The members of this block on the wire.
    pub open spec fn wire_members(self) -> Seq<(Seq<char>, Json)> {
        match self {
            BlockModel::Text { text } => kind_with("text"@, "text"@, text),
            BlockModel::ToolUse { id, name, input } => crate::assoc::upsert(
                crate::assoc::upsert(kind_with("tool_use"@, "id"@, id), "name"@, Json::Text(name)),
                "input"@,
                input,
            ),
            BlockModel::ToolResult { tool_use_id, content, is_error } => crate::assoc::upsert(
                crate::assoc::upsert(
                    kind_with("tool_result"@, "tool_use_id"@, tool_use_id),
                    "content"@,
                    content,
                ),
                "is_error"@,
                Json::Bool(is_error),
            ),
            BlockModel::Thinking { thinking } => kind_with("thinking"@, "thinking"@, thinking),
        }
    }
}

fn kind_and_text(kind: &str, key: &str, text: &str) -> (object: JsonObject)
    ensures
        object@ == kind_with(kind@, key@, text@),
{
    let mut object = JsonObject::new();
    object.insert(String::from_str("type"), JsonValue::text(kind));
    object.insert(String::from_str(key), JsonValue::text(text));
    object
}

impl ContentBlock {
    /// Builds the object that stands for this block on the wire.
    pub fn to_json(&self) -> (document: JsonValue)
        ensures
            document@ == Json::Object(self@.wire_members()),
    {
        match self {
            ContentBlock::Text { text } => JsonValue::Object(
                kind_and_text("text", "text", text.as_str()),
            ),
            ContentBlock::ToolUse { id, name, input } => {
                let mut object = kind_and_text("tool_use", "id", id.as_str());
                object.insert(String::from_str("name"), JsonValue::text(name.as_str()));
                object.insert(String::from_str("input"), input.clone());
                JsonValue::Object(object)
            },
            ContentBlock::ToolResult { tool_use_id, content, is_error } => {
                let mut object = kind_and_text("tool_result", "tool_use_id", tool_use_id.as_str());
                object.insert(String::from_str("content"), content.clone());
                object.insert(String::from_str("is_error"), JsonValue::Bool(*is_error));
                JsonValue::Object(object)
            },
            ContentBlock::Thinking { thinking } => JsonValue::Object(
                kind_and_text("thinking", "thinking", thinking.as_str()),
            ),
        }
    }
}

impl ApiMessageModel {
    /// This message on the wire.
    pub open spec fn wire(self) -> Json {
        Json::Object(
            crate::assoc::upsert(
                crate::assoc::upsert(Seq::empty(), "role"@, Json::Text(self.role)),
                "content"@,
                Json::Array(self.content.map_values(|b: BlockModel| Json::Object(b.wire_members()))),
            ),
        )
    }
}

impl ApiMessage {
    /// Builds the object that stands for this message on the wire.
    pub fn to_json(&self) -> (document: JsonValue)
        ensures
            document@ == self@.wire(),
    {
        let mut blocks: Vec<JsonValue> = Vec::new();
        let mut i: usize = 0;
        while i < self.content.len()
            invariant
                i <= self.content@.len(),
                blocks@.len() == i,
                forall|k: int|
                    0 <= k < i ==> (#[trigger] blocks@[k])@ == Json::Object(
                        self.content@[k]@.wire_members(),
                    ),
            decreases self.content@.len() - i,
        {
            blocks.push(self.content[i].to_json());
            i += 1;
        }
        let content = JsonValue::Array(blocks);
        assert(content@->Array_0 =~= self@.content.map_values(
            |b: BlockModel| Json::Object(b.wire_members()),
        ));
        let mut object = JsonObject::new();
        object.insert(String::from_str("role"), JsonValue::text(self.role.as_str()));
        object.insert(String::from_str("content"), content);
        let document = JsonValue::Object(object);
        assert(document@->Object_0 =~= self@.wire()->Object_0);
        document
    }
}

impl SystemModel {
    /// The members of this notice on the wire, after the member `type`.
    pub open spec fn wire_members(self, start: Seq<(Seq<char>, Json)>) -> Seq<(Seq<char>, Json)> {
        match self {
            SystemModel::Init { session_id, tools, mcp_servers, extra } => crate::assoc::merged(
                crate::assoc::upsert(
                    crate::assoc::upsert(
                        crate::assoc::upsert(
                            crate::assoc::upsert(start, "subtype"@, Json::Text("init"@)),
                            "session_id"@,
                            Json::Text(session_id),
                        ),
                        "tools"@,
                        Json::Array(
                            tools.map_values(|t: ToolInfoModel| Json::Object(t.wire_members())),
                        ),
                    ),
                    "mcp_servers"@,
                    Json::Array(
                        mcp_servers.map_values(
                            |s: McpServerInfoModel| Json::Object(s.wire_members()),
                        ),
                    ),
                ),
                members_of(extra),
            ),
            SystemModel::CompactBoundary => crate::assoc::upsert(
                start,
                "subtype"@,
                Json::Text("compact_boundary"@),
            ),
        }
    }
}

fn tools_json(tools: &Vec<ToolInfo>) -> (document: JsonValue)
    ensures
        document@ == Json::Array(
            tools@.map_values(|t: ToolInfo| t@).map_values(
                |t: ToolInfoModel| Json::Object(t.wire_members()),
            ),
        ),
{
    let mut items: Vec<JsonValue> = Vec::new();
    let mut i: usize = 0;
    while i < tools.len()
        invariant
            i <= tools@.len(),
            items@.len() == i,
            forall|k: int|
                0 <= k < i ==> (#[trigger] items@[k])@ == Json::Object(tools@[k]@.wire_members()),
        decreases tools@.len() - i,
    {
        items.push(tools[i].to_json());
        i += 1;
    }
    let document = JsonValue::Array(items);
    assert(document@->Array_0 =~= tools@.map_values(|t: ToolInfo| t@).map_values(
        |t: ToolInfoModel| Json::Object(t.wire_members()),
    ));
    document
}

fn servers_json(servers: &Vec<McpServerInfo>) -> (document: JsonValue)
    ensures
        document@ == Json::Array(
            servers@.map_values(|s: McpServerInfo| s@).map_values(
                |s: McpServerInfoModel| Json::Object(s.wire_members()),
            ),
        ),
{
    let mut items: Vec<JsonValue> = Vec::new();
    let mut i: usize = 0;
    while i < servers.len()
        invariant
            i <= servers@.len(),
            items@.len() == i,
            forall|k: int|
                0 <= k < i ==> (#[trigger] items@[k])@ == Json::Object(
                    servers@[k]@.wire_members(),
                ),
        decreases servers@.len() - i,
    {
        items.push(servers[i].to_json());
        i += 1;
    }
    let document = JsonValue::Array(items);
    assert(document@->Array_0 =~= servers@.map_values(|s: McpServerInfo| s@).map_values(
        |s: McpServerInfoModel| Json::Object(s.wire_members()),
    ));
    document
}

impl ResultModel {
    /// The members of this result on the wire, after the member `type`.
    pub open spec fn wire_members(self, start: Seq<(Seq<char>, Json)>) -> Seq<(Seq<char>, Json)> {
        match self {
            ResultModel::Success {
                result,
                duration_ms,
                num_turns,
                session_id,
                total_cost_usd,
                usage,
            } => crate::assoc::upsert(
                crate::assoc::upsert(
                    crate::assoc::upsert(
                        crate::assoc::upsert(
                            crate::assoc::upsert(
                                crate::assoc::upsert(
                                    crate::assoc::upsert(start, "subtype"@, Json::Text("success"@)),
                                    "result"@,
                                    Json::Text(result),
                                ),
                                "duration_ms"@,
                                count_or_null(duration_ms),
                            ),
                            "num_turns"@,
                            count_or_null(num_turns),
                        ),
                        "session_id"@,
                        string_or_null(session_id),
                    ),
                    "total_cost_usd"@,
                    match total_cost_usd {
                        Some(cost) => Json::Number(cost),
                        None => Json::Null,
                    },
                ),
                "usage"@,
                match usage {
                    Some(usage) => usage.wire(),
                    None => Json::Null,
                },
            ),
            ResultModel::Error { error, extra } => crate::assoc::merged(
                crate::assoc::upsert(
                    crate::assoc::upsert(start, "subtype"@, Json::Text("error"@)),
                    "error"@,
                    Json::Text(error),
                ),
                members_of(extra),
            ),
            ResultModel::InputRequired => crate::assoc::upsert(
                start,
                "subtype"@,
                Json::Text("input_required"@),
            ),
        }
    }
}

impl MessageModel {
    /// The members that every message of a kind starts with.
    pub open spec fn start(kind: Seq<char>) -> Seq<(Seq<char>, Json)> {
        crate::assoc::upsert(Seq::empty(), "type"@, Json::Text(kind))
    }

    /// The members of this message on the wire: its kind, then its fields;
    /// the members of a request or a response in it are set over those.
    pub open spec fn wire_members(self) -> Seq<(Seq<char>, Json)> {
        match self {
            MessageModel::System(system) => system.wire_members(MessageModel::start("system"@)),
            MessageModel::Assistant { message, parent_tool_use_id, duration_ms } =>
                crate::assoc::upsert(
                crate::assoc::upsert(
                    crate::assoc::upsert(
                        MessageModel::start("assistant"@),
                        "message"@,
                        message.wire(),
                    ),
                    "parent_tool_use_id"@,
                    string_or_null(parent_tool_use_id),
                ),
                "duration_ms"@,
                count_or_null(duration_ms),
            ),
            MessageModel::User { message } => crate::assoc::upsert(
                MessageModel::start("user"@),
                "message"@,
                message.wire(),
            ),
            MessageModel::Result(result) => result.wire_members(MessageModel::start("result"@)),
            _ => Seq::empty(),
        }
    }
}

impl Message {
    /// The members of this message on the wire.
    pub open spec fn wire_members(self) -> Seq<(Seq<char>, Json)> {
        match self {
            Message::ControlRequest { request_id, request } => crate::assoc::merged(
                crate::assoc::upsert(
                    MessageModel::start("control_request"@),
                    "request_id"@,
                    Json::Text(request_id@),
                ),
                request.wire_members(),
            ),
            Message::ControlResponse { request_id, response } => crate::assoc::merged(
                crate::assoc::upsert(
                    MessageModel::start("control_response"@),
                    "request_id"@,
                    Json::Text(request_id@),
                ),
                response@.wire_members(),
            ),
            _ => self@.wire_members(),
        }
    }

    /// Builds the object that stands for this message on the wire.
    pub fn to_json(&self) -> (document: JsonValue)
        ensures
            document@ == Json::Object(self.wire_members()),
    {
        let mut object = JsonObject::new();
        match self {
            Message::System(system) => {
                object.insert(String::from_str("type"), JsonValue::text("system"));
                match system {
                    SystemMessage::Init { session_id, tools, mcp_servers, extra } => {
                        object.insert(String::from_str("subtype"), JsonValue::text("init"));
                        object.insert(
                            String::from_str("session_id"),
                            JsonValue::text(session_id.as_str()),
                        );
                        object.insert(String::from_str("tools"), tools_json(tools));
                        object.insert(String::from_str("mcp_servers"), servers_json(mcp_servers));
                        object.merge(extra);
                    },
                    SystemMessage::CompactBoundary => {
                        object.insert(
                            String::from_str("subtype"),
                            JsonValue::text("compact_boundary"),
                        );
                    },
                }
            },
            Message::Assistant(assistant) => {
                object.insert(String::from_str("type"), JsonValue::text("assistant"));
                object.insert(String::from_str("message"), assistant.message.to_json());
                object.insert(
                    String::from_str("parent_tool_use_id"),
                    string_json(&assistant.parent_tool_use_id),
                );
                object.insert(String::from_str("duration_ms"), count_json(assistant.duration_ms));
            },
            Message::User(user) => {
                object.insert(String::from_str("type"), JsonValue::text("user"));
                object.insert(String::from_str("message"), user.message.to_json());
            },
            Message::Result(result) => {
                object.insert(String::from_str("type"), JsonValue::text("result"));
                match result {
                    ResultMessage::Success {
                        result,
                        duration_ms,
                        num_turns,
                        session_id,
                        total_cost_usd,
                        usage,
                    } => {
                        object.insert(String::from_str("subtype"), JsonValue::text("success"));
                        object.insert(String::from_str("result"), JsonValue::text(result.as_str()));
                        object.insert(String::from_str("duration_ms"), count_json(*duration_ms));
                        let turns = match num_turns {
                            Some(n) => Some(*n as u64),
                            None => None,
                        };
                        object.insert(String::from_str("num_turns"), count_json(turns));
                        object.insert(String::from_str("session_id"), string_json(session_id));
                        let cost = match total_cost_usd {
                            Some(cost) => JsonValue::Number(cost.clone()),
                            None => JsonValue::Null,
                        };
                        object.insert(String::from_str("total_cost_usd"), cost);
                        let counts = match usage {
                            Some(usage) => usage.to_json(),
                            None => JsonValue::Null,
                        };
                        object.insert(String::from_str("usage"), counts);
                    },
                    ResultMessage::Error { error, extra } => {
                        object.insert(String::from_str("subtype"), JsonValue::text("error"));
                        object.insert(String::from_str("error"), JsonValue::text(error.as_str()));
                        object.merge(extra);
                    },
                    ResultMessage::InputRequired => {
                        object.insert(
                            String::from_str("subtype"),
                            JsonValue::text("input_required"),
                        );
                    },
                }
            },
            Message::ControlRequest { request_id, request } => {
                object.insert(String::from_str("type"), JsonValue::text("control_request"));
                object.insert(String::from_str("request_id"), JsonValue::text(request_id.as_str()));
                let inner = request.to_json();
                object.merge(&inner);
            },
            Message::ControlResponse { request_id, response } => {
                object.insert(String::from_str("type"), JsonValue::text("control_response"));
                object.insert(String::from_str("request_id"), JsonValue::text(request_id.as_str()));
                let inner = response.to_json();
                object.merge(&inner);
            },
        }
        JsonValue::Object(object)
    }
}

} // verus!
