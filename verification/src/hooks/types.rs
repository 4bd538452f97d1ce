use crate::control::messages::texts_json;
use crate::hooks::response::optional_text;
use crate::json::{optional_json, set_optional, Json, JsonObject, JsonValue};
use crate::text::text_of;
use vstd::prelude::*;

verus! {

/// What a hook is told about the event it answers.
#[derive(Debug, Clone)]
pub struct HookInput {
    /// Name of the tool, for the events of a tool.
    pub tool_name: Option<String>,
    /// Input of the tool.
    pub tool_input: Option<JsonValue>,
    /// Output of the tool, after it completed.
    pub tool_output: Option<JsonValue>,
    /// The error, after the tool failed.
    pub error: Option<String>,
    /// The prompt, when the user submitted one.
    pub prompt: Option<String>,
    /// More about the event.
    pub metadata: Option<JsonObject>,
}

/// The members of an optional object as a document.
pub open spec fn optional_object(value: Option<JsonObject>) -> Option<Json> {
    match value {
        Some(object) => Some(Json::Object(object@)),
        None => None,
    }
}

/// An optional list of texts as a JSON array.
pub open spec fn optional_texts(value: Option<Vec<String>>) -> Option<Json> {
    match value {
        Some(texts) => Some(texts_json(texts.deep_view())),
        None => None,
    }
}

fn set_text(object: &mut JsonObject, key: &str, value: &Option<String>)
    ensures
        final(object)@ == set_optional(old(object)@, key@, optional_text(*value)),
{
    match value {
        Some(text) => {
            object.insert(String::from_str(key), JsonValue::text(text.as_str()));
        },
        None => {},
    }
}

fn set_json(object: &mut JsonObject, key: &str, value: &Option<JsonValue>)
    ensures
        final(object)@ == set_optional(old(object)@, key@, optional_json(*value)),
{
    match value {
        Some(document) => {
            object.insert(String::from_str(key), document.clone());
        },
        None => {},
    }
}

fn set_object(object: &mut JsonObject, key: &str, value: &Option<JsonObject>)
    ensures
        final(object)@ == set_optional(old(object)@, key@, optional_object(*value)),
{
    match value {
        Some(members) => {
            object.insert(String::from_str(key), JsonValue::Object(members.clone()));
        },
        None => {},
    }
}

fn set_texts(object: &mut JsonObject, key: &str, value: &Option<Vec<String>>)
    ensures
        final(object)@ == set_optional(old(object)@, key@, optional_texts(*value)),
{
    match value {
        Some(texts) => {
            object.insert(String::from_str(key), JsonValue::text_array(texts));
        },
        None => {},
    }
}

impl HookInput {
    /// The members of this input on the wire: those that are set.
    pub open spec fn wire_members(self) -> Seq<(Seq<char>, Json)> {
        set_optional(
            set_optional(
                set_optional(
                    set_optional(
                        set_optional(
                            set_optional(
                                Seq::empty(),
                                "tool_name"@,
                                optional_text(self.tool_name),
                            ),
                            "tool_input"@,
                            optional_json(self.tool_input),
                        ),
                        "tool_output"@,
                        optional_json(self.tool_output),
                    ),
                    "error"@,
                    optional_text(self.error),
                ),
                "prompt"@,
                optional_text(self.prompt),
            ),
            "metadata"@,
            optional_object(self.metadata),
        )
    }

    /// An input with nothing set.
    pub fn new() -> (input: HookInput)
        ensures
            input.tool_name is None,
            input.tool_input is None,
            input.tool_output is None,
            input.error is None,
            input.prompt is None,
            input.metadata is None,
    {
        HookInput {
            tool_name: None,
            tool_input: None,
            tool_output: None,
            error: None,
            prompt: None,
            metadata: None,
        }
    }

    /// The input for the use of a tool.
    pub fn tool_use(tool_name: &str, tool_input: JsonValue) -> (input: HookInput)
        ensures
            text_of(input.tool_name) == Some(tool_name@),
            input.tool_input == Some(tool_input),
            input.tool_output is None,
            input.error is None,
            input.prompt is None,
            input.metadata is None,
    {
        HookInput {
            tool_name: Some(String::from_str(tool_name)),
            tool_input: Some(tool_input),
            tool_output: None,
            error: None,
            prompt: None,
            metadata: None,
        }
    }

    /// The input for a tool that completed.
    pub fn tool_success(tool_name: &str, output: JsonValue) -> (input: HookInput)
        ensures
            text_of(input.tool_name) == Some(tool_name@),
            input.tool_input is None,
            input.tool_output == Some(output),
            input.error is None,
            input.prompt is None,
            input.metadata is None,
    {
        HookInput {
            tool_name: Some(String::from_str(tool_name)),
            tool_input: None,
            tool_output: Some(output),
            error: None,
            prompt: None,
            metadata: None,
        }
    }

    /// The input for a tool that failed.
    pub fn tool_failure(tool_name: &str, error: &str) -> (input: HookInput)
        ensures
            text_of(input.tool_name) == Some(tool_name@),
            input.tool_input is None,
            input.tool_output is None,
            text_of(input.error) == Some(error@),
            input.prompt is None,
            input.metadata is None,
    {
        HookInput {
            tool_name: Some(String::from_str(tool_name)),
            tool_input: None,
            tool_output: None,
            error: Some(String::from_str(error)),
            prompt: None,
            metadata: None,
        }
    }

    /// The input for a prompt of the user.
    pub fn prompt(text: &str) -> (input: HookInput)
        ensures
            input.tool_name is None,
            input.tool_input is None,
            input.tool_output is None,
            input.error is None,
            text_of(input.prompt) == Some(text@),
            input.metadata is None,
    {
        HookInput {
            tool_name: None,
            tool_input: None,
            tool_output: None,
            error: None,
            prompt: Some(String::from_str(text)),
            metadata: None,
        }
    }

    /// Builds the object that stands for this input on the wire.
    pub fn to_json(&self) -> (document: JsonValue)
        ensures
            document@ == Json::Object(self.wire_members()),
    {
        let mut object = JsonObject::new();
        set_text(&mut object, "tool_name", &self.tool_name);
        set_json(&mut object, "tool_input", &self.tool_input);
        set_json(&mut object, "tool_output", &self.tool_output);
        set_text(&mut object, "error", &self.error);
        set_text(&mut object, "prompt", &self.prompt);
        set_object(&mut object, "metadata", &self.metadata);
        JsonValue::Object(object)
    }
}

impl Default for HookInput {
    fn default() -> (input: HookInput)
        ensures
            input.tool_name is None,
            input.tool_input is None,
            input.tool_output is None,
            input.error is None,
            input.prompt is None,
            input.metadata is None,
    {
        HookInput::new()
    }
}

/// What a hook is told about the session.
#[derive(Debug, Clone)]
pub struct HookContext {
    /// Identifier of the session.
    pub session_id: Option<String>,
    /// The tools of the session.
    pub available_tools: Option<Vec<String>>,
    /// The agents of the session.
    pub agents: Option<Vec<String>>,
    /// The MCP servers of the session.
    pub mcp_servers: Option<Vec<String>>,
    /// More about the session.
    pub metadata: Option<JsonObject>,
}

impl HookContext {
    /// The members of this context on the wire: those that are set.
    pub open spec fn wire_members(self) -> Seq<(Seq<char>, Json)> {
        set_optional(
            set_optional(
                set_optional(
                    set_optional(
                        set_optional(Seq::empty(), "session_id"@, optional_text(self.session_id)),
                        "available_tools"@,
                        optional_texts(self.available_tools),
                    ),
                    "agents"@,
                    optional_texts(self.agents),
                ),
                "mcp_servers"@,
                optional_texts(self.mcp_servers),
            ),
            "metadata"@,
            optional_object(self.metadata),
        )
    }

    /// A context with nothing set.
    pub fn new() -> (context: HookContext)
        ensures
            context.session_id is None,
            context.available_tools is None,
            context.agents is None,
            context.mcp_servers is None,
            context.metadata is None,
    {
        HookContext {
            session_id: None,
            available_tools: None,
            agents: None,
            mcp_servers: None,
            metadata: None,
        }
    }

    /// A context with the identifier of the session.
    pub fn with_session(session_id: &str) -> (context: HookContext)
        ensures
            text_of(context.session_id) == Some(session_id@),
            context.available_tools is None,
            context.agents is None,
            context.mcp_servers is None,
            context.metadata is None,
    {
        HookContext {
            session_id: Some(String::from_str(session_id)),
            available_tools: None,
            agents: None,
            mcp_servers: None,
            metadata: None,
        }
    }

    /// Sets the tools.
    pub fn with_tools(self, tools: Vec<String>) -> (context: HookContext)
        ensures
            context == (HookContext { available_tools: Some(tools), ..self }),
    {
        HookContext { available_tools: Some(tools), ..self }
    }

    /// Sets the agents.
    pub fn with_agents(self, agents: Vec<String>) -> (context: HookContext)
        ensures
            context == (HookContext { agents: Some(agents), ..self }),
    {
        HookContext { agents: Some(agents), ..self }
    }

    /// Sets the MCP servers.
    pub fn with_mcp_servers(self, servers: Vec<String>) -> (context: HookContext)
        ensures
            context == (HookContext { mcp_servers: Some(servers), ..self }),
    {
        HookContext { mcp_servers: Some(servers), ..self }
    }

    /// Builds the object that stands for this context on the wire.
    pub fn to_json(&self) -> (document: JsonValue)
        ensures
            document@ == Json::Object(self.wire_members()),
    {
        let mut object = JsonObject::new();
        set_text(&mut object, "session_id", &self.session_id);
        set_texts(&mut object, "available_tools", &self.available_tools);
        set_texts(&mut object, "agents", &self.agents);
        set_texts(&mut object, "mcp_servers", &self.mcp_servers);
        set_object(&mut object, "metadata", &self.metadata);
        JsonValue::Object(object)
    }
}

impl Default for HookContext {
    fn default() -> (context: HookContext)
        ensures
            context.session_id is None,
            context.available_tools is None,
            context.agents is None,
            context.mcp_servers is None,
            context.metadata is None,
    {
        HookContext::new()
    }
}

} // verus!
