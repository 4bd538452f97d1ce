use crate::assoc::{lemma_position_none, lookup, merged, upsert, without};
use crate::json::{members_of, set_optional, Json, JsonObject, JsonValue};
use crate::options::{AgentDefinition, HookEvent, HookMatcher, PermissionMode};
use crate::text::str_eq;
use vstd::prelude::*;

verus! {

/// The JSON strings of a list of texts.
pub open spec fn texts_json(texts: Seq<Seq<char>>) -> Json {
    Json::Array(texts.map_values(|t: Seq<char>| Json::Text(t)))
}

/// A hook matcher on the wire: an object with the member `tool_name`, where
/// the matcher names a tool.
pub open spec fn matcher_json(matcher: HookMatcher) -> Json {
    Json::Object(
        match matcher.tool_name {
            Some(name) => seq![("tool_name"@, Json::Text(name@))],
            None => Seq::empty(),
        },
    )
}

/// The matchers of one event on the wire.
pub open spec fn matchers_json(matchers: Seq<HookMatcher>) -> Json {
    Json::Array(matchers.map_values(|m: HookMatcher| matcher_json(m)))
}

/// The hooks map on the wire: one member for each event, named by the event,
/// a later entry of an event replacing an earlier one.
pub open spec fn hooks_members(hooks: Seq<(HookEvent, Vec<HookMatcher>)>) -> Seq<
    (Seq<char>, Json),
>
    decreases hooks.len(),
{
    if hooks.len() == 0 {
        Seq::empty()
    } else {
        upsert(
            hooks_members(hooks.drop_last()),
            hooks.last().0.wire_name(),
            matchers_json(hooks.last().1@),
        )
    }
}

/// A text as a JSON string, and `null` where there is none.
pub open spec fn text_or_null(text: Option<String>) -> Json {
    match text {
        Some(text) => Json::Text(text@),
        None => Json::Null,
    }
}

/// An agent definition on the wire.
pub open spec fn agent_json(agent: AgentDefinition) -> Json {
    Json::Object(
        seq![
            ("description"@, Json::Text(agent.description@)),
            ("prompt"@, Json::Text(agent.prompt@)),
            ("tools"@, texts_json(agent.tools.deep_view())),
            ("model"@, text_or_null(agent.model)),
        ],
    )
}

/// The agents map on the wire: one member for each agent, named by the
/// agent, a later entry of a name replacing an earlier one.
pub open spec fn agents_members(agents: Seq<(String, AgentDefinition)>) -> Seq<
    (Seq<char>, Json),
>
    decreases agents.len(),
{
    if agents.len() == 0 {
        Seq::empty()
    } else {
        upsert(agents_members(agents.drop_last()), agents.last().0@, agent_json(agents.last().1))
    }
}

/// The members of a request object that holds nothing but its tag.
pub open spec fn tagged(subtype: Seq<char>) -> Seq<(Seq<char>, Json)> {
    seq![("subtype"@, Json::Text(subtype))]
}

/// The members of a request object that holds its tag and one text.
pub open spec fn tagged_with(subtype: Seq<char>, key: Seq<char>, text: Seq<char>) -> Seq<
    (Seq<char>, Json),
> {
    upsert(tagged(subtype), key, Json::Text(text))
}

/// A control request that the runtime sends to the backend.
#[derive(Debug, Clone)]
pub enum ControlRequest {
    /// Sets the session up: hooks, agents, the MCP servers that the runtime
    /// hosts, the permission mode, and whether the runtime wants to be asked
    /// for permissions.
    Initialize {
        /// Hook matchers by event.
        hooks: Vec<(HookEvent, Vec<HookMatcher>)>,
        /// Agent definitions by name.
        agents: Vec<(String, AgentDefinition)>,
        /// Names of the MCP servers hosted by the runtime.
        sdk_mcp_servers: Vec<String>,
        /// Permission mode of the session.
        permissions: Option<PermissionMode>,
        /// Whether the backend shall ask before it uses a tool.
        can_use_tool: bool,
    },
    /// Interrupts the current execution.
    Interrupt,
    /// Changes the permission mode.
    SetPermissionMode {
        /// The new mode, in the spelling of the command line.
        mode: String,
    },
    /// Switches the model.
    SetModel {
        /// Model identifier.
        model: String,
    },
    /// Asks for the status of the MCP servers.
    McpStatus,
    /// Rewinds the files to their state at a message.
    RewindFiles {
        /// Identifier of the message.
        message_id: String,
    },
}

impl ControlRequest {
    /// The tag of this request on the wire.
    pub open spec fn subtype(self) -> Seq<char> {
        match self {
            ControlRequest::Initialize { .. } => "initialize"@,
            ControlRequest::Interrupt => "interrupt"@,
            ControlRequest::SetPermissionMode { .. } => "set_permission_mode"@,
            ControlRequest::SetModel { .. } => "set_model"@,
            ControlRequest::McpStatus => "mcp_status"@,
            ControlRequest::RewindFiles { .. } => "rewind_files"@,
        }
    }

    /// The members of the request object on the wire: the tag `subtype`,
    /// then the fields of the request. Of an `initialize` request the empty
    /// collections and an unset permission mode are left out.
    pub open spec fn wire_members(self) -> Seq<(Seq<char>, Json)> {
        match self {
            ControlRequest::Initialize {
                hooks,
                agents,
                sdk_mcp_servers,
                permissions,
                can_use_tool,
            } => upsert(
                set_optional(
                    set_optional(
                        set_optional(
                            set_optional(
                                tagged(self.subtype()),
                                "hooks"@,
                                if hooks@.len() == 0 {
                                    None
                                } else {
                                    Some(Json::Object(hooks_members(hooks@)))
                                },
                            ),
                            "agents"@,
                            if agents@.len() == 0 {
                                None
                            } else {
                                Some(Json::Object(agents_members(agents@)))
                            },
                        ),
                        "sdkMcpServers"@,
                        if sdk_mcp_servers@.len() == 0 {
                            None
                        } else {
                            Some(texts_json(sdk_mcp_servers.deep_view()))
                        },
                    ),
                    "permissions"@,
                    match permissions {
                        Some(mode) => Some(Json::Text(mode.cli_arg())),
                        None => None,
                    },
                ),
                "can_use_tool"@,
                Json::Bool(can_use_tool),
            ),
            ControlRequest::Interrupt => tagged("interrupt"@),
            ControlRequest::SetPermissionMode { mode } => tagged_with(
                "set_permission_mode"@,
                "mode"@,
                mode@,
            ),
            ControlRequest::SetModel { model } => tagged_with("set_model"@, "model"@, model@),
            ControlRequest::McpStatus => tagged("mcp_status"@),
            ControlRequest::RewindFiles { message_id } => tagged_with(
                "rewind_files"@,
                "message_id"@,
                message_id@,
            ),
        }
    }
}

fn matcher_to_json(matcher: &HookMatcher) -> (document: JsonValue)
    ensures
        document@ == matcher_json(*matcher),
{
    let mut object = JsonObject::new();
    match &matcher.tool_name {
        Some(name) => {
            object.insert(String::from_str("tool_name"), JsonValue::text(name.as_str()));
            assert(object@ =~= seq![("tool_name"@, Json::Text(name@))]);
        },
        None => {},
    }
    JsonValue::Object(object)
}

fn matchers_to_json(matchers: &Vec<HookMatcher>) -> (document: JsonValue)
    ensures
        document@ == matchers_json(matchers@),
{
    let mut items: Vec<JsonValue> = Vec::new();
    let mut i: usize = 0;
    while i < matchers.len()
        invariant
            i <= matchers@.len(),
            items@.len() == i,
            forall|k: int| 0 <= k < i ==> (#[trigger] items@[k])@ == matcher_json(matchers@[k]),
        decreases matchers@.len() - i,
    {
        items.push(matcher_to_json(&matchers[i]));
        i += 1;
    }
    let document = JsonValue::Array(items);
    assert(document@->Array_0 =~= matchers@.map_values(|m: HookMatcher| matcher_json(m)));
    document
}

fn hooks_to_json(hooks: &Vec<(HookEvent, Vec<HookMatcher>)>) -> (document: JsonValue)
    ensures
        document@ == Json::Object(hooks_members(hooks@)),
{
    let mut object = JsonObject::new();
    let mut i: usize = 0;
    while i < hooks.len()
        invariant
            i <= hooks@.len(),
            object@ == hooks_members(hooks@.take(i as int)),
        decreases hooks@.len() - i,
    {
        proof {
            assert(hooks@.take(i + 1).drop_last() =~= hooks@.take(i as int));
        }
        object.insert(String::from_str(hooks[i].0.name()), matchers_to_json(&hooks[i].1));
        i += 1;
    }
    proof {
        assert(hooks@.take(hooks@.len() as int) =~= hooks@);
    }
    JsonValue::Object(object)
}

fn agent_to_json(agent: &AgentDefinition) -> (document: JsonValue)
    ensures
        document@ == agent_json(*agent),
{
    proof {
        reveal_strlit("description");
        reveal_strlit("prompt");
        reveal_strlit("tools");
        reveal_strlit("model");
    }
    let mut object = JsonObject::new();
    object.insert(String::from_str("description"), JsonValue::text(agent.description.as_str()));
    assert(object@ =~= seq![("description"@, Json::Text(agent.description@))]);
    proof {
        assert("description"@.len() != "prompt"@.len());
        lemma_position_none(object@, "prompt"@);
    }
    object.insert(String::from_str("prompt"), JsonValue::text(agent.prompt.as_str()));
    proof {
        assert("description"@.len() != "tools"@.len());
        assert("prompt"@.len() != "tools"@.len());
        lemma_position_none(object@, "tools"@);
    }
    object.insert(String::from_str("tools"), JsonValue::text_array(&agent.tools));
    proof {
        assert("description"@.len() != "model"@.len());
        assert("prompt"@.len() != "model"@.len());
        assert("tools"@[0] != "model"@[0]);
        lemma_position_none(object@, "model"@);
    }
    let model = match &agent.model {
        Some(model) => JsonValue::text(model.as_str()),
        None => JsonValue::Null,
    };
    object.insert(String::from_str("model"), model);
    assert(object@ =~= agent_json(*agent)->Object_0);
    JsonValue::Object(object)
}

fn agents_to_json(agents: &Vec<(String, AgentDefinition)>) -> (document: JsonValue)
    ensures
        document@ == Json::Object(agents_members(agents@)),
{
    let mut object = JsonObject::new();
    let mut i: usize = 0;
    while i < agents.len()
        invariant
            i <= agents@.len(),
            object@ == agents_members(agents@.take(i as int)),
        decreases agents@.len() - i,
    {
        proof {
            assert(agents@.take(i + 1).drop_last() =~= agents@.take(i as int));
        }
        object.insert(agents[i].0.clone(), agent_to_json(&agents[i].1));
        i += 1;
    }
    proof {
        assert(agents@.take(agents@.len() as int) =~= agents@);
    }
    JsonValue::Object(object)
}

impl ControlRequest {
    /// The tag of this request on the wire.
    pub fn subtype_name(&self) -> (name: &'static str)
        ensures
            name@ == self.subtype(),
    {
        match self {
            ControlRequest::Initialize { .. } => "initialize",
            ControlRequest::Interrupt => "interrupt",
            ControlRequest::SetPermissionMode { .. } => "set_permission_mode",
            ControlRequest::SetModel { .. } => "set_model",
            ControlRequest::McpStatus => "mcp_status",
            ControlRequest::RewindFiles { .. } => "rewind_files",
        }
    }

    /// Builds the request object that goes on the wire.
    pub fn to_json(&self) -> (document: JsonValue)
        ensures
            document@ == Json::Object(self.wire_members()),
    {
        let mut object = JsonObject::new();
        object.insert(String::from_str("subtype"), JsonValue::text(self.subtype_name()));
        assert(object@ =~= seq![("subtype"@, Json::Text(self.subtype()))]);
        match self {
            ControlRequest::Initialize {
                hooks,
                agents,
                sdk_mcp_servers,
                permissions,
                can_use_tool,
            } => {
                let hooks_value = if hooks.len() == 0 {
                    None
                } else {
                    Some(hooks_to_json(hooks))
                };
                object.set("hooks", hooks_value);
                let agents_value = if agents.len() == 0 {
                    None
                } else {
                    Some(agents_to_json(agents))
                };
                object.set("agents", agents_value);
                let servers_value = if sdk_mcp_servers.len() == 0 {
                    None
                } else {
                    Some(JsonValue::text_array(sdk_mcp_servers))
                };
                object.set("sdkMcpServers", servers_value);
                let mode_value = match permissions {
                    Some(mode) => Some(JsonValue::text(mode.to_cli_arg())),
                    None => None,
                };
                object.set("permissions", mode_value);
                object.insert(String::from_str("can_use_tool"), JsonValue::Bool(*can_use_tool));
            },
            ControlRequest::Interrupt => {},
            ControlRequest::SetPermissionMode { mode } => {
                object.insert(String::from_str("mode"), JsonValue::text(mode.as_str()));
            },
            ControlRequest::SetModel { model } => {
                object.insert(String::from_str("model"), JsonValue::text(model.as_str()));
            },
            ControlRequest::McpStatus => {},
            ControlRequest::RewindFiles { message_id } => {
                object.insert(
                    String::from_str("message_id"),
                    JsonValue::text(message_id.as_str()),
                );
            },
        }
        JsonValue::Object(object)
    }
}

/// A hook matcher as a mathematical value: the tool name it matches.
pub type MatcherModel = Option<Seq<char>>;

/// An agent definition as a mathematical value.
pub struct AgentModel {
    pub description: Seq<char>,
    pub prompt: Seq<char>,
    pub tools: Seq<Seq<char>>,
    pub model: Option<Seq<char>>,
}

/// A control request of the runtime as a mathematical value.
pub enum RequestModel {
    Initialize {
        hooks: Seq<(HookEvent, Seq<MatcherModel>)>,
        agents: Seq<(Seq<char>, AgentModel)>,
        sdk_mcp_servers: Seq<Seq<char>>,
        permissions: Option<PermissionMode>,
        can_use_tool: bool,
    },
    Interrupt,
    SetPermissionMode { mode: Seq<char> },
    SetModel { model: Seq<char> },
    McpStatus,
    RewindFiles { message_id: Seq<char> },
}

/// The matchers of a list as mathematical values.
pub open spec fn matcher_models(matchers: Seq<HookMatcher>) -> Seq<MatcherModel> {
    matchers.map_values(|m: HookMatcher| crate::text::text_of(m.tool_name))
}

/// The hooks of a list as mathematical values.
pub open spec fn hook_models(hooks: Seq<(HookEvent, Vec<HookMatcher>)>) -> Seq<
    (HookEvent, Seq<MatcherModel>),
> {
    hooks.map_values(|h: (HookEvent, Vec<HookMatcher>)| (h.0, matcher_models(h.1@)))
}

/// An agent definition as a mathematical value.
pub open spec fn agent_model(agent: AgentDefinition) -> AgentModel {
    AgentModel {
        description: agent.description@,
        prompt: agent.prompt@,
        tools: agent.tools.deep_view(),
        model: crate::text::text_of(agent.model),
    }
}

/// The agents of a list as mathematical values.
pub open spec fn agent_models(agents: Seq<(String, AgentDefinition)>) -> Seq<
    (Seq<char>, AgentModel),
> {
    agents.map_values(|a: (String, AgentDefinition)| (a.0@, agent_model(a.1)))
}

impl View for ControlRequest {
    type V = RequestModel;

    open spec fn view(&self) -> RequestModel {
        match self {
            ControlRequest::Initialize {
                hooks,
                agents,
                sdk_mcp_servers,
                permissions,
                can_use_tool,
            } => RequestModel::Initialize {
                hooks: hook_models(hooks@),
                agents: agent_models(agents@),
                sdk_mcp_servers: sdk_mcp_servers.deep_view(),
                permissions: *permissions,
                can_use_tool: *can_use_tool,
            },
            ControlRequest::Interrupt => RequestModel::Interrupt,
            ControlRequest::SetPermissionMode { mode } => RequestModel::SetPermissionMode {
                mode: mode@,
            },
            ControlRequest::SetModel { model } => RequestModel::SetModel { model: model@ },
            ControlRequest::McpStatus => RequestModel::McpStatus,
            ControlRequest::RewindFiles { message_id } => RequestModel::RewindFiles {
                message_id: message_id@,
            },
        }
    }
}

/// The matcher that a wire object stands for: an object whose member
/// `tool_name` is missing, `null` or a string.
pub open spec fn parsed_matcher(document: Json) -> Option<MatcherModel> {
    if document is Object {
        document.optional_text("tool_name"@)
    } else {
        None
    }
}

/// The matchers that a wire array stands for.
pub open spec fn parsed_matchers(document: Json) -> Option<Seq<MatcherModel>> {
    match document {
        Json::Array(items) => if forall|i: int|
            0 <= i < items.len() ==> parsed_matcher(#[trigger] items[i]) is Some {
            Some(Seq::new(items.len(), |i: int| parsed_matcher(items[i])->0))
        } else {
            None
        },
        _ => None,
    }
}

/// The hook that a member of the hooks map stands for: the event that the
/// key names, with the matchers of the value.
pub open spec fn parsed_hook(member: (Seq<char>, Json)) -> Option<(HookEvent, Seq<MatcherModel>)> {
    match (HookEvent::named(member.0), parsed_matchers(member.1)) {
        (Some(event), Some(matchers)) => Some((event, matchers)),
        _ => None,
    }
}

/// The hooks that an optional member stands for: none where the member is
/// missing, else the hooks of an object, member by member.
pub open spec fn parsed_hooks(member: Option<Json>) -> Option<Seq<(HookEvent, Seq<MatcherModel>)>> {
    match member {
        None => Some(Seq::empty()),
        Some(Json::Object(members)) => if forall|i: int|
            0 <= i < members.len() ==> parsed_hook(#[trigger] members[i]) is Some {
            Some(Seq::new(members.len(), |i: int| parsed_hook(members[i])->0))
        } else {
            None
        },
        Some(_) => None,
    }
}

/// The agent that a wire object stands for: it must hold the strings
/// `description` and `prompt` and the array of strings `tools`; `model` is
/// missing, `null` or a string.
pub open spec fn parsed_agent(document: Json) -> Option<AgentModel> {
    match (
        document.text_field("description"@),
        document.text_field("prompt"@),
        document.field("tools"@),
        document.optional_text("model"@),
    ) {
        (Some(description), Some(prompt), Some(tools), Some(model)) => match tools.texts() {
            Some(tools) => Some(AgentModel { description, prompt, tools, model }),
            None => None,
        },
        _ => None,
    }
}

/// The agents that an optional member stands for: none where the member is
/// missing, else the agents of an object, member by member.
pub open spec fn parsed_agents(member: Option<Json>) -> Option<Seq<(Seq<char>, AgentModel)>> {
    match member {
        None => Some(Seq::empty()),
        Some(Json::Object(members)) => if forall|i: int|
            0 <= i < members.len() ==> parsed_agent((#[trigger] members[i]).1) is Some {
            Some(Seq::new(members.len(), |i: int| (members[i].0, parsed_agent(members[i].1)->0)))
        } else {
            None
        },
        Some(_) => None,
    }
}

/// The server names that an optional member stands for: none where the
/// member is missing, else the strings of an array.
pub open spec fn parsed_names(member: Option<Json>) -> Option<Seq<Seq<char>>> {
    match member {
        None => Some(Seq::empty()),
        Some(list) => list.texts(),
    }
}

/// The permission mode that an optional member stands for.
pub open spec fn parsed_mode(document: Json) -> Option<Option<PermissionMode>> {
    match document.optional_text("permissions"@) {
        Some(Some(text)) => match PermissionMode::spelled(text) {
            Some(mode) => Some(Some(mode)),
            None => None,
        },
        Some(None) => Some(None),
        None => None,
    }
}

/// The flag that an optional boolean member stands for: false where the
/// member is missing.
pub open spec fn parsed_flag(document: Json, key: Seq<char>) -> Option<bool> {
    match document.field(key) {
        None => Some(false),
        Some(Json::Bool(flag)) => Some(flag),
        Some(_) => None,
    }
}

impl RequestModel {
    /// The `initialize` request that a wire object stands for.
    pub open spec fn parsed_initialize(document: Json) -> Option<RequestModel> {
        match (
            parsed_hooks(document.field("hooks"@)),
            parsed_agents(document.field("agents"@)),
            parsed_names(document.field("sdkMcpServers"@)),
            parsed_mode(document),
            parsed_flag(document, "can_use_tool"@),
        ) {
            (
                Some(hooks),
                Some(agents),
                Some(sdk_mcp_servers),
                Some(permissions),
                Some(can_use_tool),
            ) => Some(
                RequestModel::Initialize {
                    hooks,
                    agents,
                    sdk_mcp_servers,
                    permissions,
                    can_use_tool,
                },
            ),
            _ => None,
        }
    }

    /// The request that a wire object stands for. The tag `subtype` selects
    /// the kind; the fields of that kind are read from the members of the
    /// object.
    pub open spec fn parsed(document: Json) -> Option<RequestModel> {
        match document.text_field("subtype"@) {
            Some(tag) => if tag == "initialize"@ {
                RequestModel::parsed_initialize(document)
            } else if tag == "interrupt"@ {
                Some(RequestModel::Interrupt)
            } else if tag == "set_permission_mode"@ {
                match document.text_field("mode"@) {
                    Some(mode) => Some(RequestModel::SetPermissionMode { mode }),
                    None => None,
                }
            } else if tag == "set_model"@ {
                match document.text_field("model"@) {
                    Some(model) => Some(RequestModel::SetModel { model }),
                    None => None,
                }
            } else if tag == "mcp_status"@ {
                Some(RequestModel::McpStatus)
            } else if tag == "rewind_files"@ {
                match document.text_field("message_id"@) {
                    Some(message_id) => Some(RequestModel::RewindFiles { message_id }),
                    None => None,
                }
            } else {
                None
            },
            None => None,
        }
    }
}

fn matcher_from_json(document: &JsonValue) -> (matcher: Option<HookMatcher>)
    ensures
        match parsed_matcher(document@) {
            Some(model) => matcher is Some && crate::text::text_of(matcher->0.tool_name) == model,
            None => matcher is None,
        },
{
    if !document.is_object() {
        return None;
    }
    match document.get_optional_str("tool_name") {
        Some(tool_name) => Some(HookMatcher { tool_name }),
        None => None,
    }
}

fn matchers_from_json(document: &JsonValue) -> (matchers: Option<Vec<HookMatcher>>)
    ensures
        match parsed_matchers(document@) {
            Some(models) => matchers is Some && matcher_models(matchers->0@) == models,
            None => matchers is None,
        },
{
    let items = match document.as_array() {
        Some(items) => items,
        None => {
            return None;
        },
    };
    let ghost sources = document@->Array_0;
    let mut matchers: Vec<HookMatcher> = Vec::new();
    let mut i: usize = 0;
    while i < items.len()
        invariant
            document@ == Json::Array(sources),
            sources.len() == items@.len(),
            forall|k: int| 0 <= k < items@.len() ==> (#[trigger] items@[k])@ == sources[k],
            i <= items@.len(),
            matchers@.len() == i,
            forall|k: int| 0 <= k < i ==> parsed_matcher(#[trigger] sources[k]) is Some,
            forall|k: int|
                0 <= k < i ==> crate::text::text_of((#[trigger] matchers@[k]).tool_name)
                    == parsed_matcher(sources[k])->0,
        decreases items@.len() - i,
    {
        match matcher_from_json(&items[i]) {
            Some(matcher) => {
                matchers.push(matcher);
            },
            None => {
                assert(parsed_matcher(sources[i as int]) is None);
                return None;
            },
        }
        i += 1;
    }
    assert(matcher_models(matchers@) =~= parsed_matchers(document@)->0);
    Some(matchers)
}

fn hooks_from_json(member: Option<&JsonValue>) -> (hooks: Option<Vec<(HookEvent, Vec<HookMatcher>)>>)
    ensures
        match parsed_hooks(
            match member {
                Some(document) => Some(document@),
                None => None,
            },
        ) {
            Some(models) => hooks is Some && hook_models(hooks->0@) == models,
            None => hooks is None,
        },
{
    let object = match member {
        None => {
            let hooks: Vec<(HookEvent, Vec<HookMatcher>)> = Vec::new();
            assert(hook_models(hooks@) =~= Seq::empty());
            return Some(hooks);
        },
        Some(JsonValue::Object(object)) => object,
        Some(_) => {
            return None;
        },
    };
    let mut hooks: Vec<(HookEvent, Vec<HookMatcher>)> = Vec::new();
    let mut i: usize = 0;
    while i < object.len()
        invariant
            member is Some,
            member->0@ == Json::Object(object@),
            i <= object@.len(),
            hooks@.len() == i,
            forall|k: int| 0 <= k < i ==> parsed_hook(#[trigger] object@[k]) is Some,
            forall|k: int|
                0 <= k < i ==> (#[trigger] hooks@[k]).0 == parsed_hook(object@[k]).unwrap().0
                    && matcher_models(hooks@[k].1@) == parsed_hook(object@[k]).unwrap().1,
        decreases object@.len() - i,
    {
        let event = HookEvent::from_name(object.key_at(i));
        let matchers = matchers_from_json(object.value_at(i));
        match (event, matchers) {
            (Some(event), Some(matchers)) => {
                hooks.push((event, matchers));
            },
            _ => {
                assert(parsed_hook(object@[i as int]) is None);
                return None;
            },
        }
        i += 1;
    }
    assert(hook_models(hooks@) =~= parsed_hooks(Some(member->0@))->0);
    Some(hooks)
}

fn agent_from_json(document: &JsonValue) -> (agent: Option<AgentDefinition>)
    ensures
        match parsed_agent(document@) {
            Some(model) => agent is Some && agent_model(agent->0) == model,
            None => agent is None,
        },
{
    let description = match document.get_str("description") {
        Some(text) => String::from_str(text),
        None => {
            return None;
        },
    };
    let prompt = match document.get_str("prompt") {
        Some(text) => String::from_str(text),
        None => {
            return None;
        },
    };
    let tools = match document.get("tools") {
        Some(list) => match list.as_texts() {
            Some(tools) => tools,
            None => {
                return None;
            },
        },
        None => {
            return None;
        },
    };
    let model = match document.get_optional_str("model") {
        Some(model) => model,
        None => {
            return None;
        },
    };
    Some(AgentDefinition { description, prompt, tools, model })
}

fn agents_from_json(member: Option<&JsonValue>) -> (agents: Option<Vec<(String, AgentDefinition)>>)
    ensures
        match parsed_agents(
            match member {
                Some(document) => Some(document@),
                None => None,
            },
        ) {
            Some(models) => agents is Some && agent_models(agents->0@) == models,
            None => agents is None,
        },
{
    let object = match member {
        None => {
            let agents: Vec<(String, AgentDefinition)> = Vec::new();
            assert(agent_models(agents@) =~= Seq::empty());
            return Some(agents);
        },
        Some(JsonValue::Object(object)) => object,
        Some(_) => {
            return None;
        },
    };
    let mut agents: Vec<(String, AgentDefinition)> = Vec::new();
    let mut i: usize = 0;
    while i < object.len()
        invariant
            member is Some,
            member->0@ == Json::Object(object@),
            i <= object@.len(),
            agents@.len() == i,
            forall|k: int| 0 <= k < i ==> parsed_agent((#[trigger] object@[k]).1) is Some,
            forall|k: int|
                0 <= k < i ==> (#[trigger] agents@[k]).0@ == object@[k].0 && agent_model(
                    agents@[k].1,
                ) == parsed_agent(object@[k].1)->0,
        decreases object@.len() - i,
    {
        match agent_from_json(object.value_at(i)) {
            Some(agent) => {
                agents.push((String::from_str(object.key_at(i)), agent));
            },
            None => {
                assert(parsed_agent(object@[i as int].1) is None);
                return None;
            },
        }
        i += 1;
    }
    assert(agent_models(agents@) =~= parsed_agents(Some(member->0@))->0);
    Some(agents)
}

impl AgentDefinition {
    /// Builds the object that stands for this agent on the wire.
    pub fn to_json(&self) -> (document: JsonValue)
        ensures
            document@ == agent_json(*self),
    {
        agent_to_json(self)
    }

    /// Reads an agent from its wire object.
    pub fn from_json(document: &JsonValue) -> (agent: Option<AgentDefinition>)
        ensures
            match parsed_agent(document@) {
                Some(model) => agent is Some && agent_model(agent->0) == model,
                None => agent is None,
            },
    {
        agent_from_json(document)
    }
}

impl ControlRequest {
    fn initialize_from_json(document: &JsonValue) -> (request: Option<ControlRequest>)
        ensures
            match RequestModel::parsed_initialize(document@) {
                Some(model) => request is Some && request->0@ == model,
                None => request is None,
            },
    {
        let hooks = match hooks_from_json(document.get("hooks")) {
            Some(hooks) => hooks,
            None => {
                return None;
            },
        };
        let agents = match agents_from_json(document.get("agents")) {
            Some(agents) => agents,
            None => {
                return None;
            },
        };
        let sdk_mcp_servers = match document.get("sdkMcpServers") {
            None => Vec::new(),
            Some(list) => match list.as_texts() {
                Some(names) => names,
                None => {
                    return None;
                },
            },
        };
        proof {
            if document@.field("sdkMcpServers"@) is None {
                assert(sdk_mcp_servers.deep_view() =~= Seq::<Seq<char>>::empty());
            }
        }
        let permissions = match document.get_optional_str("permissions") {
            Some(Some(text)) => match PermissionMode::from_cli_arg(text.as_str()) {
                Some(mode) => Some(mode),
                None => {
                    return None;
                },
            },
            Some(None) => None,
            None => {
                return None;
            },
        };
        let can_use_tool = match document.get("can_use_tool") {
            None => false,
            Some(JsonValue::Bool(flag)) => *flag,
            Some(_) => {
                return None;
            },
        };
        Some(
            ControlRequest::Initialize {
                hooks,
                agents,
                sdk_mcp_servers,
                permissions,
                can_use_tool,
            },
        )
    }

    /// Reads a request from the object that came over the wire.
    pub fn from_json(document: &JsonValue) -> (request: Option<ControlRequest>)
        ensures
            match RequestModel::parsed(document@) {
                Some(model) => request is Some && request->0@ == model,
                None => request is None,
            },
    {
        let tag = match document.get_str("subtype") {
            Some(tag) => tag,
            None => {
                return None;
            },
        };
        if str_eq(tag, "initialize") {
            ControlRequest::initialize_from_json(document)
        } else if str_eq(tag, "interrupt") {
            Some(ControlRequest::Interrupt)
        } else if str_eq(tag, "set_permission_mode") {
            match document.get_str("mode") {
                Some(mode) => Some(ControlRequest::SetPermissionMode { mode: String::from_str(mode) }),
                None => None,
            }
        } else if str_eq(tag, "set_model") {
            match document.get_str("model") {
                Some(model) => Some(ControlRequest::SetModel { model: String::from_str(model) }),
                None => None,
            }
        } else if str_eq(tag, "mcp_status") {
            Some(ControlRequest::McpStatus)
        } else if str_eq(tag, "rewind_files") {
            match document.get_str("message_id") {
                Some(message_id) => Some(
                    ControlRequest::RewindFiles { message_id: String::from_str(message_id) },
                ),
                None => None,
            }
        } else {
            None
        }
    }
}

/// A response to a control request, in either direction.
#[derive(Debug, Clone, PartialEq)]
pub enum ControlResponse {
    /// The request succeeded.
    Success {
        /// The data of the response; its members lie flat in the response
        /// object on the wire.
        data: JsonValue,
    },
    /// The request failed.
    Error {
        /// The error message.
        error: String,
        /// More about the error; its members lie flat in the response object
        /// on the wire.
        extra: JsonValue,
    },
}

/// A control response as a mathematical value.
pub enum ResponseModel {
    Success { data: Json },
    Error { error: Seq<char>, extra: Json },
}

impl View for ControlResponse {
    type V = ResponseModel;

    open spec fn view(&self) -> ResponseModel {
        match self {
            ControlResponse::Success { data } => ResponseModel::Success { data: data@ },
            ControlResponse::Error { error, extra } => ResponseModel::Error {
                error: error@,
                extra: extra@,
            },
        }
    }
}

impl ResponseModel {
    /// The members of the response object on the wire: the tag `subtype`,
    /// the error message of an error, then the members of the data set over
    /// them.
    pub open spec fn wire_members(self) -> Seq<(Seq<char>, Json)> {
        match self {
            ResponseModel::Success { data } => merged(
                seq![("subtype"@, Json::Text("success"@))],
                members_of(data),
            ),
            ResponseModel::Error { error, extra } => merged(
                seq![("subtype"@, Json::Text("error"@)), ("error"@, Json::Text(error))],
                members_of(extra),
            ),
        }
    }

    /// The response that a wire object stands for. An object tagged
    /// `success` is a success whose data are its other members; one tagged
    /// `error` with a string member `error` is an error whose extras are its
    /// other members; nothing else is a response.
    pub open spec fn parsed(document: Json) -> Option<ResponseModel> {
        match document.text_field("subtype"@) {
            Some(tag) => if tag == "success"@ {
                Some(
                    ResponseModel::Success {
                        data: Json::Object(without(members_of(document), "subtype"@)),
                    },
                )
            } else if tag == "error"@ {
                match document.text_field("error"@) {
                    Some(error) => Some(
                        ResponseModel::Error {
                            error,
                            extra: Json::Object(
                                without(without(members_of(document), "subtype"@), "error"@),
                            ),
                        },
                    ),
                    None => None,
                }
            } else {
                None
            },
            None => None,
        }
    }
}

impl ControlResponse {
    /// Builds the response object that goes on the wire.
    pub fn to_json(&self) -> (document: JsonValue)
        ensures
            document@ == Json::Object(self@.wire_members()),
    {
        let mut object = JsonObject::new();
        match self {
            ControlResponse::Success { data } => {
                object.insert(String::from_str("subtype"), JsonValue::text("success"));
                assert(object@ =~= seq![("subtype"@, Json::Text("success"@))]);
                object.merge(data);
            },
            ControlResponse::Error { error, extra } => {
                object.insert(String::from_str("subtype"), JsonValue::text("error"));
                assert(object@ =~= seq![("subtype"@, Json::Text("error"@))]);
                proof {
                    reveal_strlit("subtype");
                    reveal_strlit("error");
                    assert("subtype"@.len() != "error"@.len());
                    assert(lookup(object@, "error"@) is None) by {
                        lemma_position_none(object@, "error"@);
                    }
                }
                object.insert(String::from_str("error"), JsonValue::text(error.as_str()));
                assert(object@ =~= seq![
                    ("subtype"@, Json::Text("error"@)),
                    ("error"@, Json::Text(error@)),
                ]);
                object.merge(extra);
            },
        }
        JsonValue::Object(object)
    }

    /// Reads a response from the object that came over the wire.
    pub fn from_json(document: &JsonValue) -> (response: Option<ControlResponse>)
        ensures
            match ResponseModel::parsed(document@) {
                Some(model) => response is Some && response->0@ == model,
                None => response is None,
            },
    {
        let object = match document {
            JsonValue::Object(object) => object,
            _ => {
                return None;
            },
        };
        let tag = match document.get_str("subtype") {
            Some(tag) => tag,
            None => {
                return None;
            },
        };
        if str_eq(tag, "success") {
            let mut data = object.clone();
            data.remove("subtype");
            Some(ControlResponse::Success { data: JsonValue::Object(data) })
        } else if str_eq(tag, "error") {
            match document.get_str("error") {
                Some(error) => {
                    let mut extra = object.clone();
                    extra.remove("subtype");
                    extra.remove("error");
                    Some(
                        ControlResponse::Error {
                            error: String::from_str(error),
                            extra: JsonValue::Object(extra),
                        },
                    )
                },
                None => None,
            }
        } else {
            None
        }
    }
}

/// A control request that the backend sends to the runtime.
#[derive(Debug, Clone)]
pub enum IncomingControlRequest {
    /// Asks whether a tool may be used.
    CanUseTool {
        /// Name of the tool.
        tool_name: String,
        /// Input of the tool.
        tool_input: JsonValue,
    },
    /// Calls a registered hook.
    HookCallback {
        /// Identifier of the hook.
        hook_id: String,
        /// Event that triggered the hook.
        hook_event: HookEvent,
        /// Input of the hook.
        hook_input: JsonValue,
    },
    /// Passes a JSON-RPC message to an MCP server hosted by the runtime.
    McpMessage {
        /// Name of the server.
        server_name: String,
        /// The JSON-RPC message.
        message: JsonValue,
    },
}

/// An incoming control request as a mathematical value.
pub enum IncomingModel {
    CanUseTool { tool_name: Seq<char>, tool_input: Json },
    HookCallback { hook_id: Seq<char>, hook_event: HookEvent, hook_input: Json },
    McpMessage { server_name: Seq<char>, message: Json },
}

impl View for IncomingControlRequest {
    type V = IncomingModel;

    open spec fn view(&self) -> IncomingModel {
        match self {
            IncomingControlRequest::CanUseTool { tool_name, tool_input } =>
                IncomingModel::CanUseTool { tool_name: tool_name@, tool_input: tool_input@ },
            IncomingControlRequest::HookCallback { hook_id, hook_event, hook_input } =>
                IncomingModel::HookCallback {
                    hook_id: hook_id@,
                    hook_event: *hook_event,
                    hook_input: hook_input@,
                },
            IncomingControlRequest::McpMessage { server_name, message } =>
                IncomingModel::McpMessage { server_name: server_name@, message: message@ },
        }
    }
}

impl IncomingModel {
    /// The event of a hook callback, where the member `hook_event` names one.
    pub open spec fn event_of(document: Json) -> Option<HookEvent> {
        match document.text_field("hook_event"@) {
            Some(name) => HookEvent::named(name),
            None => None,
        }
    }

    /// The request that a wire object stands for. The tag `subtype` selects
    /// the kind; every member of that kind must be there, the names as
    /// strings; members beyond them are passed over.
    pub open spec fn parsed(document: Json) -> Option<IncomingModel> {
        match document.text_field("subtype"@) {
            Some(tag) => if tag == "can_use_tool"@ {
                match (document.text_field("tool_name"@), document.field("tool_input"@)) {
                    (Some(tool_name), Some(tool_input)) => Some(
                        IncomingModel::CanUseTool { tool_name, tool_input },
                    ),
                    _ => None,
                }
            } else if tag == "hook_callback"@ {
                match (
                    document.text_field("hook_id"@),
                    IncomingModel::event_of(document),
                    document.field("hook_input"@),
                ) {
                    (Some(hook_id), Some(hook_event), Some(hook_input)) => Some(
                        IncomingModel::HookCallback { hook_id, hook_event, hook_input },
                    ),
                    _ => None,
                }
            } else if tag == "mcp_message"@ {
                match (document.text_field("server_name"@), document.field("message"@)) {
                    (Some(server_name), Some(message)) => Some(
                        IncomingModel::McpMessage { server_name, message },
                    ),
                    _ => None,
                }
            } else {
                None
            },
            None => None,
        }
    }
}

impl IncomingControlRequest {
    /// Reads a request from the object that came over the wire.
    pub fn from_json(document: &JsonValue) -> (request: Option<IncomingControlRequest>)
        ensures
            match IncomingModel::parsed(document@) {
                Some(model) => request is Some && request->0@ == model,
                None => request is None,
            },
    {
        let tag = match document.get_str("subtype") {
            Some(tag) => tag,
            None => {
                return None;
            },
        };
        if str_eq(tag, "can_use_tool") {
            match (document.get_str("tool_name"), document.get("tool_input")) {
                (Some(tool_name), Some(tool_input)) => Some(
                    IncomingControlRequest::CanUseTool {
                        tool_name: String::from_str(tool_name),
                        tool_input: tool_input.clone(),
                    },
                ),
                _ => None,
            }
        } else if str_eq(tag, "hook_callback") {
            let event = match document.get_str("hook_event") {
                Some(name) => HookEvent::from_name(name),
                None => None,
            };
            match (document.get_str("hook_id"), event, document.get("hook_input")) {
                (Some(hook_id), Some(hook_event), Some(hook_input)) => Some(
                    IncomingControlRequest::HookCallback {
                        hook_id: String::from_str(hook_id),
                        hook_event,
                        hook_input: hook_input.clone(),
                    },
                ),
                _ => None,
            }
        } else if str_eq(tag, "mcp_message") {
            match (document.get_str("server_name"), document.get("message")) {
                (Some(server_name), Some(message)) => Some(
                    IncomingControlRequest::McpMessage {
                        server_name: String::from_str(server_name),
                        message: message.clone(),
                    },
                ),
                _ => None,
            }
        } else {
            None
        }
    }
}

} // verus!
