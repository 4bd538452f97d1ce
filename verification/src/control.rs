use crate::assoc::{lookup, upsert, without};
use crate::control::handlers::{
    CanUseToolHandler, ControlHandlers, HookHandler, McpMessageHandler,
};
use crate::control::messages::{
    agents_members, hooks_members, ControlRequest, ControlResponse, IncomingControlRequest,
    IncomingModel, ResponseModel,
};
use crate::control::pending::PendingRequests;
use crate::error::ClawError;
use crate::json::codec::{encode, encoded};
use crate::json::{Json, JsonObject, JsonValue};
use crate::options::{AgentDefinition, ClaudeAgentOptions, HookEvent, HookMatcher, SdkMcpServer};
use std::sync::Arc;
use tokio::sync::oneshot::{Receiver, Sender};
use vstd::prelude::*;

pub mod handlers;
pub mod messages;
pub mod pending;

verus! {

/// The receiving end of a one-shot channel of `tokio`, taken as an opaque
/// value.
#[verifier::external_type_specification]
#[verifier::external_body]
#[verifier::reject_recursive_types(T)]
pub struct ExReceiver<T>(Receiver<T>);

/// The error of a one-shot channel of `tokio` whose sender is gone, taken as
/// an opaque value. The receiver names it as what it gives as a future.
#[verifier::external_type_specification]
#[verifier::external_body]
pub struct ExRecvError(tokio::sync::oneshot::error::RecvError);

/// Calls `Uuid::new_v4` and writes the identifier in its hyphenated form.
/// The identifier is random: nothing is promised of it.
#[verifier::external_body]
fn fresh_request_id() -> (id: String)
{
    uuid::Uuid::new_v4().to_string()
}

/// Calls `tokio::sync::oneshot::channel` and returns its two ends.
#[verifier::external_body]
fn response_channel() -> (ends: (Sender<ControlResponse>, Receiver<ControlResponse>))
{
    tokio::sync::oneshot::channel()
}

/// The time that a control request waits for its response, in seconds.
pub const REQUEST_TIMEOUT_SECS: u64 = 30;

/// A line of the wire: a document as compact JSON, then a line feed.
pub open spec fn line_of(document: Json) -> Seq<char> {
    encoded(document) + seq!['\n']
}

/// The envelope of a control request that goes to the backend: the
/// identifier stands beside the request.
pub open spec fn request_envelope(id: Seq<char>, request: Seq<(Seq<char>, Json)>) -> Json {
    Json::Object(
        seq![
            ("type"@, Json::Text("control_request"@)),
            ("request_id"@, Json::Text(id)),
            ("request"@, Json::Object(request)),
        ],
    )
}

/// The envelope of a control response that goes to the backend: the
/// identifier stands inside the response object.
pub open spec fn response_envelope(id: Seq<char>, response: ResponseModel) -> Json {
    Json::Object(
        seq![
            ("type"@, Json::Text("control_response"@)),
            ("response"@, Json::Object(upsert(response.wire_members(), "request_id"@, Json::Text(id)))),
        ],
    )
}

fn write_line(document: &JsonValue) -> (line: String)
    ensures
        line@ == line_of(document@),
{
    proof {
        reveal_strlit("\n");
        assert("\n"@ =~= seq!['\n']);
    }
    encode(document).concat("\n")
}

/// Writes the line that carries `request` to the backend under `id`.
pub fn request_line(id: &str, request: &ControlRequest) -> (line: String)
    ensures
        line@ == line_of(request_envelope(id@, request.wire_members())),
{
    proof {
        reveal_strlit("type");
        reveal_strlit("request_id");
        reveal_strlit("request");
    }
    let mut envelope = JsonObject::new();
    envelope.insert(String::from_str("type"), JsonValue::text("control_request"));
    assert(envelope@ =~= seq![("type"@, Json::Text("control_request"@))]);
    proof {
        assert("type"@.len() != "request_id"@.len());
        crate::assoc::lemma_position_none(envelope@, "request_id"@);
    }
    envelope.insert(String::from_str("request_id"), JsonValue::text(id));
    proof {
        assert("type"@.len() != "request"@.len());
        assert("request_id"@.len() != "request"@.len());
        crate::assoc::lemma_position_none(envelope@, "request"@);
    }
    envelope.insert(String::from_str("request"), request.to_json());
    let document = JsonValue::Object(envelope);
    assert(document@ =~= request_envelope(id@, request.wire_members())) by {
        assert(document@->Object_0 =~= request_envelope(id@, request.wire_members())->Object_0);
    }
    write_line(&document)
}

/// Writes the line that carries `response` to the backend, in answer to the
/// request `id`.
pub fn response_line(id: &str, response: &ControlResponse) -> (line: String)
    ensures
        line@ == line_of(response_envelope(id@, response@)),
{
    proof {
        reveal_strlit("type");
        reveal_strlit("response");
    }
    let mut inner = match response.to_json() {
        JsonValue::Object(object) => object,
        _ => JsonObject::new(),
    };
    inner.insert(String::from_str("request_id"), JsonValue::text(id));
    let mut envelope = JsonObject::new();
    envelope.insert(String::from_str("type"), JsonValue::text("control_response"));
    assert(envelope@ =~= seq![("type"@, Json::Text("control_response"@))]);
    proof {
        assert("type"@.len() != "response"@.len());
        crate::assoc::lemma_position_none(envelope@, "response"@);
    }
    envelope.insert(String::from_str("response"), JsonValue::Object(inner));
    let document = JsonValue::Object(envelope);
    assert(document@ =~= response_envelope(id@, response@)) by {
        assert(document@->Object_0 =~= response_envelope(id@, response@)->Object_0);
    }
    write_line(&document)
}

/// The response that allows or denies a tool.
pub open spec fn allowed_reply(allowed: bool) -> ResponseModel {
    ResponseModel::Success { data: Json::Object(seq![("allowed"@, Json::Bool(allowed))]) }
}

/// The response that reports a failure.
pub open spec fn failure_reply(message: Seq<char>) -> ResponseModel {
    ResponseModel::Error { error: message, extra: Json::Object(Seq::empty()) }
}

/// The response that carries the data of a handler.
pub open spec fn data_reply(data: Json) -> ResponseModel {
    ResponseModel::Success { data }
}

/// The message of the response to a hook callback for which no hook is
/// registered.
pub open spec fn missing_hook_message(hook_id: Seq<char>) -> Seq<char> {
    "No handler registered for hook_id: "@ + hook_id
}

/// True where `response` reports the failure `cause`: it carries what the
/// error says, and nothing beside it.
pub open spec fn reports(response: ResponseModel, cause: ClawError) -> bool {
    response matches ResponseModel::Error { error, extra } && cause.says(error) && extra
        == Json::Object(Seq::empty())
}

fn failure_response(message: String) -> (response: ControlResponse)
    ensures
        response@ == failure_reply(message@),
{
    ControlResponse::Error { error: message, extra: JsonValue::empty_object() }
}

/// The response to a permission request, from what the handler returned.
pub fn permission_response(outcome: Result<bool, ClawError>) -> (response: ControlResponse)
    ensures
        match outcome {
            Ok(allowed) => response@ == allowed_reply(allowed),
            Err(error) => reports(response@, error),
        },
{
    match outcome {
        Ok(allowed) => {
            let mut data = JsonObject::new();
            data.insert(String::from_str("allowed"), JsonValue::Bool(allowed));
            assert(data@ =~= seq![("allowed"@, Json::Bool(allowed))]);
            ControlResponse::Success { data: JsonValue::Object(data) }
        },
        Err(error) => failure_response(error.to_string()),
    }
}

/// The response to a hook callback or an MCP message, from what the handler
/// returned.
pub fn handler_response(outcome: Result<JsonValue, ClawError>) -> (response: ControlResponse)
    ensures
        match outcome {
            Ok(data) => response@ == data_reply(data@),
            Err(error) => reports(response@, error),
        },
{
    match outcome {
        Ok(data) => ControlResponse::Success { data },
        Err(error) => failure_response(error.to_string()),
    }
}

/// How the wait for the response to a control request ended.
#[derive(Debug)]
pub enum RequestOutcome {
    /// The response arrived.
    Answered(ControlResponse),
    /// The sender was dropped without a response.
    ChannelClosed,
    /// No response arrived within the time limit.
    TimedOut,
    /// The request could not be written to the backend.
    WriteFailed(ClawError),
}

/// A control request that has been started: its identifier, the line to
/// write to the backend, and the end of the channel on which the response
/// will come.
#[derive(Debug)]
pub struct PendingCall {
    /// Identifier of the request.
    pub id: String,
    /// The line that carries the request.
    pub line: String,
    /// Where the response arrives.
    pub receiver: Receiver<ControlResponse>,
}

/// The error that a wait ends with which brought no response: a closed
/// channel is a control error, a timeout names the kind of message that was
/// waited for, and a failed write is a connection error.
pub open spec fn failed_as(outcome: RequestOutcome, error: ClawError) -> bool {
    match outcome {
        RequestOutcome::Answered(_) => false,
        RequestOutcome::ChannelClosed => error matches ClawError::ControlError(reason) && reason@
            == "Response channel closed"@,
        RequestOutcome::TimedOut => error matches ClawError::ControlTimeout { subtype }
            && subtype@ == "control_request"@,
        RequestOutcome::WriteFailed(cause) => error matches ClawError::Connection(reason)
            && exists|text: Seq<char>| #[trigger]
                cause.says(text) && reason@ == "Failed to send control request: "@ + text,
    }
}

/// What `conclude` returns for each outcome of a request.
pub open spec fn concluded(outcome: RequestOutcome, result: Result<ControlResponse, ClawError>) -> bool {
    match outcome {
        RequestOutcome::Answered(response) => result == Ok::<ControlResponse, ClawError>(response),
        _ => result matches Err(error) && failed_as(outcome, error),
    }
}

/// The control protocol of one session: the requests that wait for their
/// responses, and the handlers for the requests of the backend.
pub struct ControlProtocol {
    pending: PendingRequests,
    handlers: ControlHandlers,
}

impl ControlProtocol {
    /// The waiting requests, each identifier with its sender.
    pub closed spec fn waiting(self) -> Seq<(Seq<char>, Sender<ControlResponse>)> {
        self.pending@
    }

    /// The registered handlers.
    pub closed spec fn registry(self) -> ControlHandlers {
        self.handlers
    }

    /// A protocol without waiting requests and without handlers.
    pub fn new() -> (control: ControlProtocol)
        ensures
            control.waiting() == Seq::<(Seq<char>, Sender<ControlResponse>)>::empty(),
            control.registry().permission_handler() is None,
            control.registry().mcp_handler() is None,
            control.registry().hooks().len() == 0,
    {
        ControlProtocol { pending: PendingRequests::new(), handlers: ControlHandlers::new() }
    }

    /// The handler registry, to register handlers in.
    pub fn handlers(&mut self) -> (handlers: &mut ControlHandlers)
        ensures
            *handlers == old(self).registry(),
            final(self).registry() == *final(handlers),
            final(self).waiting() == old(self).waiting(),
    {
        &mut self.handlers
    }

    /// The handler registry, to look handlers up in.
    pub fn registered(&self) -> (handlers: &ControlHandlers)
        ensures
            *handlers == self.registry(),
    {
        &self.handlers
    }

    /// The number of requests that wait for a response.
    pub fn pending_len(&self) -> (n: usize)
        ensures
            n == self.waiting().len(),
            crate::assoc::distinct_keys(self.waiting()),
    {
        self.pending.len()
    }

    /// Starts a control request: mints an identifier, opens a one-shot
    /// channel, stores its sender under the identifier and writes the line
    /// for the backend.
    pub fn request(&mut self, request: &ControlRequest) -> (call: PendingCall)
        ensures
            call.line@ == line_of(request_envelope(call.id@, request.wire_members())),
            exists|sender: Sender<ControlResponse>|
                final(self).waiting() == upsert(old(self).waiting(), call.id@, sender),
            final(self).registry() == old(self).registry(),
    {
        let id = fresh_request_id();
        let (sender, receiver) = response_channel();
        let line = request_line(id.as_str(), request);
        let ghost stored = sender;
        self.pending.insert(id.clone(), sender);
        assert(self.waiting() == upsert(old(self).waiting(), id@, stored));
        PendingCall { id, line, receiver }
    }

    /// Ends a control request with what came of the wait. A response is
    /// handed on. A closed channel is a control error. After a timeout the
    /// request waits no longer. A failed write is a connection error.
    pub fn conclude(&mut self, id: &str, outcome: RequestOutcome) -> (result: Result<
        ControlResponse,
        ClawError,
    >)
        ensures
            concluded(outcome, result),
            final(self).waiting() == if outcome is TimedOut {
                without(old(self).waiting(), id@)
            } else {
                old(self).waiting()
            },
            outcome is TimedOut ==> lookup(final(self).waiting(), id@) is None,
            final(self).registry() == old(self).registry(),
    {
        match outcome {
            RequestOutcome::Answered(response) => Ok(response),
            RequestOutcome::ChannelClosed => Err(
                ClawError::ControlError(String::from_str("Response channel closed")),
            ),
            RequestOutcome::TimedOut => {
                self.pending.cancel(id);
                Err(ClawError::ControlTimeout { subtype: String::from_str("control_request") })
            },
            RequestOutcome::WriteFailed(error) => Err(
                ClawError::Connection(
                    String::from_str("Failed to send control request: ").concat(
                        error.to_string().as_str(),
                    ),
                ),
            ),
        }
    }

    /// Hands a response of the backend to the request that waits for it, and
    /// takes that request out of the table. Returns whether the waiting side
    /// took the response.
    pub fn handle_response(&mut self, request_id: &str, response: ControlResponse) -> (delivered:
        bool)
        ensures
            final(self).waiting() == without(old(self).waiting(), request_id@),
            lookup(old(self).waiting(), request_id@) is None ==> !delivered,
            final(self).registry() == old(self).registry(),
    {
        self.pending.complete(request_id, response)
    }
}

/// What is to be done with a request of the backend: the response that is
/// fixed already, or the handler to ask and what to hand to it.
pub enum IncomingPlan {
    /// No handler is there for the request; the response is fixed.
    Reply(ControlResponse),
    /// Ask the permission handler whether the tool may be used.
    Ask {
        /// The permission handler of the registry.
        handler: Arc<Box<dyn CanUseToolHandler>>,
        /// Name of the tool, as the request gives it.
        tool_name: String,
        /// Input of the tool, as the request gives it.
        tool_input: JsonValue,
    },
    /// Call the hook that is registered under the identifier of the request.
    Hook {
        /// The hook registered under the identifier.
        handler: Arc<Box<dyn HookHandler>>,
        /// Event of the request.
        hook_event: HookEvent,
        /// Input of the request.
        hook_input: JsonValue,
    },
    /// Hand the message to the MCP handler.
    Mcp {
        /// The MCP handler of the registry.
        handler: Arc<Box<dyn McpMessageHandler>>,
        /// Name of the server, as the request gives it.
        server_name: String,
        /// The JSON-RPC message of the request.
        message: JsonValue,
    },
}

/// A plan as a mathematical value.
pub enum PlanModel {
    Reply(ResponseModel),
    Ask { handler: Arc<Box<dyn CanUseToolHandler>>, tool_name: Seq<char>, tool_input: Json },
    Hook { handler: Arc<Box<dyn HookHandler>>, hook_event: HookEvent, hook_input: Json },
    Mcp { handler: Arc<Box<dyn McpMessageHandler>>, server_name: Seq<char>, message: Json },
}

/// The plan for a request of the backend. A permission request goes to the
/// permission handler with the tool's name and input, and is allowed where
/// there is no handler. A hook callback goes to the hook that is registered
/// under its identifier, whatever its event, with the event and the input;
/// without such a hook it is an error. An MCP message goes to the MCP handler
/// with the server's name and the message; without a handler it is an error.
pub open spec fn incoming_plan(registry: ControlHandlers, request: IncomingModel) -> PlanModel {
    match request {
        IncomingModel::CanUseTool { tool_name, tool_input } => match registry.permission_handler() {
            None => PlanModel::Reply(allowed_reply(true)),
            Some(handler) => PlanModel::Ask { handler, tool_name, tool_input },
        },
        IncomingModel::HookCallback { hook_id, hook_event, hook_input } => match lookup(
            registry.hooks(),
            hook_id,
        ) {
            None => PlanModel::Reply(failure_reply(missing_hook_message(hook_id))),
            Some(handler) => PlanModel::Hook { handler, hook_event, hook_input },
        },
        IncomingModel::McpMessage { server_name, message } => match registry.mcp_handler() {
            None => PlanModel::Reply(failure_reply("No MCP message handler registered"@)),
            Some(handler) => PlanModel::Mcp { handler, server_name, message },
        },
    }
}

/// The responses that a plan may end in: the fixed response; after a
/// permission handler was asked, its decision or its failure; after a hook or
/// the MCP handler was called, its data or its failure.
pub open spec fn carried(plan: PlanModel, response: ResponseModel) -> bool {
    match plan {
        PlanModel::Reply(fixed) => response == fixed,
        PlanModel::Ask { .. } => (exists|allowed: bool| response == allowed_reply(allowed)) || (
        exists|message: Seq<char>| response == failure_reply(message)),
        _ => (exists|data: Json| response == data_reply(data)) || (exists|message: Seq<char>|
            response == failure_reply(message)),
    }
}

/// The responses that may answer an incoming request: those that its plan
/// may end in.
pub open spec fn reply_fits(
    registry: ControlHandlers,
    request: IncomingModel,
    response: ResponseModel,
) -> bool {
    carried(incoming_plan(registry, request), response)
}

impl IncomingPlan {
    /// The plan that this value stands for.
    pub open spec fn model(self) -> PlanModel {
        match self {
            IncomingPlan::Reply(response) => PlanModel::Reply(response@),
            IncomingPlan::Ask { handler, tool_name, tool_input } => PlanModel::Ask {
                handler,
                tool_name: tool_name@,
                tool_input: tool_input@,
            },
            IncomingPlan::Hook { handler, hook_event, hook_input } => PlanModel::Hook {
                handler,
                hook_event,
                hook_input: hook_input@,
            },
            IncomingPlan::Mcp { handler, server_name, message } => PlanModel::Mcp {
                handler,
                server_name: server_name@,
                message: message@,
            },
        }
    }

    /// Carries the plan out: hands the fixed response on, or calls the
    /// handler of the plan on the arguments of the plan and builds the
    /// response from what it returns.
    pub fn carry_out(self) -> (response: ControlResponse)
        ensures
            carried(self.model(), response@),
    {
        match self {
            IncomingPlan::Reply(response) => response,
            IncomingPlan::Ask { handler, tool_name, tool_input } => {
                let outcome = handler.can_use_tool(tool_name.as_str(), &tool_input);
                let ghost returned = outcome;
                let response = permission_response(outcome);
                proof {
                    match returned {
                        Ok(allowed) => {
                            assert(response@ == allowed_reply(allowed));
                        },
                        Err(error) => {
                            assert(reports(response@, error));
                            assert(response@ == failure_reply(response@->Error_error));
                        },
                    }
                }
                response
            },
            IncomingPlan::Hook { handler, hook_event, hook_input } => {
                let outcome = handler.call(hook_event, hook_input);
                let ghost returned = outcome;
                let response = handler_response(outcome);
                proof {
                    match returned {
                        Ok(data) => {
                            assert(response@ == data_reply(data@));
                        },
                        Err(error) => {
                            assert(reports(response@, error));
                            assert(response@ == failure_reply(response@->Error_error));
                        },
                    }
                }
                response
            },
            IncomingPlan::Mcp { handler, server_name, message } => {
                let outcome = handler.handle(server_name.as_str(), message);
                let ghost returned = outcome;
                let response = handler_response(outcome);
                proof {
                    match returned {
                        Ok(data) => {
                            assert(response@ == data_reply(data@));
                        },
                        Err(error) => {
                            assert(reports(response@, error));
                            assert(response@ == failure_reply(response@->Error_error));
                        },
                    }
                }
                response
            },
        }
    }
}

impl ControlProtocol {
    /// Plans the answer to a request of the backend: looks the handler up
    /// and takes a handle to it, so that it can be called after the registry
    /// is free again, and fixes what is handed to it.
    pub fn plan(&self, request: IncomingControlRequest) -> (plan: IncomingPlan)
        ensures
            plan.model() == incoming_plan(self.registry(), request@),
    {
        match request {
            IncomingControlRequest::CanUseTool { tool_name, tool_input } => {
                match self.handlers.can_use_tool_handler() {
                    Some(handler) => IncomingPlan::Ask { handler, tool_name, tool_input },
                    None => IncomingPlan::Reply(permission_response(Ok(true))),
                }
            },
            IncomingControlRequest::HookCallback { hook_id, hook_event, hook_input } => {
                match self.handlers.hook_handler(hook_id.as_str()) {
                    Some(handler) => IncomingPlan::Hook { handler, hook_event, hook_input },
                    None => IncomingPlan::Reply(
                        failure_response(
                            String::from_str("No handler registered for hook_id: ").concat(
                                hook_id.as_str(),
                            ),
                        ),
                    ),
                }
            },
            IncomingControlRequest::McpMessage { server_name, message } => {
                match self.handlers.mcp_message_handler() {
                    Some(handler) => IncomingPlan::Mcp { handler, server_name, message },
                    None => IncomingPlan::Reply(
                        failure_response(String::from_str("No MCP message handler registered")),
                    ),
                }
            },
        }
    }

    /// Answers a request of the backend: plans the answer and carries the
    /// plan out. A permission request without a handler is allowed; a hook
    /// callback or an MCP message without a handler is an error.
    pub fn respond(&self, request: IncomingControlRequest) -> (response: ControlResponse)
        ensures
            reply_fits(self.registry(), request@, response@),
    {
        self.plan(request).carry_out()
    }

    /// Handles a request of the backend and writes the one line that answers
    /// it, under the identifier of the request.
    pub fn handle_incoming(&self, request_id: &str, request: IncomingControlRequest) -> (line:
        String)
        ensures
            exists|response: ResponseModel|
                reply_fits(self.registry(), request@, response) && line@ == line_of(
                    response_envelope(request_id@, response),
                ),
    {
        let ghost asked = request@;
        let response = self.respond(request);
        let line = response_line(request_id, &response);
        assert(reply_fits(self.registry(), asked, response@) && line@ == line_of(
            response_envelope(request_id@, response@),
        ));
        line
    }
}

/// The names of the MCP servers that the runtime hosts.
pub open spec fn server_names(servers: Seq<SdkMcpServer>) -> Seq<Seq<char>> {
    servers.map_values(|server: SdkMcpServer| server.name@)
}

/// True when `request` is the `initialize` request for `options`: it carries
/// the hooks, the agents, the names of the hosted MCP servers and the
/// permission mode of the options, and asks for permission callbacks.
pub open spec fn initializes(request: ControlRequest, options: ClaudeAgentOptions) -> bool {
    request matches ControlRequest::Initialize {
        hooks,
        agents,
        sdk_mcp_servers,
        permissions,
        can_use_tool,
    } && hooks_members(hooks@) == hooks_members(options.hooks@) && agents_members(agents@)
        == agents_members(options.agents@) && sdk_mcp_servers.deep_view() == server_names(
        options.sdk_mcp_servers@,
    ) && permissions == options.permission_mode && can_use_tool
}

fn copy_texts(texts: &Vec<String>) -> (copy: Vec<String>)
    ensures
        copy@ == texts@,
{
    let mut copy: Vec<String> = Vec::new();
    let mut i: usize = 0;
    while i < texts.len()
        invariant
            i <= texts@.len(),
            copy@ == texts@.take(i as int),
        decreases texts@.len() - i,
    {
        copy.push(texts[i].clone());
        assert(copy@ =~= texts@.take(i + 1));
        i += 1;
    }
    assert(texts@.take(texts@.len() as int) =~= texts@);
    copy
}

fn copy_matchers(matchers: &Vec<HookMatcher>) -> (copy: Vec<HookMatcher>)
    ensures
        copy@ == matchers@,
{
    let mut copy: Vec<HookMatcher> = Vec::new();
    let mut i: usize = 0;
    while i < matchers.len()
        invariant
            i <= matchers@.len(),
            copy@ == matchers@.take(i as int),
        decreases matchers@.len() - i,
    {
        let tool_name = match &matchers[i].tool_name {
            Some(name) => Some(name.clone()),
            None => None,
        };
        copy.push(HookMatcher { tool_name });
        assert(copy@ =~= matchers@.take(i + 1));
        i += 1;
    }
    assert(matchers@.take(matchers@.len() as int) =~= matchers@);
    copy
}

fn copy_hooks(hooks: &Vec<(HookEvent, Vec<HookMatcher>)>) -> (copy: Vec<
    (HookEvent, Vec<HookMatcher>),
>)
    ensures
        copy@.len() == hooks@.len(),
        hooks_members(copy@) == hooks_members(hooks@),
{
    let mut copy: Vec<(HookEvent, Vec<HookMatcher>)> = Vec::new();
    let mut i: usize = 0;
    while i < hooks.len()
        invariant
            i <= hooks@.len(),
            copy@.len() == i,
            hooks_members(copy@) == hooks_members(hooks@.take(i as int)),
        decreases hooks@.len() - i,
    {
        let ghost before = copy@;
        copy.push((hooks[i].0, copy_matchers(&hooks[i].1)));
        proof {
            assert(copy@.drop_last() =~= before);
            assert(hooks@.take(i + 1).drop_last() =~= hooks@.take(i as int));
        }
        i += 1;
    }
    assert(hooks@.take(hooks@.len() as int) =~= hooks@);
    copy
}

fn copy_agents(agents: &Vec<(String, AgentDefinition)>) -> (copy: Vec<(String, AgentDefinition)>)
    ensures
        copy@.len() == agents@.len(),
        agents_members(copy@) == agents_members(agents@),
{
    let mut copy: Vec<(String, AgentDefinition)> = Vec::new();
    let mut i: usize = 0;
    while i < agents.len()
        invariant
            i <= agents@.len(),
            copy@.len() == i,
            agents_members(copy@) == agents_members(agents@.take(i as int)),
        decreases agents@.len() - i,
    {
        let ghost before = copy@;
        let agent = &agents[i].1;
        let definition = AgentDefinition {
            description: agent.description.clone(),
            prompt: agent.prompt.clone(),
            tools: copy_texts(&agent.tools),
            model: match &agent.model {
                Some(model) => Some(model.clone()),
                None => None,
            },
        };
        proof {
            assert(definition.tools.deep_view() =~= agent.tools.deep_view());
        }
        copy.push((agents[i].0.clone(), definition));
        proof {
            assert(copy@.drop_last() =~= before);
            assert(agents@.take(i + 1).drop_last() =~= agents@.take(i as int));
        }
        i += 1;
    }
    assert(agents@.take(agents@.len() as int) =~= agents@);
    copy
}

/// Builds the `initialize` request for a session with `options`.
pub fn initialize_request(options: &ClaudeAgentOptions) -> (request: ControlRequest)
    ensures
        initializes(request, *options),
{
    let mut names: Vec<String> = Vec::new();
    let mut i: usize = 0;
    while i < options.sdk_mcp_servers.len()
        invariant
            i <= options.sdk_mcp_servers@.len(),
            names@.len() == i,
            forall|k: int| 0 <= k < i ==> (#[trigger] names@[k])@ == options.sdk_mcp_servers@[k].name@,
        decreases options.sdk_mcp_servers@.len() - i,
    {
        names.push(options.sdk_mcp_servers[i].name.clone());
        i += 1;
    }
    assert(names.deep_view() =~= server_names(options.sdk_mcp_servers@));
    ControlRequest::Initialize {
        hooks: copy_hooks(&options.hooks),
        agents: copy_agents(&options.agents),
        sdk_mcp_servers: names,
        permissions: options.permission_mode,
        can_use_tool: true,
    }
}

/// What a control operation returns for a response: nothing for a success,
/// and for an error the control error whose message is `prefix`, a colon and
/// the error of the backend.
pub open spec fn operation_verdict(
    prefix: Seq<char>,
    response: ResponseModel,
    result: Result<(), ClawError>,
) -> bool {
    match response {
        ResponseModel::Success { .. } => result is Ok,
        ResponseModel::Error { error, .. } => result matches Err(ClawError::ControlError(reason))
            && reason@ == prefix + ": "@ + error,
    }
}

/// Judges the response to a control operation; `prefix` names the operation
/// in the message of a failure.
pub fn operation_result(prefix: &str, response: ControlResponse) -> (result: Result<(), ClawError>)
    ensures
        operation_verdict(prefix@, response@, result),
{
    match response {
        ControlResponse::Success { .. } => Ok(()),
        ControlResponse::Error { error, .. } => Err(
            ClawError::ControlError(
                String::from_str(prefix).concat(": ").concat(error.as_str()),
            ),
        ),
    }
}

/// Judges the response to the `initialize` request.
pub fn initialize_result(response: ControlResponse) -> (result: Result<(), ClawError>)
    ensures
        operation_verdict("Initialization failed"@, response@, result),
{
    operation_result("Initialization failed", response)
}

/// Judges the response to the `interrupt` request.
pub fn interrupt_result(response: ControlResponse) -> (result: Result<(), ClawError>)
    ensures
        operation_verdict("Interrupt failed"@, response@, result),
{
    operation_result("Interrupt failed", response)
}

/// Judges the response to the `set_permission_mode` request.
pub fn set_permission_mode_result(response: ControlResponse) -> (result: Result<(), ClawError>)
    ensures
        operation_verdict("Set permission mode failed"@, response@, result),
{
    operation_result("Set permission mode failed", response)
}

/// Judges the response to the `set_model` request.
pub fn set_model_result(response: ControlResponse) -> (result: Result<(), ClawError>)
    ensures
        operation_verdict("Set model failed"@, response@, result),
{
    operation_result("Set model failed", response)
}

/// Judges the response to the `rewind_files` request.
pub fn rewind_files_result(response: ControlResponse) -> (result: Result<(), ClawError>)
    ensures
        operation_verdict("Rewind files failed"@, response@, result),
{
    operation_result("Rewind files failed", response)
}

impl ControlProtocol {
    /// Starts the `initialize` request for a session with `options`.
    pub fn initialize(&mut self, options: &ClaudeAgentOptions) -> (call: PendingCall)
        ensures
            exists|request: ControlRequest|
                initializes(request, *options) && call.line@ == line_of(
                    request_envelope(call.id@, #[trigger] request.wire_members()),
                ),
            exists|sender: Sender<ControlResponse>|
                final(self).waiting() == upsert(old(self).waiting(), call.id@, sender),
            final(self).registry() == old(self).registry(),
    {
        let request = initialize_request(options);
        let call = self.request(&request);
        assert(initializes(request, *options) && call.line@ == line_of(
            request_envelope(call.id@, request.wire_members()),
        ));
        call
    }
}

} // verus!
