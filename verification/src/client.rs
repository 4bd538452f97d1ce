use crate::control::messages::{
    tagged, tagged_with, ControlRequest, ControlResponse, IncomingControlRequest, IncomingModel,
    ResponseModel,
};
use crate::assoc::{lemma_position_none, upsert, without};
use crate::control::handlers::{CanUseToolHandler, HookHandler, McpMessageHandler};
use crate::control::{
    initializes, line_of, operation_verdict, reply_fits, request_envelope,
    response_envelope, ControlProtocol, PendingCall, RequestOutcome,
};
use crate::json::codec::encode;
use crate::options::{ClaudeAgentOptions, PermissionMode};
use crate::transport::subprocess::{ConnectStep, SubprocessCLITransport};
use std::path::PathBuf;
use std::sync::Arc;
use tokio::sync::oneshot::Sender;
use crate::error::ClawError;
use crate::json::{Json, JsonValue};
use crate::text::str_eq;
use vstd::prelude::*;

verus! {

/// Where the router sends a message of the backend.
#[derive(Debug)]
pub enum Routed {
    /// A control response: it completes the request `request_id`.
    Response { request_id: String, response: ControlResponse },
    /// A control request: it is handled, and answered under `request_id`.
    Request { request_id: String, request: IncomingControlRequest },
    /// Any other message: it goes to the user.
    Forward(JsonValue),
    /// A control message that cannot be read: it is dropped.
    Dropped,
}

/// The destination of a message as a mathematical value.
pub enum Route {
    Response { request_id: Seq<char>, response: ResponseModel },
    Request { request_id: Seq<char>, request: IncomingModel },
    Forward,
    Dropped,
}

/// The text of a member, or the empty text where the member is missing or is
/// no string.
pub open spec fn text_or_empty(document: Json, key: Seq<char>) -> Seq<char> {
    match document.text_field(key) {
        Some(text) => text,
        None => Seq::empty(),
    }
}

/// Where a message goes, by its member `type`. A `control_response` is read
/// from its member `response`, which also holds the identifier of the
/// request. A `control_request` is read from its member `request`; its
/// identifier stands beside that. A control message that cannot be read is
/// dropped. Everything else goes to the user.
pub open spec fn route_of(message: Json) -> Route {
    match message.text_field("type"@) {
        Some(kind) => if kind == "control_response"@ {
            match message.field("response"@) {
                Some(inner) => match ResponseModel::parsed(inner) {
                    Some(response) => Route::Response {
                        request_id: text_or_empty(inner, "request_id"@),
                        response,
                    },
                    None => Route::Dropped,
                },
                None => Route::Dropped,
            }
        } else if kind == "control_request"@ {
            match message.field("request"@) {
                Some(inner) => match IncomingModel::parsed(inner) {
                    Some(request) => Route::Request {
                        request_id: text_or_empty(message, "request_id"@),
                        request,
                    },
                    None => Route::Dropped,
                },
                None => Route::Dropped,
            }
        } else {
            Route::Forward
        },
        None => Route::Forward,
    }
}

impl Routed {
    /// The destination that this value stands for.
    pub open spec fn route(self) -> Route {
        match self {
            Routed::Response { request_id, response } => Route::Response {
                request_id: request_id@,
                response: response@,
            },
            Routed::Request { request_id, request } => Route::Request {
                request_id: request_id@,
                request: request@,
            },
            Routed::Forward(_) => Route::Forward,
            Routed::Dropped => Route::Dropped,
        }
    }
}

fn text_or_empty_of(document: &JsonValue, key: &str) -> (text: String)
    ensures
        text@ == text_or_empty(document@, key@),
{
    match document.get_str(key) {
        Some(text) => String::from_str(text),
        None => String::new(),
    }
}

/// Decides where a message of the backend goes. A message for the user is
/// handed back as it came.
pub fn route(message: JsonValue) -> (routed: Routed)
    ensures
        routed.route() == route_of(message@),
        routed matches Routed::Forward(forwarded) ==> forwarded == message,
{
    let kind = match message.get_str("type") {
        Some(kind) => kind,
        None => {
            return Routed::Forward(message);
        },
    };
    if str_eq(kind, "control_response") {
        match message.get("response") {
            Some(inner) => match ControlResponse::from_json(inner) {
                Some(response) => Routed::Response {
                    request_id: text_or_empty_of(inner, "request_id"),
                    response,
                },
                None => Routed::Dropped,
            },
            None => Routed::Dropped,
        }
    } else if str_eq(kind, "control_request") {
        match message.get("request") {
            Some(inner) => match IncomingControlRequest::from_json(inner) {
                Some(request) => Routed::Request {
                    request_id: text_or_empty_of(&message, "request_id"),
                    request,
                },
                None => Routed::Dropped,
            },
            None => Routed::Dropped,
        }
    } else {
        Routed::Forward(message)
    }
}

/// Control messages never reach the user: a message whose member `type` is
/// `control_response` or `control_request` is not forwarded.
pub proof fn law_control_messages_stay_inside(message: Json)
    requires
        message.text_field("type"@) == Some("control_response"@) || message.text_field("type"@)
            == Some("control_request"@),
    ensures
        !(route_of(message) is Forward),
{
}

/// Every other message reaches the user.
pub proof fn law_other_messages_are_forwarded(message: Json)
    requires
        message.text_field("type"@) != Some("control_response"@),
        message.text_field("type"@) != Some("control_request"@),
    ensures
        route_of(message) is Forward,
{
}

/// The identifier of a control response is read from inside its member
/// `response`, that of a control request from beside its member `request`.
pub proof fn law_identifier_positions(message: Json)
    ensures
        route_of(message) matches Route::Response { request_id, .. } ==> request_id
            == text_or_empty(message.field("response"@)->0, "request_id"@),
        route_of(message) matches Route::Request { request_id, .. } ==> request_id
            == text_or_empty(message, "request_id"@),
{
}

/// A control response that cannot be read is dropped: it completes no
/// request.
pub proof fn law_malformed_response_is_dropped(message: Json)
    requires
        message.text_field("type"@) == Some("control_response"@),
        message.field("response"@) is None || ResponseModel::parsed(
            message.field("response"@)->0,
        ) is None,
    ensures
        route_of(message) is Dropped,
{
}

/// What the router does with one item of the inbound channel.
#[derive(Debug)]
pub enum RouterAction {
    /// Send the item to the user.
    Forward(Result<JsonValue, ClawError>),
    /// Write the line to the backend.
    Write(String),
    /// Do nothing more.
    Nothing,
}

/// The destination of an item of the inbound channel: an error goes to the
/// user; a message goes where `route_of` sends it.
pub open spec fn destination(item: Result<JsonValue, ClawError>) -> Route {
    match item {
        Ok(message) => route_of(message@),
        Err(_) => Route::Forward,
    }
}

/// True for the items that go to the user.
pub open spec fn for_user(item: Result<JsonValue, ClawError>) -> bool {
    destination(item) is Forward
}

/// True for the items that are control requests of the backend.
pub open spec fn is_request(item: Result<JsonValue, ClawError>) -> bool {
    destination(item) is Request
}

/// True when `line` answers the control request that `item` holds: it is
/// the line of a response that fits the request, under the identifier of the
/// request.
pub open spec fn answers(
    control: ControlProtocol,
    item: Result<JsonValue, ClawError>,
    line: Seq<char>,
) -> bool {
    match destination(item) {
        Route::Request { request_id, request } => exists|response: ResponseModel|
            reply_fits(control.registry(), request, response) && line == line_of(
                response_envelope(request_id, response),
            ),
        _ => false,
    }
}

/// What one step of the router does. An item for the user is forwarded as it
/// came. A control response completes its request, which then waits no
/// longer, and nothing reaches the user. A control request is answered with
/// one line, and nothing reaches the user. A control message that cannot be
/// read changes nothing.
pub open spec fn step_fits(
    before: ControlProtocol,
    item: Result<JsonValue, ClawError>,
    action: RouterAction,
    after: ControlProtocol,
) -> bool {
    &&& after.registry() == before.registry()
    &&& match destination(item) {
        Route::Forward => action == RouterAction::Forward(item) && after.waiting()
            == before.waiting(),
        Route::Response { request_id, .. } => action is Nothing && after.waiting() == without(
            before.waiting(),
            request_id,
        ),
        Route::Request { .. } => action matches RouterAction::Write(line) && answers(
            before,
            item,
            line@,
        ) && after.waiting() == before.waiting(),
        Route::Dropped => action is Nothing && after.waiting() == before.waiting(),
    }
}

/// Takes one item of the inbound channel and decides what is done with it.
pub fn router_step(control: &mut ControlProtocol, item: Result<JsonValue, ClawError>) -> (action:
    RouterAction)
    ensures
        step_fits(*old(control), item, action, *final(control)),
{
    let message = match item {
        Ok(message) => message,
        Err(error) => {
            return RouterAction::Forward(Err(error));
        },
    };
    match route(message) {
        Routed::Response { request_id, response } => {
            let _ = control.handle_response(request_id.as_str(), response);
            RouterAction::Nothing
        },
        Routed::Request { request_id, request } => {
            let line = control.handle_incoming(request_id.as_str(), request);
            RouterAction::Write(line)
        },
        Routed::Forward(message) => RouterAction::Forward(Ok(message)),
        Routed::Dropped => RouterAction::Nothing,
    }
}

/// Whether the router goes on after a step.
#[derive(Debug, Clone, Copy, PartialEq, Eq, Structural)]
pub enum RouterFlow {
    /// Take the next item of the inbound channel.
    Continue,
    /// End the routing; nothing has failed.
    Stop,
}

/// Decides how the router goes on after it sent an item to the user:
/// `taken` tells whether the user's channel took the item. While the channel
/// takes the items the router goes on. Once the user has dropped the stream
/// of responses the channel takes nothing, and the router stops.
pub fn after_forward(taken: bool) -> (flow: RouterFlow)
    ensures
        flow == if taken {
            RouterFlow::Continue
        } else {
            RouterFlow::Stop
        },
{
    if taken {
        RouterFlow::Continue
    } else {
        RouterFlow::Stop
    }
}

/// The items that go to the user, in their order.
pub open spec fn user_items(items: Seq<Result<JsonValue, ClawError>>) -> Seq<
    Result<JsonValue, ClawError>,
> {
    items.filter(|item: Result<JsonValue, ClawError>| for_user(item))
}

/// The items that are control requests of the backend, in their order.
pub open spec fn requests_of(items: Seq<Result<JsonValue, ClawError>>) -> Seq<
    Result<JsonValue, ClawError>,
> {
    items.filter(|item: Result<JsonValue, ClawError>| is_request(item))
}

/// The requests that still wait after the router has taken `items`: each
/// control response among them took its request out.
pub open spec fn waiting_after<T>(
    waiting: Seq<(Seq<char>, T)>,
    items: Seq<Result<JsonValue, ClawError>>,
) -> Seq<(Seq<char>, T)>
    decreases items.len(),
{
    if items.len() == 0 {
        waiting
    } else {
        let before = waiting_after(waiting, items.drop_last());
        match destination(items.last()) {
            Route::Response { request_id, .. } => without(before, request_id),
            _ => before,
        }
    }
}

/// What the router made of a run of items: what went to the user, and what
/// was written to the backend.
#[derive(Debug)]
pub struct RouterOutput {
    /// The items for the user, in the order in which they came.
    pub user: Vec<Result<JsonValue, ClawError>>,
    /// The lines for the backend, in the order of the requests they answer.
    pub written: Vec<String>,
}

/// Routes a run of items of the inbound channel, first to last. The user
/// gets exactly the items that are no control messages, in the order in
/// which they came. Each control request that can be read is answered with
/// exactly one line. Each control response that can be read takes its
/// request out of the waiting ones; one that cannot be read changes nothing.
pub fn run_router(control: &mut ControlProtocol, items: Vec<Result<JsonValue, ClawError>>) -> (out:
    RouterOutput)
    ensures
        out.user@ == user_items(items@),
        out.written@.len() == requests_of(items@).len(),
        forall|k: int|
            0 <= k < out.written@.len() ==> answers(
                *old(control),
                #[trigger] requests_of(items@)[k],
                out.written@[k]@,
            ),
        final(control).waiting() == waiting_after(old(control).waiting(), items@),
        final(control).registry() == old(control).registry(),
{
    let mut user: Vec<Result<JsonValue, ClawError>> = Vec::new();
    let mut written: Vec<String> = Vec::new();
    let ghost all = items@;
    proof {
        assert(all.take(0) =~= Seq::<Result<JsonValue, ClawError>>::empty());
        reveal(Seq::filter);
    }
    for item in it: items
        invariant
            it.seq() == all,
            control.registry() == old(control).registry(),
            control.waiting() == waiting_after(old(control).waiting(), all.take(it.index() as int)),
            user@ == user_items(all.take(it.index() as int)),
            written@.len() == requests_of(all.take(it.index() as int)).len(),
            forall|k: int|
                0 <= k < written@.len() ==> answers(
                    *old(control),
                    #[trigger] requests_of(all.take(it.index() as int))[k],
                    written@[k]@,
                ),
    {
        proof {
            let before = all.take(it.index() as int);
            let after = all.take(it.index() + 1);
            assert(after.drop_last() =~= before);
            assert(after.last() == item);
            reveal(Seq::filter);
            assert(user_items(after) == if for_user(item) {
                user_items(before).push(item)
            } else {
                user_items(before)
            });
            assert(requests_of(after) == if is_request(item) {
                requests_of(before).push(item)
            } else {
                requests_of(before)
            });
        }
        match router_step(control, item) {
            RouterAction::Forward(forwarded) => {
                user.push(forwarded);
            },
            RouterAction::Write(line) => {
                written.push(line);
            },
            RouterAction::Nothing => {},
        }
    }
    proof {
        assert(all.take(all.len() as int) =~= all);
    }
    RouterOutput { user, written }
}

/// The envelope of a message of the user.
pub open spec fn user_envelope(content: Seq<char>) -> Json {
    Json::Object(
        seq![
            ("type"@, Json::Text("user"@)),
            ("session_id"@, Json::Text(Seq::empty())),
            (
                "message"@,
                Json::Object(
                    seq![("role"@, Json::Text("user"@)), ("content"@, Json::Text(content))],
                ),
            ),
            ("parent_tool_use_id"@, Json::Null),
        ],
    )
}

/// Writes the line that carries a message of the user to the backend.
pub fn user_message_line(content: &str) -> (line: String)
    ensures
        line@ == line_of(user_envelope(content@)),
{
    proof {
        reveal_strlit("type");
        reveal_strlit("session_id");
        reveal_strlit("message");
        reveal_strlit("parent_tool_use_id");
        reveal_strlit("role");
        reveal_strlit("content");
        reveal_strlit("");
        reveal_strlit("\n");
        assert("type"@.len() != "session_id"@.len());
        assert("type"@.len() != "message"@.len());
        assert("session_id"@.len() != "message"@.len());
        assert("role"@.len() != "content"@.len());
        assert(""@ =~= Seq::<char>::empty());
        assert("\n"@ =~= seq!['\n']);
    }
    let message = JsonValue::object2(
        "role",
        JsonValue::text("user"),
        "content",
        JsonValue::text(content),
    );
    let envelope = JsonValue::object3(
        "type",
        JsonValue::text("user"),
        "session_id",
        JsonValue::text(""),
        "message",
        message,
    );
    let mut object = match envelope {
        JsonValue::Object(object) => object,
        _ => crate::json::JsonObject::new(),
    };
    proof {
        assert("type"@.len() != "parent_tool_use_id"@.len());
        assert("session_id"@.len() != "parent_tool_use_id"@.len());
        assert("message"@.len() != "parent_tool_use_id"@.len());
        lemma_position_none(object@, "parent_tool_use_id"@);
    }
    object.insert(String::from_str("parent_tool_use_id"), JsonValue::Null);
    let document = JsonValue::Object(object);
    assert(document@->Object_0 =~= user_envelope(content@)->Object_0);
    encode(&document).concat("\n")
}

/// What `mcp_status` returns for a success: the member `data` of the
/// response, and the whole data of the response where there is no such
/// member.
pub open spec fn status_of(data: Json) -> Json {
    match data.field("data"@) {
        Some(inner) => inner,
        None => data,
    }
}

/// Judges the response to the `mcp_status` request.
pub fn mcp_status_result(response: ControlResponse) -> (result: Result<JsonValue, ClawError>)
    ensures
        match response@ {
            ResponseModel::Success { data } => result matches Ok(status) && status@ == status_of(
                data,
            ),
            ResponseModel::Error { error, .. } => result matches Err(
                ClawError::ControlError(reason),
            ) && reason@ == "MCP status query failed: "@ + error,
        },
{
    match response {
        ControlResponse::Success { data } => {
            let inner = match data.get("data") {
                Some(inner) => Some(inner.clone()),
                None => None,
            };
            match inner {
                Some(inner) => Ok(inner),
                None => Ok(data),
            }
        },
        ControlResponse::Error { error, .. } => Err(
            ClawError::ControlError(
                String::from_str("MCP status query failed: ").concat(error.as_str()),
            ),
        ),
    }
}

/// Where a session stands.
#[derive(Debug, Clone, Copy, PartialEq, Eq, Structural)]
pub enum Lifecycle {
    /// Created; nothing runs yet.
    Constructed,
    /// The backend is being started and the handshake runs.
    Connecting,
    /// The backend runs and the session is initialized.
    Connected,
    /// The session was closed; it cannot be connected again.
    Closed,
}

/// A persistent session with the backend: the options it was made with, the
/// transport and the control protocol while it is connected, and the MCP
/// handler that was registered before the connection.
pub struct ClaudeClient {
    control: Option<ControlProtocol>,
    transport: Option<SubprocessCLITransport>,
    options: ClaudeAgentOptions,
    stage: Lifecycle,
    stream_waiting: bool,
    pending_mcp_handler: Option<Arc<Box<dyn McpMessageHandler>>>,
}

/// The message of the error for an operation on a session that is not
/// connected.
pub open spec fn not_connected_message() -> Seq<char> {
    "Not connected. Call connect() first."@
}

/// The message of the error for a second call of `send_message`.
pub open spec fn receiver_taken_message() -> Seq<char> {
    "Message receiver already taken; send_message() can only be called once per client."@
}

fn not_connected() -> (error: ClawError)
    ensures
        error matches ClawError::Connection(reason) && reason@ == not_connected_message(),
{
    ClawError::Connection(String::from_str("Not connected. Call connect() first."))
}

impl ClaudeClient {
    #[verifier::type_invariant]
    spec fn stage_fits(self) -> bool {
        match self.stage {
            Lifecycle::Constructed => self.control is None && self.transport is None
                && !self.stream_waiting,
            Lifecycle::Connecting => self.transport is Some && !self.stream_waiting,
            Lifecycle::Connected => self.control is Some && self.transport is Some,
            Lifecycle::Closed => self.control is None && self.transport is None
                && !self.stream_waiting,
        }
    }

    /// Where the session stands.
    pub closed spec fn lifecycle(self) -> Lifecycle {
        self.stage
    }

    /// The options of the session.
    pub closed spec fn settings(self) -> ClaudeAgentOptions {
        self.options
    }

    /// The control protocol, once the transport is connected.
    pub closed spec fn protocol(self) -> Option<ControlProtocol> {
        self.control
    }

    /// The transport, while the session connects or is connected.
    pub closed spec fn carrier(self) -> Option<SubprocessCLITransport> {
        self.transport
    }

    /// The MCP handler that waits to be installed at the connection.
    pub closed spec fn waiting_mcp_handler(self) -> Option<Arc<Box<dyn McpMessageHandler>>> {
        self.pending_mcp_handler
    }

    /// True while the stream of responses waits to be taken.
    pub closed spec fn stream_ready(self) -> bool {
        self.stream_waiting
    }

    fn dismantle(&mut self) -> (whole: ClaudeClient)
        ensures
            whole == *old(self),
    {
        let mut spare = ClaudeClient {
            control: None,
            transport: None,
            options: ClaudeAgentOptions::default(),
            stage: Lifecycle::Closed,
            stream_waiting: false,
            pending_mcp_handler: None,
        };
        core::mem::swap(self, &mut spare);
        spare
    }

    /// True where transport and control protocol are there as the stage of
    /// the session asks: neither before the connection and after the close,
    /// the transport while the session connects, both while it is connected.
    /// The stream of responses can wait only while the session is connected.
    pub open spec fn fits(self) -> bool {
        match self.lifecycle() {
            Lifecycle::Constructed => self.protocol() is None && self.carrier() is None
                && !self.stream_ready(),
            Lifecycle::Connecting => self.carrier() is Some && !self.stream_ready(),
            Lifecycle::Connected => self.protocol() is Some && self.carrier() is Some,
            Lifecycle::Closed => self.protocol() is None && self.carrier() is None
                && !self.stream_ready(),
        }
    }

    /// Tells where the session stands. Every session fits its stage.
    pub fn stage(&self) -> (stage: Lifecycle)
        ensures
            stage == self.lifecycle(),
            self.fits(),
    {
        proof {
            use_type_invariant(self);
        }
        self.stage
    }

    /// Creates a session; nothing is started.
    pub fn new(options: ClaudeAgentOptions) -> (client: Result<ClaudeClient, ClawError>)
        ensures
            client matches Ok(c) && c.lifecycle() == Lifecycle::Constructed && c.settings()
                == options && c.waiting_mcp_handler() is None && !c.stream_ready()
                && c.protocol() is None && c.carrier() is None,
    {
        Ok(
            ClaudeClient {
                control: None,
                transport: None,
                options,
                stage: Lifecycle::Constructed,
                stream_waiting: false,
                pending_mcp_handler: None,
            },
        )
    }

    /// True when the session is initialized and its transport is connected.
    pub fn is_connected(&self) -> (connected: bool)
        ensures
            connected == (self.lifecycle() == Lifecycle::Connected && self.carrier() is Some
                && self.carrier()->0.is_connected()),
    {
        match &self.transport {
            Some(transport) => transport.is_ready() && self.stage == Lifecycle::Connected,
            None => false,
        }
    }

    /// True when `after` is this session after `connect` began: it has a
    /// transport that is not connected yet and carries the arguments of the
    /// session; everything else is as it was.
    pub open spec fn begins_to_connect(self, after: ClaudeClient) -> bool {
        &&& after.lifecycle() == Lifecycle::Connecting
        &&& after.carrier() is Some
        &&& after.carrier()->0.arguments() == self.settings().session_args()
        &&& !after.carrier()->0.is_connected()
        &&& after.protocol() is None
        &&& after.settings() == self.settings()
        &&& after.waiting_mcp_handler() == self.waiting_mcp_handler()
        &&& !after.stream_ready()
    }

    /// Begins to connect: builds the arguments of the backend from the
    /// options and makes the transport. Only a session that was never
    /// connected can connect. Returns the first step of the transport.
    pub fn connect(&mut self) -> (step: Result<ConnectStep, ClawError>)
        ensures
            old(self).lifecycle() != Lifecycle::Constructed ==> (step matches Err(
                ClawError::Connection(reason),
            ) && reason@ == (if old(self).lifecycle() == Lifecycle::Closed {
                "client is closed"@
            } else {
                "already connected"@
            }) && *final(self) == *old(self)),
            old(self).lifecycle() == Lifecycle::Constructed ==> (step matches Ok(
                ConnectStep::Discover { cli_path },
            ) && cli_path == old(self).settings().cli_path && old(self).begins_to_connect(
                *final(self),
            )),
    {
        match self.stage {
            Lifecycle::Constructed => {},
            Lifecycle::Closed => {
                return Err(ClawError::Connection(String::from_str("client is closed")));
            },
            _ => {
                return Err(ClawError::Connection(String::from_str("already connected")));
            },
        }
        let cli_path = match &self.options.cli_path {
            Some(path) => Some(crate::transport::subprocess::clone_path(path)),
            None => None,
        };
        let transport = SubprocessCLITransport::new(cli_path, self.options.to_session_args());
        let step = transport.connect();
        let ClaudeClient { options, pending_mcp_handler, .. } = self.dismantle();
        *self = ClaudeClient {
            control: None,
            transport: Some(transport),
            options,
            stage: Lifecycle::Connecting,
            stream_waiting: false,
            pending_mcp_handler,
        };
        step
    }

    /// True when `after` is this session after its backend was started: the
    /// transport is connected and its channel of messages was handed out; the
    /// control protocol exists and holds the MCP handler that was registered
    /// before, so that the handler is in place when the handshake begins.
    pub open spec fn started_from(self, after: ClaudeClient) -> bool {
        &&& after.lifecycle() == Lifecycle::Connecting
        &&& after.settings() == self.settings()
        &&& after.carrier() is Some
        &&& after.carrier()->0.is_connected()
        &&& after.carrier()->0.input_open()
        &&& !after.carrier()->0.messages_waiting()
        &&& after.protocol() is Some
        &&& after.protocol()->0.registry().mcp_handler() == self.waiting_mcp_handler()
        &&& after.protocol()->0.registry().permission_handler() is None
        &&& after.protocol()->0.registry().hooks().len() == 0
        &&& after.waiting_mcp_handler() is None
        &&& !after.stream_ready()
    }

    /// Goes on after the backend was started at `cli_path` as the process
    /// `pid`: marks the transport connected, takes its channel of messages,
    /// makes the control protocol, installs the MCP handler that was
    /// registered before, and only then starts the `initialize` request.
    pub fn spawned(&mut self, cli_path: PathBuf, pid: Option<u32>) -> (call: Result<
        PendingCall,
        ClawError,
    >)
        ensures
            old(self).lifecycle() == Lifecycle::Connecting ==> (
            call matches Ok(started) && old(self).started_from(*final(self)) && (exists|
                request: ControlRequest,
            |
                initializes(request, old(self).settings()) && started.line@ == line_of(
                    request_envelope(started.id@, #[trigger] request.wire_members()),
                )) && final(self).protocol()->0.waiting().len() == 1
                && final(self).protocol()->0.waiting()[0].0 == started.id@),
            old(self).lifecycle() != Lifecycle::Connecting ==> (
            call matches Err(ClawError::Connection(reason)) && reason@ == not_connected_message()
                && *final(self) == *old(self)),
    {
        if self.stage != Lifecycle::Connecting {
            return Err(not_connected());
        }
        proof {
            use_type_invariant(&*self);
        }
        let ClaudeClient { control, transport, options, stage, stream_waiting, pending_mcp_handler } =
            self.dismantle();
        let mut transport = match transport {
            Some(transport) => transport,
            None => {
                *self = ClaudeClient {
                    control,
                    transport,
                    options,
                    stage,
                    stream_waiting,
                    pending_mcp_handler,
                };
                return Err(not_connected());
            },
        };
        transport.resolved(cli_path);
        transport.connected(pid);
        transport.messages();
        let mut control = ControlProtocol::new();
        match pending_mcp_handler {
            Some(handler) => {
                control.handlers().install_mcp_message(handler);
            },
            None => {},
        }
        let call = control.initialize(&options);
        proof {
            let sender = choose|sender: Sender<ControlResponse>|
                control.waiting() == upsert(
                    Seq::<(Seq<char>, Sender<ControlResponse>)>::empty(),
                    call.id@,
                    sender,
                );
            assert(control.waiting() =~= seq![(call.id@, sender)]);
        }
        *self = ClaudeClient {
            control: Some(control),
            transport: Some(transport),
            options,
            stage,
            stream_waiting: false,
            pending_mcp_handler: None,
        };
        Ok(call)
    }

    /// Gives the connection up after a step of it failed: the session is as
    /// if it had never tried.
    pub fn connect_failed(&mut self)
        ensures
            final(self).lifecycle() == (if old(self).lifecycle() == Lifecycle::Connecting {
                Lifecycle::Constructed
            } else {
                old(self).lifecycle()
            }),
            old(self).lifecycle() == Lifecycle::Connecting ==> final(self).protocol() is None
                && final(self).carrier() is None && !final(self).stream_ready(),
            old(self).lifecycle() != Lifecycle::Connecting ==> *final(self) == *old(self),
            final(self).settings() == old(self).settings(),
            final(self).waiting_mcp_handler() == old(self).waiting_mcp_handler(),
    {
        if self.stage == Lifecycle::Connecting {
            let ClaudeClient { control: _, transport: _, options, stage: _, stream_waiting: _, pending_mcp_handler } =
                self.dismantle();
            *self = ClaudeClient {
                control: None,
                transport: None,
                options,
                stage: Lifecycle::Constructed,
                stream_waiting: false,
                pending_mcp_handler,
            };
        }
    }

    /// True when `after` is this session after the handshake succeeded: it
    /// is connected and its stream of responses waits to be taken; transport
    /// and handlers are as they were.
    pub open spec fn connected_as(self, after: ClaudeClient) -> bool {
        &&& after.lifecycle() == Lifecycle::Connected
        &&& after.stream_ready()
        &&& after.carrier() == self.carrier()
        &&& after.protocol() is Some
        &&& after.protocol()->0.registry() == self.protocol()->0.registry()
    }

    /// True when `after` is this session after the connection was given up.
    pub open spec fn given_up(self, after: ClaudeClient) -> bool {
        &&& after.lifecycle() == Lifecycle::Constructed
        &&& after.protocol() is None
        &&& after.carrier() is None
        &&& !after.stream_ready()
        &&& after.settings() == self.settings()
        &&& after.waiting_mcp_handler() == self.waiting_mcp_handler()
    }

    /// What `initialized` returns: for a session that does not connect, the
    /// error that says so; for a response, the judgement of the handshake;
    /// else the error that the wait ended with.
    pub open spec fn handshake_verdict(
        self,
        outcome: RequestOutcome,
        result: Result<(), ClawError>,
    ) -> bool {
        if self.lifecycle() != Lifecycle::Connecting || self.protocol() is None {
            result matches Err(ClawError::Connection(reason)) && reason@
                == not_connected_message()
        } else {
            match outcome {
                RequestOutcome::Answered(response) => operation_verdict(
                    "Initialization failed"@,
                    response@,
                    result,
                ),
                _ => result matches Err(error) && crate::control::failed_as(outcome, error),
            }
        }
    }

    /// Ends the handshake with what came of the `initialize` request `id`.
    /// After a success the session is connected and its stream of responses
    /// waits to be taken. After a failure the connection is given up, and the
    /// failure is returned: a control error for an error of the backend, and
    /// else what the wait ended with. A session that does not connect stays as
    /// it is.
    pub fn initialized(&mut self, id: &str, outcome: RequestOutcome) -> (result: Result<
        (),
        ClawError,
    >)
        ensures
            old(self).handshake_verdict(outcome, result),
            old(self).lifecycle() != Lifecycle::Connecting ==> *final(self) == *old(self),
            old(self).lifecycle() == Lifecycle::Connecting && result is Ok ==> old(
                self,
            ).connected_as(*final(self)),
            old(self).lifecycle() == Lifecycle::Connecting && result is Err ==> old(
                self,
            ).given_up(*final(self)),
            final(self).settings() == old(self).settings(),
    {
        if self.stage != Lifecycle::Connecting {
            return Err(not_connected());
        }
        proof {
            use_type_invariant(&*self);
        }
        let ClaudeClient { control, transport, options, stage, stream_waiting, pending_mcp_handler } =
            self.dismantle();
        let mut control = match control {
            Some(control) => control,
            None => {
                *self = ClaudeClient {
                    control: None,
                    transport: None,
                    options,
                    stage: Lifecycle::Constructed,
                    stream_waiting: false,
                    pending_mcp_handler,
                };
                return Err(not_connected());
            },
        };
        let result = match control.conclude(id, outcome) {
            Ok(response) => crate::control::initialize_result(response),
            Err(error) => Err(error),
        };
        match result {
            Ok(()) => {
                *self = ClaudeClient {
                    control: Some(control),
                    transport,
                    options,
                    stage: Lifecycle::Connected,
                    stream_waiting: true,
                    pending_mcp_handler,
                };
                Ok(())
            },
            Err(error) => {
                *self = ClaudeClient {
                    control: None,
                    transport: None,
                    options,
                    stage: Lifecycle::Constructed,
                    stream_waiting: false,
                    pending_mcp_handler,
                };
                Err(error)
            },
        }
    }

    /// True when the session is connected and has its control protocol.
    pub open spec fn in_session(self) -> bool {
        self.lifecycle() == Lifecycle::Connected && self.protocol() is Some
    }

    /// Writes the line that carries a message of the user. A session that is
    /// not connected refuses.
    pub fn send_message(&self, content: &str) -> (line: Result<String, ClawError>)
        ensures
            self.in_session() ==> (line matches Ok(text) && text@ == line_of(
                user_envelope(content@),
            )),
            !self.in_session() ==> (line matches Err(ClawError::Connection(reason)) && reason@
                == not_connected_message()),
    {
        if self.stage != Lifecycle::Connected || self.control.is_none() {
            return Err(not_connected());
        }
        Ok(user_message_line(content))
    }

    /// Takes the stream of responses. It can be taken once; after that the
    /// session refuses.
    pub fn take_stream(&mut self) -> (taken: Result<(), ClawError>)
        ensures
            old(self).stream_ready() ==> taken is Ok,
            !old(self).stream_ready() ==> (taken matches Err(ClawError::Connection(reason))
                && reason@ == receiver_taken_message()),
            !final(self).stream_ready(),
            final(self).lifecycle() == old(self).lifecycle(),
            final(self).protocol() == old(self).protocol(),
            final(self).carrier() == old(self).carrier(),
            final(self).settings() == old(self).settings(),
            final(self).waiting_mcp_handler() == old(self).waiting_mcp_handler(),
    {
        proof {
            use_type_invariant(&*self);
        }
        if self.stream_waiting {
            self.stream_waiting = false;
            Ok(())
        } else {
            Err(
                ClawError::Connection(
                    String::from_str(
                        "Message receiver already taken; send_message() can only be called once per client.",
                    ),
                ),
            )
        }
    }

    /// True when `after` is this session with its control protocol replaced
    /// by `control`.
    pub open spec fn with_protocol(self, control: ControlProtocol, after: ClaudeClient) -> bool {
        &&& after.protocol() == Some(control)
        &&& after.lifecycle() == self.lifecycle()
        &&& after.carrier() == self.carrier()
        &&& after.settings() == self.settings()
        &&& after.stream_ready() == self.stream_ready()
        &&& after.waiting_mcp_handler() == self.waiting_mcp_handler()
    }

    /// Starts a control request. A session that is not connected refuses.
    pub fn request(&mut self, request: &ControlRequest) -> (call: Result<PendingCall, ClawError>)
        ensures
            old(self).in_session() ==> (call matches Ok(started) && started.line@ == line_of(
                request_envelope(started.id@, request.wire_members()),
            ) && exists|control: ControlProtocol, sender: Sender<ControlResponse>|
                old(self).with_protocol(control, *final(self)) && control.registry() == old(
                    self,
                ).protocol()->0.registry() && control.waiting() == upsert(
                    old(self).protocol()->0.waiting(),
                    started.id@,
                    sender,
                )),
            !old(self).in_session() ==> (call matches Err(ClawError::Connection(reason))
                && reason@ == not_connected_message() && *final(self) == *old(self)),
    {
        if self.stage != Lifecycle::Connected {
            return Err(not_connected());
        }
        proof {
            use_type_invariant(&*self);
        }
        let ClaudeClient { control, transport, options, stage, stream_waiting, pending_mcp_handler } =
            self.dismantle();
        let mut control = match control {
            Some(control) => control,
            None => {
                *self = ClaudeClient {
                    control: None,
                    transport,
                    options,
                    stage,
                    stream_waiting,
                    pending_mcp_handler,
                };
                return Err(not_connected());
            },
        };
        let call = control.request(request);
        let ghost after = control;
        *self = ClaudeClient {
            control: Some(control),
            transport,
            options,
            stage,
            stream_waiting,
            pending_mcp_handler,
        };
        assert(old(self).with_protocol(after, *self));
        Ok(call)
    }

    /// Starts the request that interrupts the backend.
    pub fn interrupt(&mut self) -> (call: Result<PendingCall, ClawError>)
        ensures
            old(self).in_session() ==> (call matches Ok(started) && started.line@ == line_of(
                request_envelope(started.id@, tagged("interrupt"@)),
            )),
            !old(self).in_session() ==> (call matches Err(ClawError::Connection(reason))
                && reason@ == not_connected_message() && *final(self) == *old(self)),
    {
        self.request(&ControlRequest::Interrupt)
    }

    /// Starts the request that changes the permission mode; the mode goes
    /// over the wire in the spelling of the command line.
    pub fn set_permission_mode(&mut self, mode: PermissionMode) -> (call: Result<
        PendingCall,
        ClawError,
    >)
        ensures
            old(self).in_session() ==> (call matches Ok(started) && started.line@ == line_of(
                request_envelope(
                    started.id@,
                    tagged_with("set_permission_mode"@, "mode"@, mode.cli_arg()),
                ),
            )),
            !old(self).in_session() ==> (call matches Err(ClawError::Connection(reason))
                && reason@ == not_connected_message() && *final(self) == *old(self)),
    {
        let request = ControlRequest::SetPermissionMode { mode: String::from_str(mode.to_cli_arg()) };
        self.request(&request)
    }

    /// Starts the request that switches the model.
    pub fn set_model(&mut self, model: &str) -> (call: Result<PendingCall, ClawError>)
        ensures
            old(self).in_session() ==> (call matches Ok(started) && started.line@ == line_of(
                request_envelope(started.id@, tagged_with("set_model"@, "model"@, model@)),
            )),
            !old(self).in_session() ==> (call matches Err(ClawError::Connection(reason))
                && reason@ == not_connected_message() && *final(self) == *old(self)),
    {
        let request = ControlRequest::SetModel { model: String::from_str(model) };
        self.request(&request)
    }

    /// Starts the request for the status of the MCP servers.
    pub fn mcp_status(&mut self) -> (call: Result<PendingCall, ClawError>)
        ensures
            old(self).in_session() ==> (call matches Ok(started) && started.line@ == line_of(
                request_envelope(started.id@, tagged("mcp_status"@)),
            )),
            !old(self).in_session() ==> (call matches Err(ClawError::Connection(reason))
                && reason@ == not_connected_message() && *final(self) == *old(self)),
    {
        self.request(&ControlRequest::McpStatus)
    }

    /// Starts the request that rewinds the files to their state at a
    /// message.
    pub fn rewind_files(&mut self, message_id: &str) -> (call: Result<PendingCall, ClawError>)
        ensures
            old(self).in_session() ==> (call matches Ok(started) && started.line@ == line_of(
                request_envelope(
                    started.id@,
                    tagged_with("rewind_files"@, "message_id"@, message_id@),
                ),
            )),
            !old(self).in_session() ==> (call matches Err(ClawError::Connection(reason))
                && reason@ == not_connected_message() && *final(self) == *old(self)),
    {
        let request = ControlRequest::RewindFiles { message_id: String::from_str(message_id) };
        self.request(&request)
    }

    /// Ends a control request with what came of the wait; see
    /// `ControlProtocol::conclude`. Without a control protocol the outcome is
    /// judged all the same, and nothing else changes.
    pub fn conclude(&mut self, id: &str, outcome: RequestOutcome) -> (result: Result<
        ControlResponse,
        ClawError,
    >)
        ensures
            crate::control::concluded(outcome, result),
            old(self).protocol() is None ==> *final(self) == *old(self),
            old(self).protocol() is Some ==> exists|control: ControlProtocol|
                old(self).with_protocol(control, *final(self)) && control.registry() == old(
                    self,
                ).protocol()->0.registry() && control.waiting() == (if outcome is TimedOut {
                    without(old(self).protocol()->0.waiting(), id@)
                } else {
                    old(self).protocol()->0.waiting()
                }),
    {
        proof {
            use_type_invariant(&*self);
        }
        let ClaudeClient { control, transport, options, stage, stream_waiting, pending_mcp_handler } =
            self.dismantle();
        let mut control = match control {
            Some(control) => control,
            None => {
                *self = ClaudeClient {
                    control: None,
                    transport,
                    options,
                    stage,
                    stream_waiting,
                    pending_mcp_handler,
                };
                let mut spare = ControlProtocol::new();
                return spare.conclude(id, outcome);
            },
        };
        let result = control.conclude(id, outcome);
        let ghost after = control;
        *self = ClaudeClient {
            control: Some(control),
            transport,
            options,
            stage,
            stream_waiting,
            pending_mcp_handler,
        };
        assert(old(self).with_protocol(after, *self));
        result
    }

    /// Registers the permission handler. Before the connection there is no
    /// registry, and the handler is passed over.
    pub fn register_can_use_tool_handler(&mut self, handler: Box<dyn CanUseToolHandler>)
        ensures
            old(self).protocol() is None ==> *final(self) == *old(self),
            old(self).protocol() is Some ==> exists|control: ControlProtocol|
                old(self).with_protocol(control, *final(self)) && control.waiting() == old(
                    self,
                ).protocol()->0.waiting() && control.registry().permission_handler() == Some(
                    Arc::new(handler),
                ) && control.registry().hooks() == old(self).protocol()->0.registry().hooks()
                    && control.registry().mcp_handler() == old(
                    self,
                ).protocol()->0.registry().mcp_handler(),
    {
        proof {
            use_type_invariant(&*self);
        }
        let ClaudeClient { control, transport, options, stage, stream_waiting, pending_mcp_handler } =
            self.dismantle();
        let mut control = match control {
            Some(control) => control,
            None => {
                *self = ClaudeClient {
                    control: None,
                    transport,
                    options,
                    stage,
                    stream_waiting,
                    pending_mcp_handler,
                };
                return ;
            },
        };
        let shared = Arc::new(handler);
        control.handlers().install_can_use_tool(shared);
        let ghost after = control;
        *self = ClaudeClient {
            control: Some(control),
            transport,
            options,
            stage,
            stream_waiting,
            pending_mcp_handler,
        };
        assert(old(self).with_protocol(after, *self));
        assert(after.registry().hooks() == old(self).protocol()->0.registry().hooks());
        assert(after.registry().permission_handler() == Some(Arc::new(handler)));
    }

    /// Registers a hook under `hook_id`. Before the connection there is no
    /// registry, and the hook is passed over.
    pub fn register_hook(&mut self, hook_id: String, handler: Box<dyn HookHandler>)
        ensures
            old(self).protocol() is None ==> *final(self) == *old(self),
            old(self).protocol() is Some ==> exists|control: ControlProtocol|
                old(self).with_protocol(control, *final(self)) && control.waiting() == old(
                    self,
                ).protocol()->0.waiting() && control.registry().hooks() == upsert(
                    old(self).protocol()->0.registry().hooks(),
                    hook_id@,
                    Arc::new(handler),
                ) && control.registry().permission_handler() == old(
                    self,
                ).protocol()->0.registry().permission_handler()
                    && control.registry().mcp_handler() == old(
                    self,
                ).protocol()->0.registry().mcp_handler(),
    {
        proof {
            use_type_invariant(&*self);
        }
        let ClaudeClient { control, transport, options, stage, stream_waiting, pending_mcp_handler } =
            self.dismantle();
        let mut control = match control {
            Some(control) => control,
            None => {
                *self = ClaudeClient {
                    control: None,
                    transport,
                    options,
                    stage,
                    stream_waiting,
                    pending_mcp_handler,
                };
                return ;
            },
        };
        let shared: Arc<Box<dyn HookHandler>> = Arc::new(handler);
        control.handlers().install_hook(hook_id, shared);
        let ghost after = control;
        *self = ClaudeClient {
            control: Some(control),
            transport,
            options,
            stage,
            stream_waiting,
            pending_mcp_handler,
        };
        assert(old(self).with_protocol(after, *self));
    }

    /// Registers the MCP handler. After the connection it goes into the
    /// registry. Before the connection it is kept, and installed when the
    /// session connects, ahead of the handshake.
    pub fn register_mcp_message_handler(&mut self, handler: Box<dyn McpMessageHandler>)
        ensures
            old(self).protocol() is None ==> final(self).waiting_mcp_handler() == Some(
                Arc::new(handler),
            ) && final(self).protocol() is None,
            old(self).protocol() is None ==> final(self).lifecycle() == old(self).lifecycle()
                && final(self).carrier() == old(self).carrier() && final(self).settings()
                == old(self).settings() && final(self).stream_ready() == old(
                self,
            ).stream_ready(),
            old(self).protocol() is Some ==> exists|control: ControlProtocol|
                old(self).with_protocol(control, *final(self)) && control.waiting() == old(
                    self,
                ).protocol()->0.waiting() && control.registry().mcp_handler() == Some(
                    Arc::new(handler),
                ) && control.registry().hooks() == old(self).protocol()->0.registry().hooks()
                    && control.registry().permission_handler() == old(
                    self,
                ).protocol()->0.registry().permission_handler(),
    {
        proof {
            use_type_invariant(&*self);
        }
        let ClaudeClient { control, transport, options, stage, stream_waiting, pending_mcp_handler } =
            self.dismantle();
        let mut control = match control {
            Some(control) => control,
            None => {
                let slot = Some(Arc::new(handler));
                *self = ClaudeClient {
                    control: None,
                    transport,
                    options,
                    stage,
                    stream_waiting,
                    pending_mcp_handler: slot,
                };
                return ;
            },
        };
        let shared = Arc::new(handler);
        control.handlers().install_mcp_message(shared);
        let ghost after = control;
        *self = ClaudeClient {
            control: Some(control),
            transport,
            options,
            stage,
            stream_waiting,
            pending_mcp_handler,
        };
        assert(old(self).with_protocol(after, *self));
    }

    /// The control protocol, once the transport is connected.
    pub fn control(&self) -> (control: Option<&ControlProtocol>)
        ensures
            control == match self.protocol() {
                Some(c) => Some(&c),
                None => None,
            },
    {
        self.control.as_ref()
    }

    /// Hands a response of the backend to the request that waits for it; see
    /// `ControlProtocol::handle_response`. Without a control protocol nothing
    /// waits.
    pub fn handle_response(&mut self, request_id: &str, response: ControlResponse) -> (delivered:
        bool)
        ensures
            old(self).protocol() is None ==> !delivered && *final(self) == *old(self),
            old(self).protocol() is Some ==> exists|control: ControlProtocol|
                old(self).with_protocol(control, *final(self)) && control.registry() == old(
                    self,
                ).protocol()->0.registry() && control.waiting() == without(
                    old(self).protocol()->0.waiting(),
                    request_id@,
                ),
    {
        proof {
            use_type_invariant(&*self);
        }
        let ClaudeClient { control, transport, options, stage, stream_waiting, pending_mcp_handler } =
            self.dismantle();
        let mut control = match control {
            Some(control) => control,
            None => {
                *self = ClaudeClient {
                    control: None,
                    transport,
                    options,
                    stage,
                    stream_waiting,
                    pending_mcp_handler,
                };
                return false;
            },
        };
        let delivered = control.handle_response(request_id, response);
        let ghost after = control;
        *self = ClaudeClient {
            control: Some(control),
            transport,
            options,
            stage,
            stream_waiting,
            pending_mcp_handler,
        };
        assert(old(self).with_protocol(after, *self));
        delivered
    }

    /// Takes one item of the inbound channel and decides what is done with
    /// it; see `router_step`. Without a control protocol nothing waits and no
    /// handler is registered.
    pub fn route_item(&mut self, item: Result<JsonValue, ClawError>) -> (action: RouterAction)
        ensures
            old(self).protocol() is Some ==> exists|control: ControlProtocol|
                old(self).with_protocol(control, *final(self)) && step_fits(
                    old(self).protocol()->0,
                    item,
                    action,
                    control,
                ),
            old(self).protocol() is None ==> *final(self) == *old(self),
            for_user(item) <==> action is Forward,
            for_user(item) ==> action == RouterAction::Forward(item),
            is_request(item) <==> action is Write,
    {
        proof {
            use_type_invariant(&*self);
        }
        let ClaudeClient { control, transport, options, stage, stream_waiting, pending_mcp_handler } =
            self.dismantle();
        let mut control = match control {
            Some(control) => control,
            None => {
                *self = ClaudeClient {
                    control: None,
                    transport,
                    options,
                    stage,
                    stream_waiting,
                    pending_mcp_handler,
                };
                let mut spare = ControlProtocol::new();
                return router_step(&mut spare, item);
            },
        };
        let action = router_step(&mut control, item);
        let ghost after = control;
        *self = ClaudeClient {
            control: Some(control),
            transport,
            options,
            stage,
            stream_waiting,
            pending_mcp_handler,
        };
        assert(old(self).with_protocol(after, *self));
        action
    }

    /// Closes the session. A session that connects or is connected hands its
    /// transport out, to be shut down, and is closed for good. Any other
    /// session stays as it is. After the call the session has neither
    /// transport nor control protocol, whatever it was.
    pub fn close(&mut self) -> (transport: Option<SubprocessCLITransport>)
        ensures
            old(self).lifecycle() == Lifecycle::Connected || old(self).lifecycle()
                == Lifecycle::Connecting ==> transport == old(self).carrier() && final(
                self).lifecycle() == Lifecycle::Closed && final(self).protocol() is None
                && final(self).carrier() is None && !final(self).stream_ready(),
            !(old(self).lifecycle() == Lifecycle::Connected || old(self).lifecycle()
                == Lifecycle::Connecting) ==> transport is None && *final(self) == *old(self),
            final(self).settings() == old(self).settings(),
            final(self).protocol() is None,
            final(self).carrier() is None,
            !final(self).stream_ready(),
            final(self).lifecycle() == Lifecycle::Closed || final(self).lifecycle()
                == Lifecycle::Constructed,
    {
        proof {
            use_type_invariant(&*self);
        }
        match self.stage {
            Lifecycle::Connected | Lifecycle::Connecting => {
                let ClaudeClient { control: _, transport, options, stage: _, stream_waiting: _, pending_mcp_handler } =
                    self.dismantle();
                *self = ClaudeClient {
                    control: None,
                    transport: None,
                    options,
                    stage: Lifecycle::Closed,
                    stream_waiting: false,
                    pending_mcp_handler,
                };
                transport
            },
            _ => None,
        }
    }
}

/// The stream of typed responses of a session. It ends when the inbound
/// channel is closed.
#[derive(Debug)]
pub struct ResponseStream {
    is_complete: bool,
}

impl ResponseStream {
    /// True after the stream has ended.
    pub closed spec fn complete(self) -> bool {
        self.is_complete
    }

    /// Creates a stream that has not ended.
    pub fn new() -> (stream: ResponseStream)
        ensures
            !stream.complete(),
    {
        ResponseStream { is_complete: false }
    }

    /// Tells whether the stream has ended.
    pub fn is_complete(&self) -> (complete: bool)
        ensures
            complete == self.complete(),
    {
        self.is_complete
    }

    /// Makes the next item of the stream from what the inbound channel gave:
    /// `None` from a closed channel, which ends the stream; else the typed
    /// message of the item, or its error. A stream that has ended gives
    /// nothing more.
    pub fn next(&mut self, received: Option<Result<JsonValue, ClawError>>) -> (item: Option<
        Result<crate::messages::Message, ClawError>,
    >)
        ensures
            final(self).complete() == (old(self).complete() || received is None),
            old(self).complete() || received is None ==> item is None,
            !old(self).complete() && received is Some ==> item is Some && crate::messages::typed(
                received->0,
                item->0,
            ),
    {
        if self.is_complete {
            return None;
        }
        match received {
            Some(item) => Some(crate::messages::parse_item(item)),
            None => {
                self.is_complete = true;
                None
            },
        }
    }
}

} // verus!
