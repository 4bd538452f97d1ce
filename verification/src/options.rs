use crate::json::JsonValue;
use crate::text::{decimal, decimal_string, join, joined, str_eq, text_of};
use std::path::PathBuf;
use vstd::prelude::*;

verus! {

/// System prompt configuration.
#[derive(Debug, Clone)]
pub enum SystemPrompt {
    /// Custom system prompt text.
    Custom(String),
    /// Named preset system prompt.
    Preset {
        /// Preset name.
        preset: String,
    },
}

/// Permission mode for tool execution.
#[derive(Debug, Clone, Copy, PartialEq, Eq, Structural)]
pub enum PermissionMode {
    /// Default permission mode.
    Default,
    /// Accept all edit operations.
    AcceptEdits,
    /// Bypass all permission checks.
    BypassPermissions,
    /// Plan mode requiring approval.
    Plan,
    /// Allow all tool use without prompting.
    Allow,
    /// Prompt the user for each tool use.
    Ask,
    /// Deny all tool use.
    Deny,
    /// Use custom permission logic via hooks.
    Custom,
}

impl PermissionMode {
    /// The spelling of this mode on the backend's command line and on the
    /// wire.
    pub open spec fn cli_arg(self) -> Seq<char> {
        match self {
            PermissionMode::Default => "default"@,
            PermissionMode::AcceptEdits => "acceptEdits"@,
            PermissionMode::BypassPermissions => "bypassPermissions"@,
            PermissionMode::Plan => "plan"@,
            PermissionMode::Allow => "allow"@,
            PermissionMode::Ask => "ask"@,
            PermissionMode::Deny => "deny"@,
            PermissionMode::Custom => "custom"@,
        }
    }

    /// The mode with the spelling `text`.
    pub open spec fn spelled(text: Seq<char>) -> Option<PermissionMode> {
        if text == "default"@ {
            Some(PermissionMode::Default)
        } else if text == "acceptEdits"@ {
            Some(PermissionMode::AcceptEdits)
        } else if text == "bypassPermissions"@ {
            Some(PermissionMode::BypassPermissions)
        } else if text == "plan"@ {
            Some(PermissionMode::Plan)
        } else if text == "allow"@ {
            Some(PermissionMode::Allow)
        } else if text == "ask"@ {
            Some(PermissionMode::Ask)
        } else if text == "deny"@ {
            Some(PermissionMode::Deny)
        } else if text == "custom"@ {
            Some(PermissionMode::Custom)
        } else {
            None
        }
    }

    /// Reads a mode from its command-line spelling.
    pub fn from_cli_arg(text: &str) -> (mode: Option<PermissionMode>)
        ensures
            mode == PermissionMode::spelled(text@),
    {
        if str_eq(text, "default") {
            Some(PermissionMode::Default)
        } else if str_eq(text, "acceptEdits") {
            Some(PermissionMode::AcceptEdits)
        } else if str_eq(text, "bypassPermissions") {
            Some(PermissionMode::BypassPermissions)
        } else if str_eq(text, "plan") {
            Some(PermissionMode::Plan)
        } else if str_eq(text, "allow") {
            Some(PermissionMode::Allow)
        } else if str_eq(text, "ask") {
            Some(PermissionMode::Ask)
        } else if str_eq(text, "deny") {
            Some(PermissionMode::Deny)
        } else if str_eq(text, "custom") {
            Some(PermissionMode::Custom)
        } else {
            None
        }
    }

    /// Converts the mode to its command-line spelling.
    pub fn to_cli_arg(&self) -> (arg: &'static str)
        ensures
            arg@ == self.cli_arg(),
    {
        match self {
            PermissionMode::Default => "default",
            PermissionMode::AcceptEdits => "acceptEdits",
            PermissionMode::BypassPermissions => "bypassPermissions",
            PermissionMode::Plan => "plan",
            PermissionMode::Allow => "allow",
            PermissionMode::Ask => "ask",
            PermissionMode::Deny => "deny",
            PermissionMode::Custom => "custom",
        }
    }
}

/// Configuration of an external MCP server.
#[derive(Debug, Clone)]
pub struct McpServerConfig {}

/// An MCP server that the runtime hosts itself, as it is declared to the
/// backend.
#[derive(Debug, Clone)]
pub struct SdkMcpServer {
    /// Server name (unique).
    pub name: String,
    /// Server version.
    pub version: String,
}

/// The lifecycle points at which the backend calls a hook.
#[derive(Debug, Clone, Copy, Hash, PartialEq, Eq, Structural)]
pub enum HookEvent {
    /// Before a tool is invoked.
    PreToolUse,
    /// After a tool completed.
    PostToolUse,
    /// After a tool failed.
    PostToolUseFailure,
    /// When the user submits a prompt.
    UserPromptSubmit,
    /// When the session stops.
    Stop,
    /// When a subagent stops.
    SubagentStop,
    /// When a subagent starts.
    SubagentStart,
    /// Before the conversation is compacted.
    PreCompact,
    /// A notification of the system.
    Notification,
    /// A permission request.
    PermissionRequest,
}

impl HookEvent {
    /// The name of this event on the wire.
    pub open spec fn wire_name(self) -> Seq<char> {
        match self {
            HookEvent::PreToolUse => "PreToolUse"@,
            HookEvent::PostToolUse => "PostToolUse"@,
            HookEvent::PostToolUseFailure => "PostToolUseFailure"@,
            HookEvent::UserPromptSubmit => "UserPromptSubmit"@,
            HookEvent::Stop => "Stop"@,
            HookEvent::SubagentStop => "SubagentStop"@,
            HookEvent::SubagentStart => "SubagentStart"@,
            HookEvent::PreCompact => "PreCompact"@,
            HookEvent::Notification => "Notification"@,
            HookEvent::PermissionRequest => "PermissionRequest"@,
        }
    }

    /// The event with the wire name `name`.
    pub open spec fn named(name: Seq<char>) -> Option<HookEvent> {
        if name == "PreToolUse"@ {
            Some(HookEvent::PreToolUse)
        } else if name == "PostToolUse"@ {
            Some(HookEvent::PostToolUse)
        } else if name == "PostToolUseFailure"@ {
            Some(HookEvent::PostToolUseFailure)
        } else if name == "UserPromptSubmit"@ {
            Some(HookEvent::UserPromptSubmit)
        } else if name == "Stop"@ {
            Some(HookEvent::Stop)
        } else if name == "SubagentStop"@ {
            Some(HookEvent::SubagentStop)
        } else if name == "SubagentStart"@ {
            Some(HookEvent::SubagentStart)
        } else if name == "PreCompact"@ {
            Some(HookEvent::PreCompact)
        } else if name == "Notification"@ {
            Some(HookEvent::Notification)
        } else if name == "PermissionRequest"@ {
            Some(HookEvent::PermissionRequest)
        } else {
            None
        }
    }

    /// Reads an event from its wire name.
    pub fn from_name(name: &str) -> (event: Option<HookEvent>)
        ensures
            event == HookEvent::named(name@),
    {
        if str_eq(name, "PreToolUse") {
            Some(HookEvent::PreToolUse)
        } else if str_eq(name, "PostToolUse") {
            Some(HookEvent::PostToolUse)
        } else if str_eq(name, "PostToolUseFailure") {
            Some(HookEvent::PostToolUseFailure)
        } else if str_eq(name, "UserPromptSubmit") {
            Some(HookEvent::UserPromptSubmit)
        } else if str_eq(name, "Stop") {
            Some(HookEvent::Stop)
        } else if str_eq(name, "SubagentStop") {
            Some(HookEvent::SubagentStop)
        } else if str_eq(name, "SubagentStart") {
            Some(HookEvent::SubagentStart)
        } else if str_eq(name, "PreCompact") {
            Some(HookEvent::PreCompact)
        } else if str_eq(name, "Notification") {
            Some(HookEvent::Notification)
        } else if str_eq(name, "PermissionRequest") {
            Some(HookEvent::PermissionRequest)
        } else {
            None
        }
    }

    /// The name of this event on the wire.
    pub fn name(&self) -> (name: &'static str)
        ensures
            name@ == self.wire_name(),
    {
        match self {
            HookEvent::PreToolUse => "PreToolUse",
            HookEvent::PostToolUse => "PostToolUse",
            HookEvent::PostToolUseFailure => "PostToolUseFailure",
            HookEvent::UserPromptSubmit => "UserPromptSubmit",
            HookEvent::Stop => "Stop",
            HookEvent::SubagentStop => "SubagentStop",
            HookEvent::SubagentStart => "SubagentStart",
            HookEvent::PreCompact => "PreCompact",
            HookEvent::Notification => "Notification",
            HookEvent::PermissionRequest => "PermissionRequest",
        }
    }
}

/// Selects the tools for which a hook is called.
#[derive(Debug, Clone)]
pub struct HookMatcher {
    /// The tool name to match, or `None` for every tool.
    pub tool_name: Option<String>,
}

impl HookMatcher {
    /// The tool names that this matcher accepts.
    pub open spec fn accepts(self, tool_name: Seq<char>) -> bool {
        match self.tool_name {
            None => true,
            Some(pattern) => pattern@ == tool_name,
        }
    }

    /// A matcher that matches all tools.
    pub fn all() -> (matcher: HookMatcher)
        ensures
            matcher.tool_name is None,
    {
        HookMatcher { tool_name: None }
    }

    /// A matcher for one tool name.
    pub fn tool(name: &str) -> (matcher: HookMatcher)
        ensures
            matcher.tool_name is Some,
            matcher.tool_name->0@ == name@,
    {
        HookMatcher { tool_name: Some(String::from_str(name)) }
    }

    /// Checks whether this matcher matches the tool name.
    pub fn matches(&self, tool_name: &str) -> (matched: bool)
        ensures
            matched == self.accepts(tool_name@),
    {
        match &self.tool_name {
            None => true,
            Some(pattern) => str_eq(pattern.as_str(), tool_name),
        }
    }
}

/// Definition of a subagent.
#[derive(Debug, Clone)]
pub struct AgentDefinition {
    /// Agent description.
    pub description: String,
    /// Agent prompt.
    pub prompt: String,
    /// Allowed tools.
    pub tools: Vec<String>,
    /// Model override.
    pub model: Option<String>,
}

/// Sandbox settings.
#[derive(Debug, Clone)]
pub struct SandboxSettings;

/// The path type of the standard library, taken as an opaque value.
#[verifier::external_type_specification]
#[verifier::external_body]
pub struct ExPathBuf(PathBuf);

/// Configuration options for a session with the backend.
#[derive(Debug, Clone)]
pub struct ClaudeAgentOptions {
    /// System prompt configuration.
    pub system_prompt: Option<SystemPrompt>,
    /// Additional text to append to the system prompt.
    pub append_system_prompt: Option<String>,
    /// Maximum conversation turns.
    pub max_turns: Option<u32>,
    /// Model identifier.
    pub model: Option<String>,
    /// Tools to explicitly allow.
    pub allowed_tools: Vec<String>,
    /// Tools to explicitly disallow.
    pub disallowed_tools: Vec<String>,
    /// Permission mode for tool execution.
    pub permission_mode: Option<PermissionMode>,
    /// Tools that require permission prompts.
    pub permission_prompt_tool_allowlist: Vec<String>,
    /// External MCP servers by name.
    pub mcp_servers: Vec<(String, McpServerConfig)>,
    /// MCP servers hosted by the runtime.
    pub sdk_mcp_servers: Vec<SdkMcpServer>,
    /// Hook matchers by event.
    pub hooks: Vec<(HookEvent, Vec<HookMatcher>)>,
    /// Agent definitions by name.
    pub agents: Vec<(String, AgentDefinition)>,
    /// Session to resume.
    pub resume: Option<String>,
    /// Fork the resumed session.
    pub fork_session: bool,
    /// Session name.
    pub session_name: Option<String>,
    /// Enable file-based checkpointing.
    pub enable_file_checkpointing: bool,
    /// Working directory of the backend.
    pub cwd: Option<PathBuf>,
    /// Path of the backend executable.
    pub cli_path: Option<PathBuf>,
    /// Environment variables for the backend.
    pub env: Vec<(String, String)>,
    /// Settings sources; `None` isolates the session from user settings.
    pub settings_sources: Option<Vec<String>>,
    /// Output format specification.
    pub output_format: Option<JsonValue>,
    /// Include partial messages in the output.
    pub include_partial_messages: bool,
    /// Beta features to enable.
    pub betas: Vec<String>,
    /// Sandbox settings.
    pub sandbox_settings: Option<SandboxSettings>,
}

/// A flag followed by its value, where there is one.
pub open spec fn valued(flag: Seq<char>, value: Option<Seq<char>>) -> Seq<Seq<char>> {
    match value {
        Some(v) => seq![flag, v],
        None => Seq::empty(),
    }
}

/// A flag that stands alone, where it is switched on.
pub open spec fn switch(flag: Seq<char>, on: bool) -> Seq<Seq<char>> {
    if on {
        seq![flag]
    } else {
        Seq::empty()
    }
}

/// A flag followed by the items joined with commas, where there are any.
pub open spec fn listed(flag: Seq<char>, items: Seq<Seq<char>>) -> Seq<Seq<char>> {
    if items.len() == 0 {
        Seq::empty()
    } else {
        seq![flag, joined(items, ","@)]
    }
}

/// The arguments for the system prompt.
pub open spec fn prompt_args(prompt: Option<SystemPrompt>) -> Seq<Seq<char>> {
    match prompt {
        Some(SystemPrompt::Custom(text)) => seq!["--system-prompt"@, text@],
        Some(SystemPrompt::Preset { preset }) => seq!["--system-prompt-preset"@, preset@],
        None => Seq::empty(),
    }
}

/// The value of `--setting-sources`: the sources joined with commas, and the
/// empty string where none are configured.
pub open spec fn sources_value(sources: Option<Vec<String>>) -> Seq<char> {
    match sources {
        Some(list) => joined(list.deep_view(), ","@),
        None => Seq::empty(),
    }
}

fn push_text(args: &mut Vec<String>, text: &str)
    ensures
        final(args).deep_view() == old(args).deep_view().push(text@),
{
    args.push(String::from_str(text));
    assert(args.deep_view() =~= old(args).deep_view().push(text@));
}

fn push_valued(args: &mut Vec<String>, flag: &str, value: &Option<String>)
    ensures
        final(args).deep_view() == old(args).deep_view() + valued(flag@, text_of(*value)),
{
    match value {
        Some(text) => {
            push_text(args, flag);
            push_text(args, text.as_str());
            assert(args.deep_view() =~= old(args).deep_view() + valued(flag@, text_of(*value)));
        },
        None => {
            assert(args.deep_view() =~= old(args).deep_view() + valued(flag@, text_of(*value)));
        },
    }
}

fn push_switch(args: &mut Vec<String>, flag: &str, on: bool)
    ensures
        final(args).deep_view() == old(args).deep_view() + switch(flag@, on),
{
    if on {
        push_text(args, flag);
    }
    assert(args.deep_view() =~= old(args).deep_view() + switch(flag@, on));
}

fn push_listed(args: &mut Vec<String>, flag: &str, items: &Vec<String>)
    ensures
        final(args).deep_view() == old(args).deep_view() + listed(flag@, items.deep_view()),
{
    if items.len() > 0 {
        push_text(args, flag);
        let value = join(items, ",");
        push_text(args, value.as_str());
    }
    assert(args.deep_view() =~= old(args).deep_view() + listed(flag@, items.deep_view()));
}

fn push_turns(args: &mut Vec<String>, max_turns: Option<u32>)
    ensures
        final(args).deep_view() == old(args).deep_view() + valued(
            "--max-turns"@,
            match max_turns {
                Some(turns) => Some(decimal(turns as nat)),
                None => None,
            },
        ),
{
    let value = match max_turns {
        Some(turns) => Some(decimal_string(turns as u64)),
        None => None,
    };
    push_valued(args, "--max-turns", &value);
}

fn push_mode(args: &mut Vec<String>, mode: Option<PermissionMode>)
    ensures
        final(args).deep_view() == old(args).deep_view() + valued(
            "--permission-mode"@,
            match mode {
                Some(mode) => Some(mode.cli_arg()),
                None => None,
            },
        ),
{
    let value = match mode {
        Some(mode) => Some(String::from_str(mode.to_cli_arg())),
        None => None,
    };
    push_valued(args, "--permission-mode", &value);
}

fn push_prompt(args: &mut Vec<String>, prompt: &Option<SystemPrompt>)
    ensures
        final(args).deep_view() == old(args).deep_view() + prompt_args(*prompt),
{
    match prompt {
        Some(SystemPrompt::Custom(text)) => {
            push_text(args, "--system-prompt");
            push_text(args, text.as_str());
        },
        Some(SystemPrompt::Preset { preset }) => {
            push_text(args, "--system-prompt-preset");
            push_text(args, preset.as_str());
        },
        None => {},
    }
    assert(args.deep_view() =~= old(args).deep_view() + prompt_args(*prompt));
}

fn push_closing(args: &mut Vec<String>, sources: &Option<Vec<String>>)
    ensures
        final(args).deep_view() == old(args).deep_view() + seq![
            "--setting-sources"@,
            sources_value(*sources),
            "--input-format"@,
            "stream-json"@,
        ],
{
    push_text(args, "--setting-sources");
    match sources {
        Some(list) => {
            let value = join(list, ",");
            push_text(args, value.as_str());
        },
        None => {
            proof {
                reveal_strlit("");
                assert(""@ =~= Seq::<char>::empty());
            }
            push_text(args, "");
        },
    }
    push_text(args, "--input-format");
    push_text(args, "stream-json");
    assert(args.deep_view() =~= old(args).deep_view() + seq![
        "--setting-sources"@,
        sources_value(*sources),
        "--input-format"@,
        "stream-json"@,
    ]);
}

impl ClaudeAgentOptions {
    /// The command line of a persistent session: the fixed stream flags, then
    /// each configured option in turn, then the settings sources and the
    /// input format.
    pub open spec fn session_args(self) -> Seq<Seq<char>> {
        seq!["--output-format"@, "stream-json"@, "--verbose"@] + valued(
            "--max-turns"@,
            match self.max_turns {
                Some(turns) => Some(decimal(turns as nat)),
                None => None,
            },
        ) + valued("--model"@, text_of(self.model)) + valued(
            "--permission-mode"@,
            match self.permission_mode {
                Some(mode) => Some(mode.cli_arg()),
                None => None,
            },
        ) + prompt_args(self.system_prompt) + valued(
            "--append-system-prompt"@,
            text_of(self.append_system_prompt),
        ) + listed("--allowed-tools"@, self.allowed_tools.deep_view()) + listed(
            "--disallowed-tools"@,
            self.disallowed_tools.deep_view(),
        ) + valued("--resume"@, text_of(self.resume)) + switch("--fork-session"@, self.fork_session)
            + valued("--session-name"@, text_of(self.session_name)) + switch(
            "--enable-file-checkpointing"@,
            self.enable_file_checkpointing,
        ) + seq![
            "--setting-sources"@,
            sources_value(self.settings_sources),
            "--input-format"@,
            "stream-json"@,
        ]
    }

    /// The command line of a one-shot query: that of a session, then `-p`
    /// and the prompt.
    pub open spec fn cli_args(self, prompt: Seq<char>) -> Seq<Seq<char>> {
        self.session_args() + seq!["-p"@, prompt]
    }

    /// Builds the backend's arguments for a persistent session, in which
    /// prompts travel over standard input.
    pub fn to_session_args(&self) -> (args: Vec<String>)
        ensures
            args.deep_view() == self.session_args(),
    {
        let mut args: Vec<String> = Vec::new();
        push_text(&mut args, "--output-format");
        push_text(&mut args, "stream-json");
        push_text(&mut args, "--verbose");
        assert(args.deep_view() =~= seq!["--output-format"@, "stream-json"@, "--verbose"@]);
        push_turns(&mut args, self.max_turns);
        push_valued(&mut args, "--model", &self.model);
        push_mode(&mut args, self.permission_mode);
        push_prompt(&mut args, &self.system_prompt);
        push_valued(&mut args, "--append-system-prompt", &self.append_system_prompt);
        push_listed(&mut args, "--allowed-tools", &self.allowed_tools);
        push_listed(&mut args, "--disallowed-tools", &self.disallowed_tools);
        push_valued(&mut args, "--resume", &self.resume);
        push_switch(&mut args, "--fork-session", self.fork_session);
        push_valued(&mut args, "--session-name", &self.session_name);
        push_switch(&mut args, "--enable-file-checkpointing", self.enable_file_checkpointing);
        push_closing(&mut args, &self.settings_sources);
        args
    }

    /// Builds the backend's arguments for a one-shot query with `prompt`.
    pub fn to_cli_args(&self, prompt: &str) -> (args: Vec<String>)
        ensures
            args.deep_view() == self.cli_args(prompt@),
    {
        let mut args = self.to_session_args();
        push_text(&mut args, "-p");
        push_text(&mut args, prompt);
        assert(args.deep_view() =~= self.cli_args(prompt@));
        args
    }
}

/// True for options with nothing set.
pub open spec fn is_default(options: ClaudeAgentOptions) -> bool {
    &&& options.system_prompt is None
    &&& options.append_system_prompt is None
    &&& options.max_turns is None
    &&& options.model is None
    &&& options.allowed_tools@.len() == 0
    &&& options.disallowed_tools@.len() == 0
    &&& options.permission_mode is None
    &&& options.permission_prompt_tool_allowlist@.len() == 0
    &&& options.mcp_servers@.len() == 0
    &&& options.sdk_mcp_servers@.len() == 0
    &&& options.hooks@.len() == 0
    &&& options.agents@.len() == 0
    &&& options.resume is None
    &&& !options.fork_session
    &&& options.session_name is None
    &&& !options.enable_file_checkpointing
    &&& options.cwd is None
    &&& options.cli_path is None
    &&& options.env@.len() == 0
    &&& options.settings_sources is None
    &&& options.output_format is None
    &&& !options.include_partial_messages
    &&& options.betas@.len() == 0
    &&& options.sandbox_settings is None
}

impl Default for ClaudeAgentOptions {
    fn default() -> (options: ClaudeAgentOptions)
        ensures
            is_default(options),
    {
        ClaudeAgentOptions {
            system_prompt: None,
            append_system_prompt: None,
            max_turns: None,
            model: None,
            allowed_tools: Vec::new(),
            disallowed_tools: Vec::new(),
            permission_mode: None,
            permission_prompt_tool_allowlist: Vec::new(),
            mcp_servers: Vec::new(),
            sdk_mcp_servers: Vec::new(),
            hooks: Vec::new(),
            agents: Vec::new(),
            resume: None,
            fork_session: false,
            session_name: None,
            enable_file_checkpointing: false,
            cwd: None,
            cli_path: None,
            env: Vec::new(),
            settings_sources: None,
            output_format: None,
            include_partial_messages: false,
            betas: Vec::new(),
            sandbox_settings: None,
        }
    }
}

impl ClaudeAgentOptions {
    /// Creates a builder for options with nothing set.
    pub fn builder() -> (builder: ClaudeAgentOptionsBuilder)
        ensures
            is_default(builder.options()),
    {
        ClaudeAgentOptionsBuilder { inner: ClaudeAgentOptions::default() }
    }
}

/// Builds `ClaudeAgentOptions` by setting one option after the other.
#[derive(Debug)]
pub struct ClaudeAgentOptionsBuilder {
    inner: ClaudeAgentOptions,
}

impl Default for ClaudeAgentOptionsBuilder {
    fn default() -> (builder: ClaudeAgentOptionsBuilder)
        ensures
            is_default(builder.options()),
    {
        ClaudeAgentOptions::builder()
    }
}

impl ClaudeAgentOptionsBuilder {
    /// The options as they are set so far.
    pub closed spec fn options(self) -> ClaudeAgentOptions {
        self.inner
    }

    /// Sets the system prompt.
    pub fn system_prompt(self, prompt: SystemPrompt) -> (builder: ClaudeAgentOptionsBuilder)
        ensures
            builder.options() == (ClaudeAgentOptions { system_prompt: Some(prompt), ..self.options() }),
    {
        ClaudeAgentOptionsBuilder { inner: ClaudeAgentOptions { system_prompt: Some(prompt), ..self.inner } }
    }

    /// Sets the text to append to the system prompt.
    pub fn append_system_prompt(self, text: &str) -> (builder: ClaudeAgentOptionsBuilder)
        ensures
            text_of(builder.options().append_system_prompt) == Some(text@),
            builder.options().system_prompt == self.options().system_prompt,
            builder.options().max_turns == self.options().max_turns,
            builder.options().model == self.options().model,
            builder.options().allowed_tools == self.options().allowed_tools,
            builder.options().disallowed_tools == self.options().disallowed_tools,
            builder.options().permission_mode == self.options().permission_mode,
            builder.options().permission_prompt_tool_allowlist == self.options().permission_prompt_tool_allowlist,
            builder.options().mcp_servers == self.options().mcp_servers,
            builder.options().sdk_mcp_servers == self.options().sdk_mcp_servers,
            builder.options().hooks == self.options().hooks,
            builder.options().agents == self.options().agents,
            builder.options().resume == self.options().resume,
            builder.options().fork_session == self.options().fork_session,
            builder.options().session_name == self.options().session_name,
            builder.options().enable_file_checkpointing == self.options().enable_file_checkpointing,
            builder.options().cwd == self.options().cwd,
            builder.options().cli_path == self.options().cli_path,
            builder.options().env == self.options().env,
            builder.options().settings_sources == self.options().settings_sources,
            builder.options().output_format == self.options().output_format,
            builder.options().include_partial_messages == self.options().include_partial_messages,
            builder.options().betas == self.options().betas,
            builder.options().sandbox_settings == self.options().sandbox_settings,
    {
        ClaudeAgentOptionsBuilder {
            inner: ClaudeAgentOptions { append_system_prompt: Some(String::from_str(text)), ..self.inner },
        }
    }

    /// Sets the maximum number of conversation turns.
    pub fn max_turns(self, turns: u32) -> (builder: ClaudeAgentOptionsBuilder)
        ensures
            builder.options() == (ClaudeAgentOptions { max_turns: Some(turns), ..self.options() }),
    {
        ClaudeAgentOptionsBuilder { inner: ClaudeAgentOptions { max_turns: Some(turns), ..self.inner } }
    }

    /// Sets the model identifier.
    pub fn model(self, model: &str) -> (builder: ClaudeAgentOptionsBuilder)
        ensures
            text_of(builder.options().model) == Some(model@),
            builder.options().system_prompt == self.options().system_prompt,
            builder.options().append_system_prompt == self.options().append_system_prompt,
            builder.options().max_turns == self.options().max_turns,
            builder.options().allowed_tools == self.options().allowed_tools,
            builder.options().disallowed_tools == self.options().disallowed_tools,
            builder.options().permission_mode == self.options().permission_mode,
            builder.options().permission_prompt_tool_allowlist == self.options().permission_prompt_tool_allowlist,
            builder.options().mcp_servers == self.options().mcp_servers,
            builder.options().sdk_mcp_servers == self.options().sdk_mcp_servers,
            builder.options().hooks == self.options().hooks,
            builder.options().agents == self.options().agents,
            builder.options().resume == self.options().resume,
            builder.options().fork_session == self.options().fork_session,
            builder.options().session_name == self.options().session_name,
            builder.options().enable_file_checkpointing == self.options().enable_file_checkpointing,
            builder.options().cwd == self.options().cwd,
            builder.options().cli_path == self.options().cli_path,
            builder.options().env == self.options().env,
            builder.options().settings_sources == self.options().settings_sources,
            builder.options().output_format == self.options().output_format,
            builder.options().include_partial_messages == self.options().include_partial_messages,
            builder.options().betas == self.options().betas,
            builder.options().sandbox_settings == self.options().sandbox_settings,
    {
        ClaudeAgentOptionsBuilder {
            inner: ClaudeAgentOptions { model: Some(String::from_str(model)), ..self.inner },
        }
    }

    /// Sets the allowed tools.
    pub fn allowed_tools(self, tools: Vec<String>) -> (builder: ClaudeAgentOptionsBuilder)
        ensures
            builder.options() == (ClaudeAgentOptions { allowed_tools: tools, ..self.options() }),
    {
        ClaudeAgentOptionsBuilder { inner: ClaudeAgentOptions { allowed_tools: tools, ..self.inner } }
    }

    /// Sets the disallowed tools.
    pub fn disallowed_tools(self, tools: Vec<String>) -> (builder: ClaudeAgentOptionsBuilder)
        ensures
            builder.options() == (ClaudeAgentOptions { disallowed_tools: tools, ..self.options() }),
    {
        ClaudeAgentOptionsBuilder { inner: ClaudeAgentOptions { disallowed_tools: tools, ..self.inner } }
    }

    /// Sets the permission mode.
    pub fn permission_mode(self, mode: PermissionMode) -> (builder: ClaudeAgentOptionsBuilder)
        ensures
            builder.options() == (ClaudeAgentOptions { permission_mode: Some(mode), ..self.options() }),
    {
        ClaudeAgentOptionsBuilder { inner: ClaudeAgentOptions { permission_mode: Some(mode), ..self.inner } }
    }

    /// Sets the tools that require permission prompts.
    pub fn permission_prompt_tool_allowlist(self, tools: Vec<String>) -> (builder: ClaudeAgentOptionsBuilder)
        ensures
            builder.options() == (ClaudeAgentOptions { permission_prompt_tool_allowlist: tools, ..self.options() }),
    {
        ClaudeAgentOptionsBuilder { inner: ClaudeAgentOptions { permission_prompt_tool_allowlist: tools, ..self.inner } }
    }

    /// Sets the external MCP servers.
    pub fn mcp_servers(self, servers: Vec<(String, McpServerConfig)>) -> (builder: ClaudeAgentOptionsBuilder)
        ensures
            builder.options() == (ClaudeAgentOptions { mcp_servers: servers, ..self.options() }),
    {
        ClaudeAgentOptionsBuilder { inner: ClaudeAgentOptions { mcp_servers: servers, ..self.inner } }
    }

    /// Sets the MCP servers hosted by the runtime.
    pub fn sdk_mcp_servers(self, servers: Vec<SdkMcpServer>) -> (builder: ClaudeAgentOptionsBuilder)
        ensures
            builder.options() == (ClaudeAgentOptions { sdk_mcp_servers: servers, ..self.options() }),
    {
        ClaudeAgentOptionsBuilder { inner: ClaudeAgentOptions { sdk_mcp_servers: servers, ..self.inner } }
    }

    /// Sets the hook matchers.
    pub fn hooks(self, hooks: Vec<(HookEvent, Vec<HookMatcher>)>) -> (builder: ClaudeAgentOptionsBuilder)
        ensures
            builder.options() == (ClaudeAgentOptions { hooks, ..self.options() }),
    {
        ClaudeAgentOptionsBuilder { inner: ClaudeAgentOptions { hooks, ..self.inner } }
    }

    /// Sets the agent definitions.
    pub fn agents(self, agents: Vec<(String, AgentDefinition)>) -> (builder: ClaudeAgentOptionsBuilder)
        ensures
            builder.options() == (ClaudeAgentOptions { agents, ..self.options() }),
    {
        ClaudeAgentOptionsBuilder { inner: ClaudeAgentOptions { agents, ..self.inner } }
    }

    /// Sets the session to resume.
    pub fn resume(self, session_id: &str) -> (builder: ClaudeAgentOptionsBuilder)
        ensures
            text_of(builder.options().resume) == Some(session_id@),
            builder.options().system_prompt == self.options().system_prompt,
            builder.options().append_system_prompt == self.options().append_system_prompt,
            builder.options().max_turns == self.options().max_turns,
            builder.options().model == self.options().model,
            builder.options().allowed_tools == self.options().allowed_tools,
            builder.options().disallowed_tools == self.options().disallowed_tools,
            builder.options().permission_mode == self.options().permission_mode,
            builder.options().permission_prompt_tool_allowlist == self.options().permission_prompt_tool_allowlist,
            builder.options().mcp_servers == self.options().mcp_servers,
            builder.options().sdk_mcp_servers == self.options().sdk_mcp_servers,
            builder.options().hooks == self.options().hooks,
            builder.options().agents == self.options().agents,
            builder.options().fork_session == self.options().fork_session,
            builder.options().session_name == self.options().session_name,
            builder.options().enable_file_checkpointing == self.options().enable_file_checkpointing,
            builder.options().cwd == self.options().cwd,
            builder.options().cli_path == self.options().cli_path,
            builder.options().env == self.options().env,
            builder.options().settings_sources == self.options().settings_sources,
            builder.options().output_format == self.options().output_format,
            builder.options().include_partial_messages == self.options().include_partial_messages,
            builder.options().betas == self.options().betas,
            builder.options().sandbox_settings == self.options().sandbox_settings,
    {
        ClaudeAgentOptionsBuilder {
            inner: ClaudeAgentOptions { resume: Some(String::from_str(session_id)), ..self.inner },
        }
    }

    /// Sets whether the resumed session is forked.
    pub fn fork_session(self, fork: bool) -> (builder: ClaudeAgentOptionsBuilder)
        ensures
            builder.options() == (ClaudeAgentOptions { fork_session: fork, ..self.options() }),
    {
        ClaudeAgentOptionsBuilder { inner: ClaudeAgentOptions { fork_session: fork, ..self.inner } }
    }

    /// Sets the session name.
    pub fn session_name(self, name: &str) -> (builder: ClaudeAgentOptionsBuilder)
        ensures
            text_of(builder.options().session_name) == Some(name@),
            builder.options().system_prompt == self.options().system_prompt,
            builder.options().append_system_prompt == self.options().append_system_prompt,
            builder.options().max_turns == self.options().max_turns,
            builder.options().model == self.options().model,
            builder.options().allowed_tools == self.options().allowed_tools,
            builder.options().disallowed_tools == self.options().disallowed_tools,
            builder.options().permission_mode == self.options().permission_mode,
            builder.options().permission_prompt_tool_allowlist == self.options().permission_prompt_tool_allowlist,
            builder.options().mcp_servers == self.options().mcp_servers,
            builder.options().sdk_mcp_servers == self.options().sdk_mcp_servers,
            builder.options().hooks == self.options().hooks,
            builder.options().agents == self.options().agents,
            builder.options().resume == self.options().resume,
            builder.options().fork_session == self.options().fork_session,
            builder.options().enable_file_checkpointing == self.options().enable_file_checkpointing,
            builder.options().cwd == self.options().cwd,
            builder.options().cli_path == self.options().cli_path,
            builder.options().env == self.options().env,
            builder.options().settings_sources == self.options().settings_sources,
            builder.options().output_format == self.options().output_format,
            builder.options().include_partial_messages == self.options().include_partial_messages,
            builder.options().betas == self.options().betas,
            builder.options().sandbox_settings == self.options().sandbox_settings,
    {
        ClaudeAgentOptionsBuilder {
            inner: ClaudeAgentOptions { session_name: Some(String::from_str(name)), ..self.inner },
        }
    }

    /// Sets whether file-based checkpointing is enabled.
    pub fn enable_file_checkpointing(self, enable: bool) -> (builder: ClaudeAgentOptionsBuilder)
        ensures
            builder.options() == (ClaudeAgentOptions { enable_file_checkpointing: enable, ..self.options() }),
    {
        ClaudeAgentOptionsBuilder { inner: ClaudeAgentOptions { enable_file_checkpointing: enable, ..self.inner } }
    }

    /// Sets the working directory.
    pub fn cwd(self, path: PathBuf) -> (builder: ClaudeAgentOptionsBuilder)
        ensures
            builder.options() == (ClaudeAgentOptions { cwd: Some(path), ..self.options() }),
    {
        ClaudeAgentOptionsBuilder { inner: ClaudeAgentOptions { cwd: Some(path), ..self.inner } }
    }

    /// Sets the path of the backend executable.
    pub fn cli_path(self, path: PathBuf) -> (builder: ClaudeAgentOptionsBuilder)
        ensures
            builder.options() == (ClaudeAgentOptions { cli_path: Some(path), ..self.options() }),
    {
        ClaudeAgentOptionsBuilder { inner: ClaudeAgentOptions { cli_path: Some(path), ..self.inner } }
    }

    /// Sets the environment variables.
    pub fn env(self, env: Vec<(String, String)>) -> (builder: ClaudeAgentOptionsBuilder)
        ensures
            builder.options() == (ClaudeAgentOptions { env, ..self.options() }),
    {
        ClaudeAgentOptionsBuilder { inner: ClaudeAgentOptions { env, ..self.inner } }
    }

    /// Sets the settings sources.
    pub fn settings_sources(self, sources: Vec<String>) -> (builder: ClaudeAgentOptionsBuilder)
        ensures
            builder.options() == (ClaudeAgentOptions { settings_sources: Some(sources), ..self.options() }),
    {
        ClaudeAgentOptionsBuilder { inner: ClaudeAgentOptions { settings_sources: Some(sources), ..self.inner } }
    }

    /// Sets the output format.
    pub fn output_format(self, format: JsonValue) -> (builder: ClaudeAgentOptionsBuilder)
        ensures
            builder.options() == (ClaudeAgentOptions { output_format: Some(format), ..self.options() }),
    {
        ClaudeAgentOptionsBuilder { inner: ClaudeAgentOptions { output_format: Some(format), ..self.inner } }
    }

    /// Sets whether partial messages are included.
    pub fn include_partial_messages(self, enable: bool) -> (builder: ClaudeAgentOptionsBuilder)
        ensures
            builder.options() == (ClaudeAgentOptions { include_partial_messages: enable, ..self.options() }),
    {
        ClaudeAgentOptionsBuilder { inner: ClaudeAgentOptions { include_partial_messages: enable, ..self.inner } }
    }

    /// Sets the beta features.
    pub fn betas(self, betas: Vec<String>) -> (builder: ClaudeAgentOptionsBuilder)
        ensures
            builder.options() == (ClaudeAgentOptions { betas, ..self.options() }),
    {
        ClaudeAgentOptionsBuilder { inner: ClaudeAgentOptions { betas, ..self.inner } }
    }

    /// Sets the sandbox settings.
    pub fn sandbox_settings(self, settings: SandboxSettings) -> (builder: ClaudeAgentOptionsBuilder)
        ensures
            builder.options() == (ClaudeAgentOptions { sandbox_settings: Some(settings), ..self.options() }),
    {
        ClaudeAgentOptionsBuilder { inner: ClaudeAgentOptions { sandbox_settings: Some(settings), ..self.inner } }
    }

    /// Hands the options out.
    pub fn build(self) -> (options: ClaudeAgentOptions)
        ensures
            options == self.options(),
    {
        self.inner
    }
}

} // verus!
