pub use crate::client::{ClaudeClient, ResponseStream};
pub use crate::control::handlers::{CanUseToolHandler, HookHandler, McpMessageHandler};
pub use crate::control::messages::{ControlRequest, ControlResponse, IncomingControlRequest};
pub use crate::control::ControlProtocol;
pub use crate::error::ClawError;
pub use crate::hooks::{HookCallback, HookContext, HookInput, HookResponse, PermissionDecision};
pub use crate::json::{JsonNumber, JsonObject, JsonValue};
pub use crate::mcp_server::{
    SdkMcpServerImpl, SdkMcpServerRegistry, SdkMcpTool, ToolContent, ToolHandler, ToolResult,
};
pub use crate::messages::{
    ApiMessage, AssistantMessage, ContentBlock, McpServerInfo, Message, ResultMessage,
    StreamEvent, SystemMessage, ToolInfo, UsageInfo, UserMessage,
};
pub use crate::options::{ClaudeAgentOptions, HookEvent, HookMatcher, PermissionMode, SystemPrompt};
pub use crate::permissions::DefaultPermissionHandler;
pub use crate::query::query;
pub use crate::tool_derive::claw_tool;
pub use crate::transport::{CliDiscovery, SubprocessCLITransport};
