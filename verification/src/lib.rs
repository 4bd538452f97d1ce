pub mod assoc;
pub mod client;
pub mod control;
pub mod error;
pub mod hooks;
pub mod json;
pub mod mcp_server;
pub mod messages;
pub mod mock_cli;
pub mod options;
pub mod permissions;
pub mod prelude;
pub mod query;
pub mod text;
pub mod tool_derive;
pub mod transport;

pub use query::query;
pub use tool_derive::claw_tool;
