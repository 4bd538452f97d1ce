use crate::assoc::{lookup, upsert, NameMap};
use crate::error::ClawError;
use crate::json::JsonValue;
use crate::options::HookEvent;
use std::sync::Arc;
use vstd::prelude::*;

verus! {

/// Decides whether the backend may use a tool.
pub trait CanUseToolHandler: Send + Sync {
    /// Returns `Ok(true)` to allow the tool, `Ok(false)` to deny it, and an
    /// error where no decision could be made.
    fn can_use_tool(&self, tool_name: &str, tool_input: &JsonValue) -> Result<bool, ClawError>;
}

/// Runs a hook that the backend calls at a lifecycle point.
pub trait HookHandler: Send + Sync {
    /// Returns the data of the response to the backend.
    fn call(&self, hook_event: HookEvent, hook_input: JsonValue) -> Result<JsonValue, ClawError>;
}

/// Answers the JSON-RPC messages that the backend sends to the MCP servers
/// hosted by the runtime.
pub trait McpMessageHandler: Send + Sync {
    /// Returns the JSON-RPC response of the server `server_name`.
    fn handle(&self, server_name: &str, message: JsonValue) -> Result<JsonValue, ClawError>;
}

/// Calls `Arc::clone`, which gives another handle to the same value.
#[verifier::external_body]
pub(crate) fn share<T>(handle: &Arc<T>) -> (copy: Arc<T>)
    ensures
        copy == *handle,
{
    Arc::clone(handle)
}

/// The handlers for the requests of the backend: at most one permission
/// handler, at most one MCP handler, and the hooks by their identifiers.
/// Each handler is shared, so that a caller can take a handle out and call it
/// after the registry is free again.
pub struct ControlHandlers {
    can_use_tool: Option<Arc<Box<dyn CanUseToolHandler>>>,
    hook_callbacks: NameMap<Arc<Box<dyn HookHandler>>>,
    mcp_message: Option<Arc<Box<dyn McpMessageHandler>>>,
}

impl ControlHandlers {
    /// The permission handler, where one is registered.
    pub closed spec fn permission_handler(self) -> Option<Arc<Box<dyn CanUseToolHandler>>> {
        self.can_use_tool
    }

    /// The hooks, each identifier with its handler.
    pub closed spec fn hooks(self) -> Seq<(Seq<char>, Arc<Box<dyn HookHandler>>)> {
        self.hook_callbacks@
    }

    /// The MCP handler, where one is registered.
    pub closed spec fn mcp_handler(self) -> Option<Arc<Box<dyn McpMessageHandler>>> {
        self.mcp_message
    }

    /// A registry without handlers.
    pub fn new() -> (handlers: ControlHandlers)
        ensures
            handlers.permission_handler() is None,
            handlers.hooks() == Seq::<(Seq<char>, Arc<Box<dyn HookHandler>>)>::empty(),
            handlers.mcp_handler() is None,
    {
        ControlHandlers { can_use_tool: None, hook_callbacks: NameMap::new(), mcp_message: None }
    }

    /// Registers the permission handler, in place of an earlier one.
    pub fn register_can_use_tool(&mut self, handler: Box<dyn CanUseToolHandler>)
        ensures
            final(self).permission_handler() == Some(Arc::new(handler)),
            final(self).hooks() == old(self).hooks(),
            final(self).mcp_handler() == old(self).mcp_handler(),
    {
        let slot = Some(Arc::new(handler));
        self.can_use_tool = slot;
    }

    /// Registers a hook under `hook_id`, in place of an earlier one with that
    /// identifier.
    pub fn register_hook(&mut self, hook_id: String, handler: Box<dyn HookHandler>)
        ensures
            final(self).hooks() == upsert(old(self).hooks(), hook_id@, Arc::new(handler)),
            lookup(final(self).hooks(), hook_id@) is Some,
            final(self).permission_handler() == old(self).permission_handler(),
            final(self).mcp_handler() == old(self).mcp_handler(),
    {
        let shared: Arc<Box<dyn HookHandler>> = Arc::new(handler);
        self.install_hook(hook_id, shared);
    }

    /// Registers the MCP handler, in place of an earlier one.
    pub fn register_mcp_message(&mut self, handler: Box<dyn McpMessageHandler>)
        ensures
            final(self).mcp_handler() == Some(Arc::new(handler)),
            final(self).permission_handler() == old(self).permission_handler(),
            final(self).hooks() == old(self).hooks(),
    {
        let slot = Some(Arc::new(handler));
        self.mcp_message = slot;
    }

    /// Registers a permission handler that is shared already, in place of an
    /// earlier one.
    pub fn install_can_use_tool(&mut self, handler: Arc<Box<dyn CanUseToolHandler>>)
        ensures
            final(self).permission_handler() == Some(handler),
            final(self).hooks() == old(self).hooks(),
            final(self).mcp_handler() == old(self).mcp_handler(),
    {
        let slot = Some(handler);
        self.can_use_tool = slot;
    }

    /// Registers a hook that is shared already under `hook_id`, in place of
    /// an earlier one with that identifier.
    pub fn install_hook(&mut self, hook_id: String, handler: Arc<Box<dyn HookHandler>>)
        ensures
            final(self).hooks() == upsert(old(self).hooks(), hook_id@, handler),
            lookup(final(self).hooks(), hook_id@) == Some(handler),
            final(self).permission_handler() == old(self).permission_handler(),
            final(self).mcp_handler() == old(self).mcp_handler(),
    {
        proof {
            crate::assoc::lemma_lookup_upsert(self.hooks(), hook_id@, handler, hook_id@);
        }
        self.hook_callbacks.insert(hook_id, handler);
    }

    /// Registers an MCP handler that is shared already, in place of an
    /// earlier one.
    pub fn install_mcp_message(&mut self, handler: Arc<Box<dyn McpMessageHandler>>)
        ensures
            final(self).mcp_handler() == Some(handler),
            final(self).permission_handler() == old(self).permission_handler(),
            final(self).hooks() == old(self).hooks(),
    {
        let slot = Some(handler);
        self.mcp_message = slot;
    }

    /// A handle to the permission handler, where one is registered.
    pub fn can_use_tool_handler(&self) -> (handler: Option<Arc<Box<dyn CanUseToolHandler>>>)
        ensures
            handler == self.permission_handler(),
    {
        match &self.can_use_tool {
            Some(handler) => Some(share(handler)),
            None => None,
        }
    }

    /// A handle to the hook registered under `hook_id`.
    pub fn hook_handler(&self, hook_id: &str) -> (handler: Option<Arc<Box<dyn HookHandler>>>)
        ensures
            handler == lookup(self.hooks(), hook_id@),
    {
        match self.hook_callbacks.get(hook_id) {
            Some(handler) => Some(share(handler)),
            None => None,
        }
    }

    /// A handle to the MCP handler, where one is registered.
    pub fn mcp_message_handler(&self) -> (handler: Option<Arc<Box<dyn McpMessageHandler>>>)
        ensures
            handler == self.mcp_handler(),
    {
        match &self.mcp_message {
            Some(handler) => Some(share(handler)),
            None => None,
        }
    }

    /// The number of hooks.
    pub fn hook_count(&self) -> (n: usize)
        ensures
            n == self.hooks().len(),
    {
        self.hook_callbacks.len()
    }
}

} // verus!
