use crate::control::handlers::CanUseToolHandler;
use crate::error::ClawError;
use crate::json::JsonValue;
use crate::options::PermissionMode;
use crate::text::str_eq;
use vstd::prelude::*;

verus! {

/// What a permission mode answers for a tool that no list decides: `Allow`,
/// `Default`, `AcceptEdits`, `BypassPermissions` and `Plan` allow it; `Deny`,
/// `Ask` and `Custom` deny it.
pub open spec fn mode_allows(mode: PermissionMode) -> bool {
    match mode {
        PermissionMode::Allow => true,
        PermissionMode::Deny => false,
        PermissionMode::Ask => false,
        PermissionMode::Custom => false,
        PermissionMode::Default => true,
        PermissionMode::AcceptEdits => true,
        PermissionMode::BypassPermissions => true,
        PermissionMode::Plan => true,
    }
}

/// The decision for a tool: a tool on the deny list is denied; else a tool
/// on the allow list is allowed; else the mode decides.
pub open spec fn decision(
    mode: PermissionMode,
    allowed: Seq<Seq<char>>,
    disallowed: Seq<Seq<char>>,
    tool_name: Seq<char>,
) -> bool {
    if disallowed.contains(tool_name) {
        false
    } else if allowed.contains(tool_name) {
        true
    } else {
        mode_allows(mode)
    }
}

fn contains_name(names: &Vec<String>, name: &str) -> (found: bool)
    ensures
        found == names.deep_view().contains(name@),
{
    let mut i: usize = 0;
    while i < names.len()
        invariant
            i <= names@.len(),
            forall|k: int| 0 <= k < i ==> names@[k]@ != name@,
        decreases names@.len() - i,
    {
        if str_eq(names[i].as_str(), name) {
            assert(names.deep_view()[i as int] == name@);
            return true;
        }
        i += 1;
    }
    assert forall|k: int| 0 <= k < names.deep_view().len() implies names.deep_view()[k]
        != name@ by {
        assert(names.deep_view()[k] == names@[k]@);
    }
    false
}

/// A permission handler that decides by an allow list, a deny list and a
/// permission mode.
#[derive(Debug, Clone)]
pub struct DefaultPermissionHandler {
    mode: PermissionMode,
    allowed_tools: Vec<String>,
    disallowed_tools: Vec<String>,
}

/// Builder for a `DefaultPermissionHandler`.
#[derive(Debug)]
pub struct DefaultPermissionHandlerBuilder {
    mode: Option<PermissionMode>,
    allowed_tools: Vec<String>,
    disallowed_tools: Vec<String>,
}

impl DefaultPermissionHandler {
    /// The mode of this handler.
    pub closed spec fn mode(self) -> PermissionMode {
        self.mode
    }

    /// The allow list of this handler.
    pub closed spec fn allowed(self) -> Seq<Seq<char>> {
        self.allowed_tools.deep_view()
    }

    /// The deny list of this handler.
    pub closed spec fn disallowed(self) -> Seq<Seq<char>> {
        self.disallowed_tools.deep_view()
    }

    /// The decision of this handler for a tool.
    pub open spec fn decides(self, tool_name: Seq<char>) -> bool {
        decision(self.mode(), self.allowed(), self.disallowed(), tool_name)
    }

    /// Creates a builder with the default mode and empty lists.
    pub fn builder() -> (builder: DefaultPermissionHandlerBuilder)
        ensures
            builder.chosen_mode() is None,
            builder.allowed().len() == 0,
            builder.disallowed().len() == 0,
    {
        DefaultPermissionHandlerBuilder {
            mode: None,
            allowed_tools: Vec::new(),
            disallowed_tools: Vec::new(),
        }
    }

    /// True when the allow list is empty or holds the tool.
    pub fn is_allowed(&self, tool_name: &str) -> (allowed: bool)
        ensures
            allowed == (self.allowed().len() == 0 || self.allowed().contains(tool_name@)),
    {
        self.allowed_tools.len() == 0 || contains_name(&self.allowed_tools, tool_name)
    }

    /// True when the deny list holds the tool.
    pub fn is_denied(&self, tool_name: &str) -> (denied: bool)
        ensures
            denied == self.disallowed().contains(tool_name@),
    {
        contains_name(&self.disallowed_tools, tool_name)
    }

    /// The answer of the mode for a tool that no list decides.
    pub fn default_policy(&self) -> (allowed: bool)
        ensures
            allowed == mode_allows(self.mode()),
    {
        match self.mode {
            PermissionMode::Allow => true,
            PermissionMode::Deny => false,
            PermissionMode::Ask => false,
            PermissionMode::Custom => false,
            PermissionMode::Default => true,
            PermissionMode::AcceptEdits => true,
            PermissionMode::BypassPermissions => true,
            PermissionMode::Plan => true,
        }
    }

    /// Decides whether the tool may be used.
    pub fn decide(&self, tool_name: &str) -> (allowed: bool)
        ensures
            allowed == self.decides(tool_name@),
    {
        if self.is_denied(tool_name) {
            return false;
        }
        if self.allowed_tools.len() > 0 && self.is_allowed(tool_name) {
            return true;
        }
        self.default_policy()
    }
}

impl CanUseToolHandler for DefaultPermissionHandler {
    fn can_use_tool(&self, tool_name: &str, tool_input: &JsonValue) -> (outcome: Result<
        bool,
        ClawError,
    >)
        ensures
            outcome matches Ok(allowed) && allowed == self.decides(tool_name@),
    {
        Ok(self.decide(tool_name))
    }
}

impl DefaultPermissionHandlerBuilder {
    /// The mode that was set, if any.
    pub closed spec fn chosen_mode(self) -> Option<PermissionMode> {
        self.mode
    }

    /// The allow list.
    pub closed spec fn allowed(self) -> Seq<Seq<char>> {
        self.allowed_tools.deep_view()
    }

    /// The deny list.
    pub closed spec fn disallowed(self) -> Seq<Seq<char>> {
        self.disallowed_tools.deep_view()
    }

    /// Sets the permission mode.
    pub fn mode(self, mode: PermissionMode) -> (builder: DefaultPermissionHandlerBuilder)
        ensures
            builder.chosen_mode() == Some(mode),
            builder.allowed() == self.allowed(),
            builder.disallowed() == self.disallowed(),
    {
        DefaultPermissionHandlerBuilder {
            mode: Some(mode),
            allowed_tools: self.allowed_tools,
            disallowed_tools: self.disallowed_tools,
        }
    }

    /// Sets the allow list.
    pub fn allowed_tools(self, tools: Vec<String>) -> (builder: DefaultPermissionHandlerBuilder)
        ensures
            builder.chosen_mode() == self.chosen_mode(),
            builder.allowed() == tools.deep_view(),
            builder.disallowed() == self.disallowed(),
    {
        DefaultPermissionHandlerBuilder {
            mode: self.mode,
            allowed_tools: tools,
            disallowed_tools: self.disallowed_tools,
        }
    }

    /// Sets the deny list.
    pub fn disallowed_tools(self, tools: Vec<String>) -> (builder: DefaultPermissionHandlerBuilder)
        ensures
            builder.chosen_mode() == self.chosen_mode(),
            builder.allowed() == self.allowed(),
            builder.disallowed() == tools.deep_view(),
    {
        DefaultPermissionHandlerBuilder {
            mode: self.mode,
            allowed_tools: self.allowed_tools,
            disallowed_tools: tools,
        }
    }

    /// Builds the handler; the mode is `Default` where none was set.
    pub fn build(self) -> (handler: DefaultPermissionHandler)
        ensures
            handler.mode() == match self.chosen_mode() {
                Some(mode) => mode,
                None => PermissionMode::Default,
            },
            handler.allowed() == self.allowed(),
            handler.disallowed() == self.disallowed(),
    {
        let mode = match self.mode {
            Some(mode) => mode,
            None => PermissionMode::Default,
        };
        DefaultPermissionHandler {
            mode,
            allowed_tools: self.allowed_tools,
            disallowed_tools: self.disallowed_tools,
        }
    }
}

} // verus!
