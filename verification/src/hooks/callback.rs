use crate::error::ClawError;
use crate::hooks::response::HookResponse;
use crate::hooks::types::{HookContext, HookInput};
use vstd::prelude::*;

verus! {

/// A hook of the host: it is called at a lifecycle point of the backend and
/// answers what shall happen.
pub trait HookCallback: Send + Sync {
    /// Answers the event that `input` describes; `tool_use_id` names the
    /// tool use it belongs to, where there is one.
    fn call(&self, input: HookInput, tool_use_id: Option<&str>, context: &HookContext) -> Result<
        HookResponse,
        ClawError,
    >;
}

} // verus!
