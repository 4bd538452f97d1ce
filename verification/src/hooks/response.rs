use crate::assoc::upsert;
use crate::json::{optional_json, set_optional, Json, JsonObject, JsonValue};
use crate::text::text_of;
use vstd::prelude::*;

verus! {

/// What a hook decides about a tool use.
#[derive(Debug, Clone, Copy, PartialEq, Eq, Structural)]
pub enum PermissionDecision {
    /// The tool may be used.
    Allow,
    /// The tool may not be used.
    Deny,
    /// The user shall be asked.
    Ask,
}

impl PermissionDecision {
    /// The decision on the wire.
    pub open spec fn wire_name(self) -> Seq<char> {
        match self {
            PermissionDecision::Allow => "allow"@,
            PermissionDecision::Deny => "deny"@,
            PermissionDecision::Ask => "ask"@,
        }
    }

    /// The decision on the wire.
    pub fn name(&self) -> (name: &'static str)
        ensures
            name@ == self.wire_name(),
    {
        match self {
            PermissionDecision::Allow => "allow",
            PermissionDecision::Deny => "deny",
            PermissionDecision::Ask => "ask",
        }
    }
}

/// The default of `continue` in a hook response.
pub fn default_true() -> (flag: bool)
    ensures
        flag,
{
    true
}

/// The answer of a hook.
#[derive(Debug, Clone)]
pub struct HookResponse {
    /// The decision about the tool use.
    pub permission_decision: Option<PermissionDecision>,
    /// The reason for the decision.
    pub permission_decision_reason: Option<String>,
    /// More context for the backend.
    pub additional_context: Option<String>,
    /// Whether the backend shall go on.
    pub should_continue: bool,
    /// The input of the tool, changed by the hook.
    pub updated_input: Option<JsonValue>,
}

/// The text of an optional string as a JSON string.
pub open spec fn optional_text(value: Option<String>) -> Option<Json> {
    match value {
        Some(text) => Some(Json::Text(text@)),
        None => None,
    }
}

fn text_value(value: &Option<String>) -> (document: Option<JsonValue>)
    ensures
        match optional_text(*value) {
            Some(model) => document is Some && document->0@ == model,
            None => document is None,
        },
{
    match value {
        Some(text) => Some(JsonValue::text(text.as_str())),
        None => None,
    }
}

impl HookResponse {
    /// The members of this answer on the wire: those that are set, and
    /// `continue` always.
    pub open spec fn wire_members(self) -> Seq<(Seq<char>, Json)> {
        set_optional(
            upsert(
                set_optional(
                    set_optional(
                        set_optional(
                            Seq::empty(),
                            "permission_decision"@,
                            match self.permission_decision {
                                Some(decision) => Some(Json::Text(decision.wire_name())),
                                None => None,
                            },
                        ),
                        "permission_decision_reason"@,
                        optional_text(self.permission_decision_reason),
                    ),
                    "additional_context"@,
                    optional_text(self.additional_context),
                ),
                "continue"@,
                Json::Bool(self.should_continue),
            ),
            "updated_input"@,
            optional_json(self.updated_input),
        )
    }

    /// An answer without a decision that lets the backend go on.
    pub fn new() -> (response: HookResponse)
        ensures
            response.permission_decision is None,
            response.permission_decision_reason is None,
            response.additional_context is None,
            response.should_continue,
            response.updated_input is None,
    {
        HookResponse {
            permission_decision: None,
            permission_decision_reason: None,
            additional_context: None,
            should_continue: true,
            updated_input: None,
        }
    }

    /// An answer that allows the tool use, with a reason.
    pub fn allow(reason: &str) -> (response: HookResponse)
        ensures
            response.permission_decision == Some(PermissionDecision::Allow),
            text_of(response.permission_decision_reason) == Some(reason@),
            response.additional_context is None,
            response.should_continue,
            response.updated_input is None,
    {
        HookResponse {
            permission_decision: Some(PermissionDecision::Allow),
            permission_decision_reason: Some(String::from_str(reason)),
            additional_context: None,
            should_continue: true,
            updated_input: None,
        }
    }

    /// An answer that denies the tool use, with a reason, and stops the
    /// backend.
    pub fn deny(reason: &str) -> (response: HookResponse)
        ensures
            response.permission_decision == Some(PermissionDecision::Deny),
            text_of(response.permission_decision_reason) == Some(reason@),
            response.additional_context is None,
            !response.should_continue,
            response.updated_input is None,
    {
        HookResponse {
            permission_decision: Some(PermissionDecision::Deny),
            permission_decision_reason: Some(String::from_str(reason)),
            additional_context: None,
            should_continue: false,
            updated_input: None,
        }
    }

    /// An answer that has the user asked, with the question.
    pub fn ask(prompt: &str) -> (response: HookResponse)
        ensures
            response.permission_decision == Some(PermissionDecision::Ask),
            text_of(response.permission_decision_reason) == Some(prompt@),
            response.additional_context is None,
            response.should_continue,
            response.updated_input is None,
    {
        HookResponse {
            permission_decision: Some(PermissionDecision::Ask),
            permission_decision_reason: Some(String::from_str(prompt)),
            additional_context: None,
            should_continue: true,
            updated_input: None,
        }
    }

    /// Sets the decision.
    pub fn with_permission(self, decision: PermissionDecision) -> (response: HookResponse)
        ensures
            response == (HookResponse { permission_decision: Some(decision), ..self }),
    {
        HookResponse { permission_decision: Some(decision), ..self }
    }

    /// Sets the reason.
    pub fn with_reason(self, reason: &str) -> (response: HookResponse)
        ensures
            text_of(response.permission_decision_reason) == Some(reason@),
            response.permission_decision == self.permission_decision,
            response.additional_context == self.additional_context,
            response.should_continue == self.should_continue,
            response.updated_input == self.updated_input,
    {
        HookResponse { permission_decision_reason: Some(String::from_str(reason)), ..self }
    }

    /// Sets the context.
    pub fn with_context(self, context: &str) -> (response: HookResponse)
        ensures
            text_of(response.additional_context) == Some(context@),
            response.permission_decision == self.permission_decision,
            response.permission_decision_reason == self.permission_decision_reason,
            response.should_continue == self.should_continue,
            response.updated_input == self.updated_input,
    {
        HookResponse { additional_context: Some(String::from_str(context)), ..self }
    }

    /// Sets whether the backend shall go on.
    pub fn with_continue(self, should_continue: bool) -> (response: HookResponse)
        ensures
            response == (HookResponse { should_continue, ..self }),
    {
        HookResponse { should_continue, ..self }
    }

    /// Sets the changed input.
    pub fn with_updated_input(self, input: JsonValue) -> (response: HookResponse)
        ensures
            response == (HookResponse { updated_input: Some(input), ..self }),
    {
        HookResponse { updated_input: Some(input), ..self }
    }

    /// Builds the object that stands for this answer on the wire.
    pub fn to_json(&self) -> (document: JsonValue)
        ensures
            document@ == Json::Object(self.wire_members()),
    {
        let mut object = JsonObject::new();
        let decision = match self.permission_decision {
            Some(decision) => Some(JsonValue::text(decision.name())),
            None => None,
        };
        object.set("permission_decision", decision);
        object.set("permission_decision_reason", text_value(&self.permission_decision_reason));
        object.set("additional_context", text_value(&self.additional_context));
        object.insert(String::from_str("continue"), JsonValue::Bool(self.should_continue));
        let input = match &self.updated_input {
            Some(input) => Some(input.clone()),
            None => None,
        };
        object.set("updated_input", input);
        JsonValue::Object(object)
    }
}

impl Default for HookResponse {
    fn default() -> (response: HookResponse)
        ensures
            response.permission_decision is None,
            response.permission_decision_reason is None,
            response.additional_context is None,
            response.should_continue,
            response.updated_input is None,
    {
        HookResponse::new()
    }
}

} // verus!
