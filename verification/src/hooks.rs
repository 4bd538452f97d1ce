pub mod callback;
pub mod response;
pub mod types;

pub use crate::options::{HookEvent, HookMatcher};
pub use callback::HookCallback;
pub use response::{HookResponse, PermissionDecision};
pub use types::{HookContext, HookInput};
