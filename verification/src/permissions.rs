pub mod handler;

pub use handler::{DefaultPermissionHandler, DefaultPermissionHandlerBuilder};
