//! A verified tool-invocation mediation pipeline: policy hooks that gate tool
//! calls before they run, and a dispatch controller that resolves a tool name
//! to a handler, enforces payload-kind compatibility, and emits audit events
//! around the invocation.

pub mod dispatch;
pub mod engine;
pub mod json;
pub mod matcher;
pub mod registry;
pub mod strutil;
pub mod types;

pub use types::HookDecision;
pub use types::HookInput;
pub use types::HookOutput;
pub use types::HookSpecificOutput;
