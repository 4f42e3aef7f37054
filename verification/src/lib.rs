//! A bridge between a host object model and an embedded QuickJS engine.
//!
//! The crate covers the logic that joins the two sides at a narrow,
//! handle-based boundary: a handle table that gives each owned engine
//! value exactly one live integer handle, a per-thread reentrancy stack
//! that makes nested re-entry into an active context safe, the two
//! type-directed value converters, the exception bridge, and the dotted
//! function invocation adapter.

pub mod engine;
pub mod exception;
pub mod handles;
pub mod invoke;
pub mod reentry;
pub mod value;

pub use engine::EngineSession;
pub use exception::{CaughtScript, CauseInfo, EngineFailure, HostException, ThrowableInfo};
pub use handles::HandleTable;
pub use invoke::{CallShape, InvokeError, InvokePlan};
pub use reentry::{ReentryStack, ScopeEntry};
pub use value::{BridgedValue, CallableKind, HostKind, HostProbe, HostValue, JsValue};
