//! Host side of the sandbox in which user-written functions run.
//!
//! The JavaScript engine itself lives outside this library. What is here is
//! everything the host decides around it: which module text is served under
//! which name, how a module is prepared for evaluation, in which order an
//! invocation talks to the engine, and what becomes of the guest's output.

pub mod bridge;
pub mod loader;
pub mod media;
pub mod runtime;
pub mod specifier;

pub use bridge::{op_print, HostBridge, StdioMsg, StdioMsgView};
pub use media::{MediaKind, ModuleType};
pub use specifier::{ModuleSpecifier, ModuleSpecifierView};
pub use loader::{
    ContentType, LoadStep, LoaderError, ModuleLoader, ModuleSource, RemoteResponse,
};
pub use runtime::{
    CallOutcome, Capabilities, EngineReply, EngineRequest, ExportShape, FunctionRuntime,
    ParamsExport, RuntimeError, Stage,
};
pub use crate::models::function::{FunctionParam, FunctionParams};
