//! Execution engine of a conformance-test harness for a WebAssembly
//! ahead-of-time compiler and its sandbox runtime: a registry of named
//! instances, the invocation of their exports, and the classification of
//! every failure on the way from module bytes to a running instance.

pub mod environment;
pub mod error;
pub mod instance;
pub mod pipeline;
pub mod registry;

pub use environment::ScriptEnv;
pub use error::{program_error, CodegenFault, CompileFault, FaultKind, ScriptError};
pub use instance::Instance;
pub use pipeline::{Stage, StageFailure};
