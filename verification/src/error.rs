//! The closed set of failures that a directive can end in, and the rules
//! that sort a failure of the compiler into it.

use vstd::prelude::*;

verus! {

/// Failure of the WebAssembly decoder.
#[verifier::external_type_specification]
#[verifier::external_body]
pub struct ExDecodeError(parity_wasm::elements::Error);

/// Failure reported by the code generator's object writer.
#[verifier::external_type_specification]
#[verifier::external_body]
pub struct ExObjectError(failure::Error);

/// Failure of the sandbox runtime.
#[verifier::external_type_specification]
#[verifier::external_body]
pub struct ExRuntimeError(lucet_runtime::Error);

/// Failure of the operating system while handling files or processes.
#[verifier::external_type_specification]
#[verifier::external_body]
pub struct ExIoError(std::io::Error);

/// The compiler's own account of what kind of failure it met.
#[derive(Clone, Copy, Debug, PartialEq, Eq, Structural)]
pub enum FaultKind {
    Input,
    Validation,
    TranslatingModule,
    ModuleData,
    MetadataSerializer,
    FunctionTranslation,
    FunctionDefinition,
    Table,
    MemorySpecs,
    Output,
    Signature,
    Unsupported,
}

/// A failure of the compiler, reduced to what the engine reads of it: the
/// kind, and the compiler's message for the report.
#[derive(Debug)]
pub struct CompileFault {
    pub kind: FaultKind,
    pub message: String,
}

/// Why the native artifact could not be produced.
#[derive(Debug)]
pub enum CodegenFault {
    /// The code generator could not emit or write the object file.
    Object(failure::Error),
    /// The linker ran and exited with a failure status.
    Linker {
        /// Path of the object file handed to the linker.
        object_path: String,
        /// What the linker wrote to its error stream.
        diagnostics: Vec<u8>,
    },
}

/// Every way in which a directive can fail.
#[derive(Debug)]
pub enum ScriptError {
    /// The module's bytes are not a well-formed binary.
    DeserializeError(parity_wasm::elements::Error),
    /// The module breaks the semantic rules of WebAssembly.
    ValidationError(CompileFault),
    /// The program representation could not be built.
    ProgramError(CompileFault),
    /// The program could not be compiled.
    CompileError(CompileFault),
    /// No native artifact could be produced.
    CodegenError(CodegenFault),
    /// The native artifact could not be loaded.
    LoadError(lucet_runtime::Error),
    /// No sandbox could be set up for the module.
    InstantiateError(lucet_runtime::Error),
    /// The sandbox reported a fault while running an export.
    RuntimeError(lucet_runtime::Error),
    /// The directive refers to an instance that does not exist.
    MalformedScript(String),
    /// The file system or a subprocess failed.
    IoError(std::io::Error),
}

/// Where a failure of program construction belongs: a module that breaks the
/// semantic rules is a validation error, anything else a program error.
pub open spec fn program_error_of(fault: CompileFault) -> ScriptError {
    if fault.kind == FaultKind::Validation {
        ScriptError::ValidationError(fault)
    } else {
        ScriptError::ProgramError(fault)
    }
}

/// Sorts a failure of program construction into the taxonomy.
pub fn program_error(e: CompileFault) -> (err: ScriptError)
    ensures
        err == program_error_of(e),
        e.kind == FaultKind::Validation <==> err is ValidationError,
{
    match e.kind {
        FaultKind::Validation => ScriptError::ValidationError(e),
        _ => ScriptError::ProgramError(e),
    }
}

impl ScriptError {
    /// Whether the failure only says that the compiler does not implement a
    /// feature the module uses. Only program and compile errors can say so.
    pub open spec fn is_unsupported(self) -> bool {
        match self {
            ScriptError::ProgramError(fault) => fault.kind == FaultKind::Unsupported,
            ScriptError::CompileError(fault) => fault.kind == FaultKind::Unsupported,
            _ => false,
        }
    }

    /// Tells a missing feature of the compiler from a genuine defect.
    pub fn unsupported(&self) -> (flag: bool)
        ensures
            flag == self.is_unsupported(),
    {
        match self {
            ScriptError::ProgramError(fault) | ScriptError::CompileError(fault) => {
                match fault.kind {
                    FaultKind::Unsupported => true,
                    _ => false,
                }
            },
            _ => false,
        }
    }
}

impl From<std::io::Error> for ScriptError {
    fn from(e: std::io::Error) -> (err: ScriptError) {
        ScriptError::IoError(e)
    }
}

impl vstd::std_specs::convert::FromSpecImpl<std::io::Error> for ScriptError {
    open spec fn obeys_from_spec() -> bool {
        true
    }

    open spec fn from_spec(e: std::io::Error) -> ScriptError {
        ScriptError::IoError(e)
    }
}

/// A module that fails validation is reported as a validation error, never
/// as a program or compile error.
pub proof fn lemma_validation_fault_is_validation_error(fault: CompileFault)
    requires
        fault.kind == FaultKind::Validation,
    ensures
        program_error_of(fault) == ScriptError::ValidationError(fault),
        !(program_error_of(fault) is ProgramError),
        !(program_error_of(fault) is CompileError),
        !program_error_of(fault).is_unsupported(),
{
}

/// A module that uses a feature the compiler lacks yields a program error or
/// a compile error, and either one is flagged as unsupported.
pub proof fn lemma_unsupported_fault_is_flagged(fault: CompileFault)
    requires
        fault.kind == FaultKind::Unsupported,
    ensures
        program_error_of(fault) == ScriptError::ProgramError(fault),
        program_error_of(fault).is_unsupported(),
        ScriptError::CompileError(fault).is_unsupported(),
{
}

/// Only a program or compile error that carries the kind `Unsupported` is
/// flagged; a failure of any other class never is.
pub proof fn lemma_unsupported_only_from_compiler(err: ScriptError)
    ensures
        err.is_unsupported() ==> (err is ProgramError || err is CompileError),
        err.is_unsupported() <==> (err matches ScriptError::ProgramError(f) && f.kind
            == FaultKind::Unsupported) || (err matches ScriptError::CompileError(f) && f.kind
            == FaultKind::Unsupported),
{
}

} // verus!
