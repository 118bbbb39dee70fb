//! The way from the bytes of a module to a running instance, as far as it
//! is decisions: in which order the steps run, when the way ends, what each
//! step reports when it fails, and what error a failure amounts to. The
//! steps that compile, write, link, load and start a module are the
//! caller's to perform; it hands in what came of each.

use crate::error::{
    program_error, program_error_of, CodegenFault, CompileFault, FaultKind, ScriptError,
};
use crate::registry::name_view;
use vstd::prelude::*;

verus! {

/// The steps of the pipeline, in the order in which they run.
#[derive(Clone, Copy, Debug, PartialEq, Eq, Structural)]
pub enum Stage {
    /// Parse the bytes into a structured module.
    Deserialize,
    /// Bind the module against the imports of the harness.
    Program,
    /// Lower the program to its compiled form.
    Compile,
    /// Emit object code into a fresh scratch directory.
    Codegen,
    /// Link the object file into a shared artifact.
    Link,
    /// Open the shared artifact as a loadable module.
    Load,
    /// Make a sandbox region and the instance inside it.
    Instantiate,
}

impl Stage {
    /// The place of a step in the order, counted from zero.
    pub open spec fn position(self) -> nat {
        match self {
            Stage::Deserialize => 0,
            Stage::Program => 1,
            Stage::Compile => 2,
            Stage::Codegen => 3,
            Stage::Link => 4,
            Stage::Load => 5,
            Stage::Instantiate => 6,
        }
    }

    /// The step that follows a step that succeeded; none after the last.
    pub open spec fn successor(self) -> Option<Stage> {
        match self {
            Stage::Deserialize => Some(Stage::Program),
            Stage::Program => Some(Stage::Compile),
            Stage::Compile => Some(Stage::Codegen),
            Stage::Codegen => Some(Stage::Link),
            Stage::Link => Some(Stage::Load),
            Stage::Load => Some(Stage::Instantiate),
            Stage::Instantiate => None,
        }
    }

    /// The step that follows this one, if any.
    pub fn next(self) -> (following: Option<Stage>)
        ensures
            following == self.successor(),
    {
        match self {
            Stage::Deserialize => Some(Stage::Program),
            Stage::Program => Some(Stage::Compile),
            Stage::Compile => Some(Stage::Codegen),
            Stage::Codegen => Some(Stage::Link),
            Stage::Link => Some(Stage::Load),
            Stage::Load => Some(Stage::Instantiate),
            Stage::Instantiate => None,
        }
    }
}

/// What a step of the pipeline reports when it fails. The variant says at
/// which step, and of what, the failure came.
#[derive(Debug)]
pub enum StageFailure {
    /// The bytes are not a well-formed binary.
    Deserialize(parity_wasm::elements::Error),
    /// The program could not be built from the module.
    Program(CompileFault),
    /// The program could not be compiled.
    Compile(CompileFault),
    /// The scratch directory for the object code could not be made.
    Workspace(std::io::Error),
    /// The object code could not be emitted or written.
    Object(failure::Error),
    /// The linker could not be started.
    LinkerStart(std::io::Error),
    /// The linker ran and exited with a failure status.
    LinkerExit {
        /// Path of the object file handed to the linker.
        object_path: String,
        /// What the linker wrote to its error stream.
        diagnostics: Vec<u8>,
    },
    /// The shared artifact could not be loaded.
    Load(lucet_runtime::Error),
    /// No region or no instance could be made for the module.
    Instantiate(lucet_runtime::Error),
}

impl StageFailure {
    /// The step at which a failure came.
    pub open spec fn stage(self) -> Stage {
        match self {
            StageFailure::Deserialize(_) => Stage::Deserialize,
            StageFailure::Program(_) => Stage::Program,
            StageFailure::Compile(_) => Stage::Compile,
            StageFailure::Workspace(_) => Stage::Codegen,
            StageFailure::Object(_) => Stage::Codegen,
            StageFailure::LinkerStart(_) => Stage::Link,
            StageFailure::LinkerExit { .. } => Stage::Link,
            StageFailure::Load(_) => Stage::Load,
            StageFailure::Instantiate(_) => Stage::Instantiate,
        }
    }
}

/// The error that a failure of a step amounts to. Each failure maps to one
/// kind and is carried in it as it came: a failure of the file system or of
/// starting a process is an IO error at whatever step it came, a failed
/// program build is sorted by its kind, and a linker that exits with a
/// failure is a code generation error.
pub open spec fn stage_error_of(failure: StageFailure) -> ScriptError {
    match failure {
        StageFailure::Deserialize(e) => ScriptError::DeserializeError(e),
        StageFailure::Program(fault) => program_error_of(fault),
        StageFailure::Compile(fault) => ScriptError::CompileError(fault),
        StageFailure::Workspace(e) => ScriptError::IoError(e),
        StageFailure::Object(e) => ScriptError::CodegenError(CodegenFault::Object(e)),
        StageFailure::LinkerStart(e) => ScriptError::IoError(e),
        StageFailure::LinkerExit { object_path, diagnostics } => ScriptError::CodegenError(
            CodegenFault::Linker { object_path, diagnostics },
        ),
        StageFailure::Load(e) => ScriptError::LoadError(e),
        StageFailure::Instantiate(e) => ScriptError::InstantiateError(e),
    }
}

/// Sorts the failure of a step into the taxonomy.
pub fn stage_error(failure: StageFailure) -> (err: ScriptError)
    ensures
        err == stage_error_of(failure),
{
    match failure {
        StageFailure::Deserialize(e) => ScriptError::DeserializeError(e),
        StageFailure::Program(fault) => program_error(fault),
        StageFailure::Compile(fault) => ScriptError::CompileError(fault),
        StageFailure::Workspace(e) => ScriptError::IoError(e),
        StageFailure::Object(e) => ScriptError::CodegenError(CodegenFault::Object(e)),
        StageFailure::LinkerStart(e) => ScriptError::IoError(e),
        StageFailure::LinkerExit { object_path, diagnostics } => ScriptError::CodegenError(
            CodegenFault::Linker { object_path, diagnostics },
        ),
        StageFailure::Load(e) => ScriptError::LoadError(e),
        StageFailure::Instantiate(e) => ScriptError::InstantiateError(e),
    }
}

/// Where the pipeline goes after a step. A step that succeeded is followed
/// by its successor, and the last one by nothing: the instance is ready. A
/// step that failed ends the pipeline with its failure; no later step runs.
pub fn advance(stage: Stage, outcome: Result<(), StageFailure>) -> (step: Result<
    Option<Stage>,
    StageFailure,
>)
    ensures
        match outcome {
            Ok(_) => step == Ok::<Option<Stage>, StageFailure>(stage.successor()),
            Err(failure) => step == Err::<Option<Stage>, StageFailure>(failure),
        },
{
    match outcome {
        Ok(_) => Ok(stage.next()),
        Err(failure) => Err(failure),
    }
}

/// The steps run in one fixed order: each successor stands one place after
/// its step, the order starts at decoding, and only instantiation has no
/// successor.
pub proof fn lemma_stages_in_order(stage: Stage)
    ensures
        Stage::Deserialize.position() == 0,
        stage.successor() matches Some(following) ==> following.position() == stage.position()
            + 1,
        stage.successor() is None <==> stage == Stage::Instantiate,
        stage.position() <= Stage::Instantiate.position(),
{
}

/// One kind of error per step and cause: the error of a failure is of the
/// kind that belongs to the step at which the failure came, with the two
/// splits that the taxonomy makes. A failed program build is a validation
/// error exactly when the module broke the semantic rules, and a program
/// error otherwise; at code generation and at linking, a failure of the
/// file system or of starting the linker is an IO error, any other a code
/// generation error.
pub proof fn lemma_one_kind_per_stage(failure: StageFailure)
    ensures
        match failure.stage() {
            Stage::Deserialize => stage_error_of(failure) is DeserializeError,
            Stage::Program => stage_error_of(failure) is ValidationError || stage_error_of(
                failure,
            ) is ProgramError,
            Stage::Compile => stage_error_of(failure) is CompileError,
            Stage::Codegen => stage_error_of(failure) is CodegenError || stage_error_of(
                failure,
            ) is IoError,
            Stage::Link => stage_error_of(failure) is CodegenError || stage_error_of(
                failure,
            ) is IoError,
            Stage::Load => stage_error_of(failure) is LoadError,
            Stage::Instantiate => stage_error_of(failure) is InstantiateError,
        },
        stage_error_of(failure) is ValidationError <==> (failure matches StageFailure::Program(
            fault,
        ) && fault.kind == FaultKind::Validation),
        stage_error_of(failure).is_unsupported() <==> ({
            ||| failure matches StageFailure::Program(fault) && fault.kind == FaultKind::Unsupported
            ||| failure matches StageFailure::Compile(fault) && fault.kind == FaultKind::Unsupported
        }),
        !(stage_error_of(failure) is MalformedScript),
        !(stage_error_of(failure) is RuntimeError),
{
}

/// A WebAssembly module in structured form.
#[verifier::external_type_specification]
#[verifier::external_body]
pub struct ExModule(parity_wasm::elements::Module);

/// What `parity_wasm::deserialize_buffer` makes of a sequence of bytes read
/// as a module.
pub uninterp spec fn decoded(bytes: Seq<u8>) -> Result<
    parity_wasm::elements::Module,
    parity_wasm::elements::Error,
>;

/// Calls `parity_wasm::deserialize_buffer` for a module. The decoder reads
/// the bytes and nothing else, so equal bytes give equal results; the
/// contract gives that result its name and claims no more.
#[verifier::external_body]
fn deserialize_buffer(bytes: &[u8]) -> (parsed: Result<
    parity_wasm::elements::Module,
    parity_wasm::elements::Error,
>)
    ensures
        parsed == decoded(bytes@),
{
    parity_wasm::deserialize_buffer::<parity_wasm::elements::Module>(bytes)
}

/// What the decoding step reports for what the decoder returned.
pub open spec fn decode_outcome_of(
    parsed: Result<parity_wasm::elements::Module, parity_wasm::elements::Error>,
) -> Result<parity_wasm::elements::Module, StageFailure> {
    match parsed {
        Ok(module) => Ok(module),
        Err(e) => Err(StageFailure::Deserialize(e)),
    }
}

/// Takes what the decoder returned: the module as it is, and a failure as
/// the failure of the decoding step.
pub fn decode_outcome(
    parsed: Result<parity_wasm::elements::Module, parity_wasm::elements::Error>,
) -> (result: Result<parity_wasm::elements::Module, StageFailure>)
    ensures
        result == decode_outcome_of(parsed),
{
    match parsed {
        Ok(module) => Ok(module),
        Err(e) => Err(StageFailure::Deserialize(e)),
    }
}

/// The decoding step: parses the bytes of a module into its structured
/// form. Bytes that are not a well-formed binary fail the step.
pub fn decode(module: &[u8]) -> (result: Result<parity_wasm::elements::Module, StageFailure>)
    ensures
        result == decode_outcome_of(decoded(module@)),
{
    decode_outcome(deserialize_buffer(module))
}

/// The name under which a module is compiled: its own, or `default` where
/// it has none.
pub open spec fn unit_name_of(name: Option<Seq<char>>) -> Seq<char> {
    match name {
        Some(given) => given,
        None => "default"@,
    }
}

/// The name that tags the compiled unit of a module in diagnostics.
pub fn unit_name(name: &Option<String>) -> (unit: String)
    ensures
        unit@ == unit_name_of(name_view(*name)),
{
    match name {
        Some(given) => given.clone(),
        None => "default".to_owned(),
    }
}

/// What a finished run of the linker amounts to. A run that exited with
/// success lets the linking step succeed; any other fails it, and the
/// failure carries the path of the object file and what the linker wrote to
/// its error stream.
pub fn link_outcome(succeeded: bool, object_path: &str, diagnostics: Vec<u8>) -> (result: Result<
    (),
    StageFailure,
>)
    ensures
        succeeded ==> result is Ok,
        !succeeded ==> (result matches Err(
            StageFailure::LinkerExit { object_path: path, diagnostics: text },
        ) && path@ == object_path@ && text@ == diagnostics@),
{
    if succeeded {
        Ok(())
    } else {
        Err(StageFailure::LinkerExit { object_path: object_path.to_owned(), diagnostics })
    }
}

} // verus!
