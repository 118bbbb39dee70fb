use lucet_runtime::Region;
use lucet_spectest::instance::REGION_CAPACITY;
use lucet_spectest::pipeline::{
    advance, decode, decode_outcome, link_outcome, stage_error, unit_name, Stage, StageFailure,
};
use lucet_spectest::{CodegenFault, CompileFault, FaultKind, Instance, ScriptError};
use parity_wasm::elements::{Error, Module};

fn fault(kind: FaultKind) -> CompileFault {
    CompileFault {
        kind,
        message: "compiler says no".to_owned(),
    }
}

fn disk_full() -> std::io::Error {
    std::io::Error::new(std::io::ErrorKind::Other, "disk full")
}

fn empty_module() -> Vec<u8> {
    vec![0x00, 0x61, 0x73, 0x6d, 0x01, 0x00, 0x00, 0x00]
}

#[test]
fn decode_accepts_the_empty_module() {
    let module = decode(&empty_module()).expect("well formed");
    assert_eq!(module.version(), 1);
    assert!(module.sections().is_empty());
}

#[test]
fn decode_reads_the_sections_of_a_module() {
    let built = parity_wasm::builder::module()
        .function()
        .signature()
        .result()
        .i32()
        .build()
        .body()
        .build()
        .build()
        .export()
        .field("answer")
        .internal()
        .func(0)
        .build()
        .build();
    let bytes = parity_wasm::serialize(built).expect("serialized");
    let module = decode(&bytes).expect("well formed");
    let exports = module.export_section().expect("has exports");
    assert_eq!(exports.entries().len(), 1);
    assert_eq!(exports.entries()[0].field(), "answer");
}

#[test]
fn decode_rejects_a_wrong_magic_number() {
    let bytes = vec![0x01, 0x61, 0x73, 0x6d, 0x01, 0x00, 0x00, 0x00];
    assert!(matches!(
        decode(&bytes),
        Err(StageFailure::Deserialize(Error::InvalidMagic))
    ));
}

#[test]
fn decode_rejects_an_unknown_version() {
    let bytes = vec![0x00, 0x61, 0x73, 0x6d, 0x02, 0x00, 0x00, 0x00];
    assert!(matches!(
        decode(&bytes),
        Err(StageFailure::Deserialize(Error::UnsupportedVersion(2)))
    ));
}

#[test]
fn decode_rejects_input_that_ends_early() {
    assert!(matches!(
        decode(&[]),
        Err(StageFailure::Deserialize(_))
    ));
    assert!(matches!(
        decode(&[0x00, 0x61, 0x73, 0x6d, 0x01]),
        Err(StageFailure::Deserialize(_))
    ));
}

#[test]
fn decode_rejects_a_broken_section() {
    let mut bytes = empty_module();
    bytes.extend_from_slice(&[0x01, 0x7f]);
    assert!(matches!(
        decode(&bytes),
        Err(StageFailure::Deserialize(_))
    ));
}

#[test]
fn decode_outcome_keeps_the_module_and_wraps_the_failure() {
    let module = Module::new(vec![]);
    let kept = decode_outcome(Ok(module.clone())).expect("kept");
    assert_eq!(kept, module);
    assert!(matches!(
        decode_outcome(Err(Error::SectionsOutOfOrder)),
        Err(StageFailure::Deserialize(Error::SectionsOutOfOrder))
    ));
}

#[test]
fn unit_name_is_the_given_name() {
    assert_eq!(unit_name(&Some("adder".to_owned())), "adder");
    assert_eq!(unit_name(&Some(String::new())), "");
}

#[test]
fn unit_name_falls_back_to_default() {
    assert_eq!(unit_name(&None), "default");
}

#[test]
fn a_successful_link_goes_on() {
    assert!(link_outcome(true, "/tmp/codegen/a.o", vec![]).is_ok());
    assert!(link_outcome(true, "/tmp/codegen/a.o", b"warning: ignored".to_vec()).is_ok());
}

#[test]
fn a_failed_link_carries_path_and_diagnostics() {
    let result = link_outcome(
        false,
        "/tmp/codegen/a.o",
        b"ld: cannot find a.o\n".to_vec(),
    );
    match result {
        Err(StageFailure::LinkerExit {
            object_path,
            diagnostics,
        }) => {
            assert_eq!(object_path, "/tmp/codegen/a.o");
            assert_eq!(diagnostics, b"ld: cannot find a.o\n".to_vec());
        }
        other => panic!("expected a linker failure, got {:?}", other),
    }
}

#[test]
fn a_failed_link_without_output_is_still_a_failure() {
    let result = link_outcome(false, "", vec![]);
    match result {
        Err(StageFailure::LinkerExit {
            object_path,
            diagnostics,
        }) => {
            assert_eq!(object_path, "");
            assert!(diagnostics.is_empty());
        }
        other => panic!("expected a linker failure, got {:?}", other),
    }
}

#[test]
fn stages_follow_in_their_order() {
    let mut order = vec![Stage::Deserialize];
    while let Some(following) = order[order.len() - 1].next() {
        order.push(following);
        assert!(order.len() <= 7);
    }
    assert_eq!(
        order,
        vec![
            Stage::Deserialize,
            Stage::Program,
            Stage::Compile,
            Stage::Codegen,
            Stage::Link,
            Stage::Load,
            Stage::Instantiate,
        ]
    );
}

#[test]
fn a_step_that_succeeds_is_followed_by_its_successor() {
    assert!(matches!(
        advance(Stage::Deserialize, Ok(())),
        Ok(Some(Stage::Program))
    ));
    assert!(matches!(
        advance(Stage::Codegen, Ok(())),
        Ok(Some(Stage::Link))
    ));
    assert!(matches!(advance(Stage::Instantiate, Ok(())), Ok(None)));
}

#[test]
fn a_step_that_fails_ends_the_pipeline() {
    assert!(matches!(
        advance(Stage::Deserialize, Err(StageFailure::Deserialize(Error::InvalidMagic))),
        Err(StageFailure::Deserialize(Error::InvalidMagic))
    ));
    assert!(matches!(
        advance(
            Stage::Load,
            Err(StageFailure::Load(lucet_runtime::Error::InvalidArgument("so")))
        ),
        Err(StageFailure::Load(lucet_runtime::Error::InvalidArgument("so")))
    ));
}

#[test]
fn each_failure_amounts_to_the_error_of_its_step() {
    assert!(matches!(
        stage_error(StageFailure::Deserialize(Error::InvalidMagic)),
        ScriptError::DeserializeError(Error::InvalidMagic)
    ));
    assert!(matches!(
        stage_error(StageFailure::Compile(fault(FaultKind::Output))),
        ScriptError::CompileError(CompileFault {
            kind: FaultKind::Output,
            ..
        })
    ));
    match stage_error(StageFailure::Object(failure::err_msg("no space"))) {
        ScriptError::CodegenError(CodegenFault::Object(e)) => {
            assert_eq!(e.to_string(), "no space")
        }
        other => panic!("expected a codegen error, got {:?}", other),
    }
    assert!(matches!(
        stage_error(StageFailure::Load(lucet_runtime::Error::InvalidArgument("so"))),
        ScriptError::LoadError(lucet_runtime::Error::InvalidArgument("so"))
    ));
    assert!(matches!(
        stage_error(StageFailure::Instantiate(lucet_runtime::Error::RegionFull(1))),
        ScriptError::InstantiateError(lucet_runtime::Error::RegionFull(1))
    ));
}

#[test]
fn a_failed_program_build_is_sorted_by_its_kind() {
    assert!(matches!(
        stage_error(StageFailure::Program(fault(FaultKind::Validation))),
        ScriptError::ValidationError(_)
    ));
    let unsupported = stage_error(StageFailure::Program(fault(FaultKind::Unsupported)));
    assert!(matches!(unsupported, ScriptError::ProgramError(_)));
    assert!(unsupported.unsupported());
    let plain = stage_error(StageFailure::Program(fault(FaultKind::Table)));
    assert!(matches!(plain, ScriptError::ProgramError(_)));
    assert!(!plain.unsupported());
    assert!(stage_error(StageFailure::Compile(fault(FaultKind::Unsupported))).unsupported());
    assert!(matches!(
        stage_error(StageFailure::Compile(fault(FaultKind::Validation))),
        ScriptError::CompileError(_)
    ));
}

#[test]
fn failures_of_the_file_system_are_io_errors() {
    match stage_error(StageFailure::Workspace(disk_full())) {
        ScriptError::IoError(e) => assert_eq!(e.to_string(), "disk full"),
        other => panic!("expected an io error, got {:?}", other),
    }
    match stage_error(StageFailure::LinkerStart(disk_full())) {
        ScriptError::IoError(e) => assert_eq!(e.to_string(), "disk full"),
        other => panic!("expected an io error, got {:?}", other),
    }
}

#[test]
fn a_linker_failure_is_a_codegen_error_with_its_payload() {
    let failure = link_outcome(false, "/tmp/codegen/a.o", b"ld: bad\n".to_vec())
        .expect_err("the linker failed");
    match stage_error(failure) {
        ScriptError::CodegenError(CodegenFault::Linker {
            object_path,
            diagnostics,
        }) => {
            assert_eq!(object_path, "/tmp/codegen/a.o");
            assert_eq!(diagnostics, b"ld: bad\n".to_vec());
        }
        other => panic!("expected a linker failure, got {:?}", other),
    }
}

#[test]
fn a_region_is_made_for_one_instance() {
    match Instance::region() {
        Ok(region) => {
            assert_eq!(REGION_CAPACITY, 1);
            assert_eq!(region.capacity(), REGION_CAPACITY);
            assert_eq!(region.free_slots(), 1);
        }
        Err(StageFailure::Instantiate(_)) => {}
        Err(other) => panic!("a region fails the instantiation step, got {:?}", other),
    }
}
