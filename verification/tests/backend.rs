//! Backend policy checks, metadata location rules, and utility helpers.

use rustc_codegen_c::codegen::{report_unsupported_flags, start_codegen_crate, CodegenFlags};
use rustc_codegen_c::metadata::{
    is_metadata_filename, is_metadata_section, metadata_filename, metadata_section_name, Loader,
};
use rustc_codegen_c::utils::{cc_version_outcome, ResultExt, WriteError};
use rustc_codegen_c::{CCodegenBackend, PrintRequest};

fn clean_flags() -> CodegenFlags {
    CodegenFlags {
        thinlto: false,
        profile_generate: false,
        profile_use: false,
        time_llvm_passes: false,
        verify_llvm_ir: false,
        print_llvm_passes: false,
        embed_bitcode: false,
        linker_plugin_lto: false,
    }
}

#[test]
fn clean_flags_are_supported() {
    assert_eq!(report_unsupported_flags(&clean_flags()), None);
    assert!(start_codegen_crate(&clean_flags()).is_ok());
}

#[test]
fn each_unsupported_flag_reports_its_message() {
    let mut f = clean_flags();
    f.thinlto = true;
    assert_eq!(
        report_unsupported_flags(&f),
        Some(String::from("the C codegen backend doesn't support ThinLTO"))
    );

    let mut f = clean_flags();
    f.profile_generate = true;
    assert_eq!(
        report_unsupported_flags(&f),
        Some(String::from("the C codegen backend doesn't support profile-guided optimization"))
    );

    let mut f = clean_flags();
    f.profile_use = true;
    assert_eq!(
        report_unsupported_flags(&f),
        Some(String::from("the C codegen backend doesn't support profile-guided optimization"))
    );

    let mut f = clean_flags();
    f.time_llvm_passes = true;
    assert_eq!(
        report_unsupported_flags(&f),
        Some(String::from("-Ztime-llvm-passes not supported by C codegen backend"))
    );

    let mut f = clean_flags();
    f.verify_llvm_ir = true;
    assert_eq!(
        report_unsupported_flags(&f),
        Some(String::from("-Zverify-llvm-ir not supported by C codegen backend"))
    );

    let mut f = clean_flags();
    f.print_llvm_passes = true;
    assert_eq!(
        report_unsupported_flags(&f),
        Some(String::from("-Zprint-llvm-passes not supported by C codegen backend"))
    );

    let mut f = clean_flags();
    f.embed_bitcode = true;
    assert_eq!(
        report_unsupported_flags(&f),
        Some(String::from("-Zembed-bitcode not supported by C codegen backend"))
    );

    let mut f = clean_flags();
    f.linker_plugin_lto = true;
    assert_eq!(
        report_unsupported_flags(&f),
        Some(String::from("linker plugin based LTO not supported by C codegen backend"))
    );
}

#[test]
fn first_unsupported_flag_wins() {
    let mut f = clean_flags();
    f.embed_bitcode = true;
    f.thinlto = true;
    let r = start_codegen_crate(&f);
    assert_eq!(
        r.err(),
        Some(String::from("the C codegen backend doesn't support ThinLTO"))
    );
}

#[test]
fn metadata_location_rules() {
    let _loader = Loader::new();
    assert_eq!(metadata_filename(), "lib.rmeta");
    assert_eq!(metadata_section_name(), ".rustc");
    assert!(is_metadata_filename("lib.rmeta"));
    assert!(!is_metadata_filename("lib.rmeta2"));
    assert!(!is_metadata_filename(""));
    assert!(is_metadata_section(".rustc"));
    assert!(!is_metadata_section(".text"));
}

#[test]
fn version_outcome_combines_streams() {
    let ok = cc_version_outcome(String::from("gcc 12\n"), "note\n", true);
    assert_eq!(ok, Ok(String::from("gcc 12\nnote\n")));
    let err = cc_version_outcome(String::from("gcc 12\n"), "bad flag\n", false);
    assert_eq!(err, Err(String::from("gcc 12\nbad flag\n")));
}

#[test]
fn err_to_string_keeps_ok_and_renders_err() {
    let ok: Result<u32, WriteError> = Ok(7);
    assert_eq!(ok.err_to_string(), Ok(7));
    let bad: Result<u32, WriteError> = Err(WriteError);
    assert_eq!(
        bad.err_to_string(),
        Err(String::from("the text sink rejected a write"))
    );
}

#[test]
fn backend_constructs() {
    let _backend = CCodegenBackend::new();
}

#[test]
fn print_requests_answer_fixed_text() {
    let backend = CCodegenBackend::new();
    assert_eq!(
        backend.print_text(PrintRequest::RelocationModels),
        "Available relocation models:\n    default\n"
    );
    assert_eq!(
        backend.print_text(PrintRequest::CodeModels),
        "Available code models:\n    small\n"
    );
    assert_eq!(
        backend.print_text(PrintRequest::TlsModels),
        "Available TLS models:\n    global-dynamic\n"
    );
    assert_eq!(
        backend.print_text(PrintRequest::TargetCPUs),
        "Available CPUs for this target:\n    native         - Select the CPU of the current host\n"
    );
    assert_eq!(
        backend.print_text(PrintRequest::TargetFeatures),
        "Available features for this target:\n    <none>\n"
    );
}
