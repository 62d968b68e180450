//! Starting code generation for a crate: the policy check over command-line
//! flags the C backend cannot honour.

use vstd::prelude::*;
use vstd::string::StringExecFns;

verus! {

/// C codegen module.
pub struct Module;

/// Token for an ongoing code generation for a crate.
pub struct OngoingCodegen {}

/// The command-line flags whose settings decide whether the backend can run.
#[derive(Debug, Clone, Copy)]
pub struct CodegenFlags {
    pub thinlto: bool,
    pub profile_generate: bool,
    pub profile_use: bool,
    pub time_llvm_passes: bool,
    pub verify_llvm_ir: bool,
    pub print_llvm_passes: bool,
    pub embed_bitcode: bool,
    pub linker_plugin_lto: bool,
}

/// The first diagnostic owed for `f`, if any flag the backend cannot support
/// is set; the checks run in a fixed order and the first hit wins.
pub open spec fn spec_unsupported_flag(f: CodegenFlags) -> Option<Seq<char>> {
    if f.thinlto {
        Some("the C codegen backend doesn't support ThinLTO"@)
    } else if f.profile_generate || f.profile_use {
        Some("the C codegen backend doesn't support profile-guided optimization"@)
    } else if f.time_llvm_passes {
        Some("-Ztime-llvm-passes not supported by C codegen backend"@)
    } else if f.verify_llvm_ir {
        Some("-Zverify-llvm-ir not supported by C codegen backend"@)
    } else if f.print_llvm_passes {
        Some("-Zprint-llvm-passes not supported by C codegen backend"@)
    } else if f.embed_bitcode {
        Some("-Zembed-bitcode not supported by C codegen backend"@)
    } else if f.linker_plugin_lto {
        Some("linker plugin based LTO not supported by C codegen backend"@)
    } else {
        None
    }
}

/// Checks for command-line flags that aren't or cannot be supported by the C
/// backend and returns the diagnostic for the first one found.
pub fn report_unsupported_flags(f: &CodegenFlags) -> (r: Option<String>)
    ensures
        r.deep_view() == spec_unsupported_flag(*f),
{
    if f.thinlto {
        Some(String::from_str("the C codegen backend doesn't support ThinLTO"))
    } else if f.profile_generate || f.profile_use {
        Some(String::from_str("the C codegen backend doesn't support profile-guided optimization"))
    } else if f.time_llvm_passes {
        Some(String::from_str("-Ztime-llvm-passes not supported by C codegen backend"))
    } else if f.verify_llvm_ir {
        Some(String::from_str("-Zverify-llvm-ir not supported by C codegen backend"))
    } else if f.print_llvm_passes {
        Some(String::from_str("-Zprint-llvm-passes not supported by C codegen backend"))
    } else if f.embed_bitcode {
        Some(String::from_str("-Zembed-bitcode not supported by C codegen backend"))
    } else if f.linker_plugin_lto {
        Some(String::from_str("linker plugin based LTO not supported by C codegen backend"))
    } else {
        None
    }
}

/// Starts code generation for the current crate: refuses to begin exactly
/// when some flag the backend cannot support is set, with that flag's
/// diagnostic as the error.
pub fn start_codegen_crate(f: &CodegenFlags) -> (r: Result<OngoingCodegen, String>)
    ensures
        match r {
            Ok(_) => spec_unsupported_flag(*f) is None,
            Err(e) => spec_unsupported_flag(*f) == Some(e@),
        },
{
    match report_unsupported_flags(f) {
        Some(e) => Err(e),
        None => Ok(OngoingCodegen {  }),
    }
}

} // verus!
