//! A C code-emission core: renders nested compound types as valid C
//! declarators (following the right-left "spiral" rule) and manages the
//! one-shot lifecycle of in-progress function bodies.

use vstd::prelude::*;
use vstd::string::StringExecFns;

pub mod builder;
pub mod codegen;
pub mod metadata;
pub mod utils;

verus! {

/// A request to print information about the backend's capabilities.
#[derive(Debug, Clone, Copy, PartialEq, Eq, Structural)]
pub enum PrintRequest {
    RelocationModels,
    CodeModels,
    TlsModels,
    TargetCPUs,
    TargetFeatures,
}

/// The answer owed for each print request.
pub open spec fn spec_print_text(req: PrintRequest) -> Seq<char> {
    match req {
        PrintRequest::RelocationModels => "Available relocation models:\n    default\n"@,
        PrintRequest::CodeModels => "Available code models:\n    small\n"@,
        PrintRequest::TlsModels => "Available TLS models:\n    global-dynamic\n"@,
        PrintRequest::TargetCPUs => {
            "Available CPUs for this target:\n    native         - Select the CPU of the current host\n"@
        },
        PrintRequest::TargetFeatures => "Available features for this target:\n    <none>\n"@,
    }
}

/// A codegen backend that translates a lowered program to C code and hands
/// the result to the system's C compiler.
pub struct CCodegenBackend {}

impl CCodegenBackend {
    pub fn new() -> CCodegenBackend {
        CCodegenBackend {}
    }

    /// The text to answer a print request with; the caller prints it.
    pub fn print_text(&self, req: PrintRequest) -> (r: String)
        ensures
            r@ == spec_print_text(req),
    {
        match req {
            PrintRequest::RelocationModels => {
                String::from_str("Available relocation models:\n    default\n")
            },
            PrintRequest::CodeModels => String::from_str("Available code models:\n    small\n"),
            PrintRequest::TlsModels => {
                String::from_str("Available TLS models:\n    global-dynamic\n")
            },
            PrintRequest::TargetCPUs => {
                String::from_str(
                    "Available CPUs for this target:\n    native         - Select the CPU of the current host\n",
                )
            },
            PrintRequest::TargetFeatures => {
                String::from_str("Available features for this target:\n    <none>\n")
            },
        }
    }
}

} // verus!
