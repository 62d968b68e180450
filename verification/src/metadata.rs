//! Crate-metadata location rules.
//!
//! The I/O that walks an rlib archive or a dylib's sections lives outside
//! this library; what is decided here is which archive member and which
//! object section carry the metadata.

use vstd::prelude::*;
use vstd::string::StringExecFns;

verus! {

/// Metadata filename for metadata stored in an rlib.
pub open spec fn spec_metadata_filename() -> Seq<char> {
    "lib.rmeta"@
}

/// Section name for metadata stored in a dylib.
pub open spec fn spec_metadata_section_name() -> Seq<char> {
    ".rustc"@
}

/// Metadata loader.
///
/// The LLVM backend uses LLVM's own archive and object reading functionality;
/// this loader's rules are plain names, so any archive and object reader can
/// serve it.
pub struct Loader {}

impl Loader {
    pub fn new() -> Loader {
        Loader {  }
    }
}

/// Whether an rlib archive member of this identifier is the one holding the
/// crate metadata.
pub fn is_metadata_filename(name: &str) -> (r: bool)
    ensures
        r == (name@ == spec_metadata_filename()),
{
    let n = name.to_owned();
    let m = String::from_str("lib.rmeta");
    n == m
}

/// Whether a dylib object section of this name is the one holding the crate
/// metadata.
pub fn is_metadata_section(name: &str) -> (r: bool)
    ensures
        r == (name@ == spec_metadata_section_name()),
{
    let n = name.to_owned();
    let m = String::from_str(".rustc");
    n == m
}

/// The archive member name the metadata is stored under in an rlib.
pub fn metadata_filename() -> (r: &'static str)
    ensures
        r@ == spec_metadata_filename(),
{
    "lib.rmeta"
}

/// The object section name the metadata is stored under in a dylib.
pub fn metadata_section_name() -> (r: &'static str)
    ensures
        r@ == spec_metadata_section_name(),
{
    ".rustc"
}

} // verus!
