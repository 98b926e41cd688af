//! How a platform lets a running executable be replaced.

use vstd::prelude::*;
use crate::text::str_eq;

verus! {

/// The family of replacement behaviour a platform belongs to.
#[derive(Clone, Copy, Debug, PartialEq, Eq, Hash, Structural)]
pub enum ProcessType {
    /// The loader picks the program by its file suffix.
    Windows,
    /// The loader asks for the execute permission bit.
    Unix,
    /// Replacement is undefined here.
    Unsupported,
}

/// The family that the platform identifier `name` belongs to.
pub open spec fn process_type_of(name: Seq<char>) -> ProcessType {
    if name == "linux"@ || name == "macos"@ {
        ProcessType::Unix
    } else if name == "windows"@ {
        ProcessType::Windows
    } else {
        ProcessType::Unsupported
    }
}

/// Classifies a platform identifier such as `"linux"`, `"macos"` or
/// `"windows"`; every other identifier is unsupported.
pub fn get_os(name: &str) -> (kind: ProcessType)
    ensures
        kind == process_type_of(name@),
{
    if str_eq(name, "linux") || str_eq(name, "macos") {
        ProcessType::Unix
    } else if str_eq(name, "windows") {
        ProcessType::Windows
    } else {
        ProcessType::Unsupported
    }
}

} // verus!
