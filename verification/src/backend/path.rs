//! Questions to the file system, with std.

use std::path::Path;
use vstd::prelude::*;

verus! {

/// Calls `Path::exists`.
///
/// Trusted: nothing; the answer is the file system's.
#[verifier::external_body]
pub(crate) fn path_exists(path: &str) -> (found: bool) {
    Path::new(path).exists()
}

/// Calls `Path::is_dir`.
///
/// Trusted: nothing; the answer is the file system's.
#[verifier::external_body]
pub(crate) fn path_is_dir(path: &str) -> (found: bool) {
    Path::new(path).is_dir()
}

} // verus!
