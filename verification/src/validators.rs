//! Validation of a UFO directory path request.

use vstd::prelude::*;

verus! {

/// Whether no file-system entity exists at `ufopath`. The check runs exactly
/// once, before any decode attempt; the result reflects the disk at that
/// moment, so nothing more can be promised of it.
///
/// Relies on std::path::Path::exists: true when the path points at an
/// existing entity.
#[verifier::external_body]
pub fn is_invalid_ufo_dir_path(ufopath: &str) -> bool {
    !std::path::Path::new(ufopath).exists()
}

} // verus!
