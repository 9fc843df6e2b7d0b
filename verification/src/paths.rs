//! File paths. A path is carried from the caller to the caller: the library
//! never looks into one.

use std::path::PathBuf;
use vstd::prelude::*;

verus! {

/// `std::path::PathBuf`, declared so that it can stand in fields and
/// signatures. Nothing is claimed of it.
#[verifier::external_type_specification]
#[verifier::external_body]
pub struct ExPathBuf(PathBuf);

} // verus!
