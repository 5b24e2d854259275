//! What this library takes on trust from the platform's dynamic loader.

use vstd::prelude::*;
use libloading::Library;

verus! {

/// A module that the loader has mapped into the process. Nothing of what it
/// holds is visible to proofs.
#[verifier::external_type_specification]
#[verifier::external_body]
pub struct ExLibrary(libloading::Library);

/// The loader's account of a failure. Nothing of what it holds is visible to
/// proofs.
#[verifier::external_type_specification]
#[verifier::external_body]
pub struct ExLoaderError(libloading::Error);

/// `libloading::Library::close` gives the module back to the platform and
/// says whether the platform accepted that. Nothing is claimed of which of
/// the two it will be.
pub assume_specification[ libloading::Library::close ](module: Library) -> (released: Result<
    (),
    libloading::Error,
>)
;

} // verus!
