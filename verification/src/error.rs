//! What can go wrong when a pipeline is made.

use vstd::prelude::*;
use vstd::std_specs::convert::FromSpecImpl;

verus! {

/// `gfx::tex::TextureError`, the error of gfx for a texture that could not
/// be created. The verifier knows nothing of what it holds.
#[verifier::external_type_specification]
#[verifier::external_body]
pub struct ExTextureError(gfx::tex::TextureError);

/// `gfx::ProgramError`, the error of gfx for a program that could not be
/// compiled or linked. The verifier knows nothing of what it holds.
#[verifier::external_type_specification]
#[verifier::external_body]
pub struct ExProgramError(gfx::ProgramError);

/// Pipeline creation error.
#[derive(Debug, PartialEq)]
pub enum Error {
    /// Failed to create a texture.
    Texture(gfx::tex::TextureError),
    /// Failed to link a program.
    Program(gfx::ProgramError),
}

impl From<gfx::tex::TextureError> for Error {
    fn from(e: gfx::tex::TextureError) -> (error: Error) {
        Error::Texture(e)
    }
}

impl FromSpecImpl<gfx::tex::TextureError> for Error {
    open spec fn obeys_from_spec() -> bool {
        true
    }

    open spec fn from_spec(e: gfx::tex::TextureError) -> Error {
        Error::Texture(e)
    }
}

impl From<gfx::ProgramError> for Error {
    fn from(e: gfx::ProgramError) -> (error: Error) {
        Error::Program(e)
    }
}

impl FromSpecImpl<gfx::ProgramError> for Error {
    open spec fn obeys_from_spec() -> bool {
        true
    }

    open spec fn from_spec(e: gfx::ProgramError) -> Error {
        Error::Program(e)
    }
}

} // verus!
