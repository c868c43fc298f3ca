use gfx_pipeline::error::Error;
use gfx_pipeline::flat;
use gfx_pipeline::forward;

#[test]
fn errors_keep_what_went_wrong() {
    let e: Error = gfx::tex::TextureError::UnsupportedFormat.into();
    assert!(e == Error::Texture(gfx::tex::TextureError::UnsupportedFormat));
    let e = Error::from(gfx::tex::TextureError::IncorrectSize(7));
    assert!(e == Error::Texture(gfx::tex::TextureError::IncorrectSize(7)));
    assert!(e != Error::Texture(gfx::tex::TextureError::IncorrectSize(8)));
    let link = gfx::ProgramError::Link(gfx::device::shade::CreateProgramError::LinkFail("no main".to_string()));
    let e = Error::from(link.clone());
    assert!(e == Error::Program(link));
    let vertex = gfx::ProgramError::Vertex(gfx::device::shade::CreateShaderError::ModelNotSupported);
    let e: Error = vertex.clone().into();
    assert!(e == Error::Program(vertex));
    assert!(e != Error::Texture(gfx::tex::TextureError::UnsupportedGamma));
}

#[test]
fn both_pipelines_share_the_error() {
    let a: flat::Error = Error::from(gfx::tex::TextureError::UnsupportedSampling);
    let b: forward::Error = Error::from(gfx::tex::TextureError::UnsupportedSampling);
    assert!(a == b);
}
