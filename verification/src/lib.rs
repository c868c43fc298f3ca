//! Technique dispatch and draw ordering for a scene renderer.
//!
//! For every drawable object of a frame the library picks a shader variant
//! (a kernel), hands out the parameter block and draw state that belong to the
//! variant, fills the block with the object's values, and fixes the order in
//! which the objects are submitted: opaque ones front to back, blended ones
//! after them, back to front. The forward flavor also lays the scene's lights
//! out in a buffer and packs, per object, the slots of the lights that reach it.
//!
//! Scalars pass through the library untouched. They are held as the bit
//! patterns of IEEE 754 single-precision numbers, so that every value the
//! library hands out is exactly the value it was given.

use vstd::prelude::*;

pub mod cache;
pub mod error;
pub mod flat;
pub mod forward;
pub mod frame;
pub mod light;
pub mod mesh;
pub mod queue;
pub mod state;
pub mod view;

pub use self::light::PointSource as Light;
pub use self::view::Info as ViewInfo;

verus! {

/// Bit pattern of an IEEE 754 single-precision number.
pub type Single = u32;

/// Red, green, blue and alpha.
pub type ColorValue = [Single; 4];

/// Alpha test type: a fragment passes when its alpha exceeds the threshold
/// divided by 255.
pub type AlphaThreshold = u8;

/// The bit pattern of `0.0`.
pub const ZERO: Single = 0;

/// `gfx::BlendPreset`, the blend presets of gfx: `Add`, `Multiply`, `Alpha`
/// and `Invert`. The verifier takes the variants from gfx; nothing else is
/// claimed of the type.
#[verifier::external_type_specification]
pub struct ExBlendPreset(gfx::BlendPreset);

/// Transparency type.
#[derive(Clone, Copy, Debug, PartialEq, Eq, Hash)]
pub enum Transparency {
    /// Opaque material, no transparency.
    Opaque,
    /// Transparent in a sense of cutting out a shape from a texture.
    Cutout(AlphaThreshold),
    /// Real transparency with blending.
    Blend(gfx::BlendPreset),
}

impl Transparency {
    /// Blended objects are drawn after all others.
    pub open spec fn blended(self) -> bool {
        self is Blend
    }

    /// Tells whether the material is blended with what lies behind it.
    pub fn is_blended(&self) -> (b: bool)
        ensures
            b == self.blended(),
    {
        match self {
            Transparency::Blend(_) => true,
            _ => false,
        }
    }

    /// The alpha threshold of a cutout, zero for everything else.
    pub open spec fn threshold(self) -> AlphaThreshold {
        match self {
            Transparency::Cutout(v) => v,
            _ => 0u8,
        }
    }

    /// Computes the alpha threshold that the shader tests against.
    pub fn alpha_threshold(&self) -> (v: AlphaThreshold)
        ensures
            v == self.threshold(),
    {
        match self {
            Transparency::Cutout(v) => *v,
            _ => 0,
        }
    }
}

/// A simple material type used in the pipelines. `T` is a reference to a
/// texture, cheap to copy.
#[derive(Clone, Copy, Debug, PartialEq)]
pub struct Material<T> {
    /// Color (both diffuse and specular).
    pub color: ColorValue,
    /// Diffuse color texture.
    pub texture: Option<T>,
    /// Transparency type.
    pub transparency: Transparency,
}

/// The name of the vertex attribute that holds the texture coordinates.
pub const TEX_COORD: &'static str = "a_Tex0";

/// Four entries, all of them `0.0`.
pub open spec fn zeros() -> [Single; 4] {
    [ZERO, ZERO, ZERO, ZERO]
}

/// A matrix of four columns, all of whose entries are `0.0`.
pub open spec fn zeros4() -> [[Single; 4]; 4] {
    [zeros(), zeros(), zeros(), zeros()]
}

/// A matrix of three columns, all of whose entries are `0.0`.
pub open spec fn zeros3() -> [[Single; 3]; 3] {
    [[ZERO, ZERO, ZERO], [ZERO, ZERO, ZERO], [ZERO, ZERO, ZERO]]
}

/// Makes four entries of `0.0`.
pub fn zero_vector() -> (v: [Single; 4])
    ensures
        v == zeros(),
{
    let v = [ZERO; 4];
    assert(v =~= zeros());
    v
}

/// Makes a matrix of four columns of `0.0`.
pub fn zero_matrix4() -> (m: [[Single; 4]; 4])
    ensures
        m == zeros4(),
{
    let m = [[ZERO; 4]; 4];
    assert forall|i: int| 0 <= i < 4 implies m[i] == zeros4()[i] by {
        assert(m[i] =~= zeros());
    }
    assert(m =~= zeros4());
    m
}

/// Makes a matrix of three columns of `0.0`.
pub fn zero_matrix3() -> (m: [[Single; 3]; 3])
    ensures
        m == zeros3(),
{
    let m = [[ZERO; 3]; 3];
    assert forall|i: int| 0 <= i < 3 implies m[i] == zeros3()[i] by {
        assert(m[i] =~= zeros3()[i]);
    }
    assert(m =~= zeros3());
    m
}

/// A queued object: all that a draw call needs, and what its place in the
/// order of submission depends on. `G` tells which part of which mesh is
/// drawn; the library hands it on as it got it.
#[derive(Clone, Copy, Debug, PartialEq)]
pub struct Object<K, Q, P, G> {
    /// The shader program.
    pub program: P,
    /// The parameter block, filled for this object.
    pub params: Q,
    /// What is drawn.
    pub slice: G,
    /// The key of the object's depth.
    pub depth: view::DepthKey,
    /// The kernel that the object was compiled for.
    pub kernel: K,
    /// Depth test and blending.
    pub state: state::DrawState,
}

/// What a technique hands out for one kernel: the program to run, the
/// parameter block with its default values, and the draw state.
#[derive(Clone, Copy, Debug, PartialEq)]
pub struct CompiledTechnique<P, Q> {
    /// The shader program.
    pub program: P,
    /// The parameter block, not yet filled for any object.
    pub params: Q,
    /// Depth test and blending.
    pub state: state::DrawState,
}

} // verus!
