//! Draw state: the depth test and the blending that a draw call runs with.

use vstd::prelude::*;
use gfx::state::{Comparison, Depth};
use gfx::BlendPreset;

verus! {

/// `gfx::state::Comparison`, the comparison functions of gfx, from `Never`
/// over `LessEqual` to `Always`. The verifier takes the variants from gfx;
/// nothing else is claimed of the type.
#[verifier::external_type_specification]
pub struct ExComparison(gfx::state::Comparison);

/// `gfx::state::Depth`, the depth test of gfx: the comparison that a
/// fragment has to pass, and whether a passing fragment writes its depth. The
/// verifier takes the two fields from gfx; nothing else is claimed of the
/// type.
#[verifier::external_type_specification]
pub struct ExDepth(gfx::state::Depth);

/// The part of the draw state that the pipelines decide.
#[derive(Clone, Copy, Debug, PartialEq, Eq, Hash)]
pub struct DrawState {
    /// Depth test to use. If `None`, no depth testing is done.
    pub depth: Option<Depth>,
    /// Blend function to use. If `None`, no blending is done.
    pub blend: Option<BlendPreset>,
}

impl DrawState {
    /// The state of every draw call of the pipelines before blending is
    /// chosen: fragments pass when they are not farther than what is stored,
    /// and write their depth.
    pub open spec fn depth_tested() -> DrawState {
        DrawState {
            depth: Some(Depth { fun: Comparison::LessEqual, write: true }),
            blend: None,
        }
    }

    /// Makes the state of a draw call that is not blended.
    pub fn opaque() -> (s: DrawState)
        ensures
            s == Self::depth_tested(),
    {
        DrawState { depth: Some(Depth { fun: Comparison::LessEqual, write: true }), blend: None }
    }

    /// The same state, blended by the preset.
    pub fn blended(self, preset: BlendPreset) -> (s: DrawState)
        ensures
            s == (DrawState { depth: self.depth, blend: Some(preset) }),
    {
        DrawState { depth: self.depth, blend: Some(preset) }
    }
}

} // verus!
