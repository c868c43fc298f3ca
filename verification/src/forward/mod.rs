//! The forward pipeline. It draws every material but those with inverting
//! blending, in a single pass: opaque objects first, front to back, and the
//! blended ones on top of them, back to front.

use vstd::prelude::*;
use crate::light::PointSource;
use crate::mesh::MeshCapability;
use crate::state::DrawState;
use crate::view::Info;
use crate::{AlphaThreshold, ColorValue, CompiledTechnique, Material, Single, Transparency};
use gfx::BlendPreset;
use crate::{zero_matrix3, zero_matrix4, zero_vector, zeros, zeros3, zeros4, TEX_COORD, ZERO};

pub mod lights;
pub mod pipe;

pub use crate::error::Error;
pub use self::lights::{LightMask, Light, MASK_CAPACITY, MAX_LIGHTS};
pub use self::pipe::{order, Pipeline};

verus! {

use self::lights::{active_count, count_active, light_mask, mask_of, payload, payload_of};

/// The bit pattern of `0.1`.
pub const TENTH: Single = 0x3dcc_cccd;

/// The shader parameters of one object.
#[derive(Clone, Copy, Debug, PartialEq)]
pub struct Params<T, B> {
    /// Vertex -> clip transform.
    pub mvp: [[Single; 4]; 4],
    /// Vertex -> world transform.
    pub world: [[Single; 4]; 4],
    /// Normal -> world transform.
    pub normal: [[Single; 3]; 3],
    /// Color of the material.
    pub color: ColorValue,
    /// Color of the areas that no light reaches.
    pub ambient: ColorValue,
    /// Diffuse color texture.
    pub texture: T,
    /// Alpha threshold of a cutout, zero without one.
    pub alpha_test: AlphaThreshold,
    /// The slots of the lights that reach the object, eight bits each, four
    /// to a lane, first light lowest.
    pub light_mask: LightMask,
    /// The buffer that holds the lights.
    pub lights: B,
}

/// Kernel of the technique, defining what program needs to be used.
#[derive(Clone, Copy, Debug, PartialEq, Eq, Hash)]
pub struct Kernel {
    /// Whether the texture of the material is sampled.
    pub textured: bool,
    /// Transparency of the material.
    pub transparency: Transparency,
}

/// The core technique of the pipeline. `P` is a handle of a shader program,
/// `T` a reference to a texture and `B` a handle of the light buffer.
#[derive(Clone, Debug, PartialEq)]
pub struct Technique<P, T, B> {
    /// The program for materials whose texture is not sampled.
    pub program: P,
    /// The program for textured materials.
    pub program_textured: P,
    /// The buffer that the lights are uploaded to.
    pub light_buf: B,
    /// The default texture used for materials that don't have it.
    pub default_texture: T,
    /// The light color of non-lit areas.
    pub ambient_color: ColorValue,
    /// Active lights.
    pub lights: Vec<PointSource<Single>>,
}

impl Kernel {
    /// A number that stands for the kernel: twice the number of its
    /// transparency, and one more if it is textured.
    pub open spec fn code_of(self) -> int {
        2 * (match self.transparency {
            Transparency::Opaque => 0int,
            Transparency::Cutout(v) => 1 + v,
            Transparency::Blend(BlendPreset::Add) => 257,
            Transparency::Blend(BlendPreset::Multiply) => 258,
            Transparency::Blend(BlendPreset::Alpha) => 259,
            Transparency::Blend(BlendPreset::Invert) => 260,
        }) + (if self.textured { 1int } else { 0int })
    }

    /// Computes the number under which the kernel is cached.
    pub fn code(&self) -> (c: u64)
        ensures
            c == self.code_of(),
    {
        let t: u64 = match self.transparency {
            Transparency::Opaque => 0,
            Transparency::Cutout(v) => 1 + v as u64,
            Transparency::Blend(BlendPreset::Add) => 257,
            Transparency::Blend(BlendPreset::Multiply) => 258,
            Transparency::Blend(BlendPreset::Alpha) => 259,
            Transparency::Blend(BlendPreset::Invert) => 260,
        };
        2 * t + if self.textured { 1 } else { 0 }
    }

    /// Different kernels have different codes.
    pub proof fn lemma_code_tells_kernels_apart(a: Kernel, b: Kernel)
        requires
            a.code_of() == b.code_of(),
        ensures
            a == b,
    {
    }
}

impl<P: Copy, T: Copy, B: Copy> Technique<P, T, B> {
    /// Create a new technique from the resources that it draws with. The
    /// ambient color is a tenth of white, and there are no lights.
    pub fn new(program: P, program_textured: P, light_buf: B, default_texture: T) -> (technique:
        Technique<P, T, B>)
        ensures
            technique.program == program,
            technique.program_textured == program_textured,
            technique.light_buf == light_buf,
            technique.default_texture == default_texture,
            technique.ambient_color == [TENTH, TENTH, TENTH, ZERO],
            technique.lights@ == Seq::<PointSource<Single>>::empty(),
    {
        Technique {
            program,
            program_textured,
            light_buf,
            default_texture,
            ambient_color: [TENTH, TENTH, TENTH, ZERO],
            lights: Vec::new(),
        }
    }

    /// The kernel of a material on a mesh, if the technique draws it.
    /// Inverting blending is not drawn. The kernel is textured when the
    /// material has a texture and the mesh has coordinates for it.
    pub open spec fn kernel_of(has_tex_coord: bool, has_texture: bool, transparency: Transparency)
        -> Option<Kernel> {
        if transparency == Transparency::Blend(BlendPreset::Invert) {
            None
        } else {
            Some(Kernel { textured: has_texture && has_tex_coord, transparency })
        }
    }

    /// Test if this mesh/material can be drawn using the technique.
    pub fn test(&self, mesh: &MeshCapability, mat: &Material<T>) -> (kernel: Option<Kernel>)
        ensures
            kernel == Self::kernel_of(mesh.has(TEX_COORD@), mat.texture is Some, mat.transparency),
    {
        if let Transparency::Blend(BlendPreset::Invert) = mat.transparency {
            return None;
        }
        Some(
            Kernel {
                textured: mat.texture.is_some() && mesh.has_attribute(TEX_COORD),
                transparency: mat.transparency,
            },
        )
    }

    /// The draw state of a kernel: the depth test of every draw call, and
    /// the blending of the material where it is blended.
    pub open spec fn state_of(kernel: Kernel) -> DrawState {
        DrawState {
            depth: DrawState::depth_tested().depth,
            blend: match kernel.transparency {
                Transparency::Blend(preset) => Some(preset),
                _ => None,
            },
        }
    }

    /// What `compile` hands out for a kernel: the textured program or the
    /// plain one; a parameter block of zeros that holds the default texture,
    /// the alpha threshold of the kernel and the light buffer; and the draw
    /// state of the kernel.
    pub open spec fn compiled(&self, kernel: Kernel) -> CompiledTechnique<P, Params<T, B>> {
        CompiledTechnique {
            program: if kernel.textured {
                self.program_textured
            } else {
                self.program
            },
            params: Params {
                mvp: zeros4(),
                world: zeros4(),
                normal: zeros3(),
                color: zeros(),
                ambient: zeros(),
                texture: self.default_texture,
                alpha_test: kernel.transparency.threshold(),
                light_mask: [0u32, 0u32, 0u32, 0u32],
                lights: self.light_buf,
            },
            state: Self::state_of(kernel),
        }
    }

    /// What is compiled for a kernel does not depend on the lights nor on
    /// the ambient color: it stays the same when they change.
    pub proof fn lemma_compiled_stays(&self, other: &Technique<P, T, B>, kernel: Kernel)
        requires
            self.program == other.program,
            self.program_textured == other.program_textured,
            self.light_buf == other.light_buf,
            self.default_texture == other.default_texture,
        ensures
            self.compiled(kernel) == other.compiled(kernel),
    {
    }

    /// Compile a given kernel by producing a program, a parameter block with
    /// its default values, and a draw state.
    pub fn compile(&self, kernel: Kernel) -> (c: CompiledTechnique<P, Params<T, B>>)
        ensures
            c == self.compiled(kernel),
    {
        let base = DrawState::opaque();
        let light_mask = [0u32; 4];
        assert(light_mask =~= [0u32, 0u32, 0u32, 0u32]);
        CompiledTechnique {
            program: if kernel.textured {
                self.program_textured
            } else {
                self.program
            },
            params: Params {
                mvp: zero_matrix4(),
                world: zero_matrix4(),
                normal: zero_matrix3(),
                color: zero_vector(),
                ambient: zero_vector(),
                texture: self.default_texture,
                alpha_test: kernel.transparency.alpha_threshold(),
                light_mask,
                lights: self.light_buf,
            },
            state: match kernel.transparency {
                Transparency::Blend(preset) => base.blended(preset),
                _ => base,
            },
        }
    }

    /// The parameter block of an object: the transforms of its view, the
    /// color of its material, the ambient color, the mask of the lights, and
    /// the texture of the material where it has one. What the block held of
    /// the default texture, the alpha threshold and the light buffer stays.
    pub open spec fn refined(&self, mat: Material<T>, space: Info<Single>, params: Params<T, B>)
        -> Params<T, B> {
        Params {
            mvp: space.mx_vertex,
            world: space.mx_world,
            normal: space.mx_normal,
            color: mat.color,
            ambient: self.ambient_color,
            texture: match mat.texture {
                Some(texture) => texture,
                None => params.texture,
            },
            alpha_test: params.alpha_test,
            light_mask: mask_of(active_count(self.lights@) as int),
            lights: params.lights,
        }
    }

    /// Fix the shader parameters, using an updated material and view info.
    /// No more lights may be active than a mask can name.
    pub fn fix_params(&self, mat: &Material<T>, space: &Info<Single>, params: &mut Params<T, B>)
        requires
            active_count(self.lights@) <= MASK_CAPACITY,
        ensures
            *final(params) == self.refined(*mat, *space, *old(params)),
    {
        params.mvp = space.mx_vertex;
        params.world = space.mx_world;
        params.normal = space.mx_normal;
        params.color = mat.color;
        params.ambient = self.ambient_color;
        match light_mask(&self.lights) {
            Some(mask) => {
                params.light_mask = mask;
            },
            None => {},
        }
        if let Some(texture) = mat.texture {
            params.texture = texture;
        }
    }

    /// Counts the active lights.
    pub fn active_lights(&self) -> (n: usize)
        ensures
            n == active_count(self.lights@),
    {
        count_active(&self.lights)
    }

    /// Update the light buffer before drawing: lays out what is written to
    /// it. There may not be more active lights than the buffer has slots for
    /// them.
    pub fn update(&self) -> (out: Vec<Light>)
        requires
            active_count(self.lights@) < MAX_LIGHTS,
        ensures
            out@ == payload_of(self.lights@),
            forall|j: int| 0 <= j < out@.len() ==> 1 <= (#[trigger] out@[j]).slot < MAX_LIGHTS,
    {
        payload(&self.lights)
    }
}

} // verus!
