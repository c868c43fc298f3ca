//! This is a simple "Flat" rendering pipeline.
//! It doesn't support blended objects and uses front-to-back ordering.
//! The pipeline is meant for simple applications and fall-back paths.

use vstd::prelude::*;
use std::cmp::Ordering;
use crate::cache::Cache;
use crate::frame::{action, action_of, Action, Flavor, Stage};
use crate::mesh::MeshCapability;
use crate::queue::{draw_order, ranking, sorted, Keyed, Queue, SortKey};
use crate::state::DrawState;
use crate::view::{DepthKey, Info};
use crate::{zero_matrix4, zero_vector, zeros, zeros4, TEX_COORD};
use crate::{AlphaThreshold, ColorValue, CompiledTechnique, Material, Object, Single, Transparency};

pub use crate::error::Error;

verus! {

/// The shader parameters of one object.
#[derive(Clone, Copy, Debug, PartialEq)]
pub struct Params<T> {
    /// Vertex -> clip transform.
    pub mvp: [[Single; 4]; 4],
    /// Color of the material.
    pub color: ColorValue,
    /// Diffuse color texture.
    pub texture: T,
    /// Alpha threshold of a cutout, zero without one.
    pub alpha_test: AlphaThreshold,
}

/// The core technique of the pipeline. `P` is a handle of a shader program
/// and `T` a reference to a texture.
#[derive(Clone, Copy, Debug, PartialEq)]
pub struct Technique<P, T> {
    /// The program for materials whose texture is not sampled.
    pub program: P,
    /// The program for textured materials.
    pub program_textured: P,
    /// The default texture used for materials that don't have it.
    pub default_texture: T,
}

/// Kernel of the technique, defining what program needs to be used.
#[allow(missing_docs)]
#[derive(Clone, Copy, Debug, PartialEq, Eq, Hash, Structural)]
pub enum Kernel {
    Flat,
    Textured,
    AlphaCut(AlphaThreshold),
}

impl Kernel {
    /// A number that stands for the kernel.
    pub open spec fn code_of(self) -> int {
        match self {
            Kernel::Flat => 0,
            Kernel::Textured => 1,
            Kernel::AlphaCut(v) => 2 + v,
        }
    }

    /// Computes the number under which the kernel is cached.
    pub fn code(&self) -> (c: u64)
        ensures
            c == self.code_of(),
    {
        match self {
            Kernel::Flat => 0,
            Kernel::Textured => 1,
            Kernel::AlphaCut(v) => 2 + *v as u64,
        }
    }

    /// Different kernels have different codes.
    pub proof fn lemma_code_tells_kernels_apart(a: Kernel, b: Kernel)
        requires
            a.code_of() == b.code_of(),
        ensures
            a == b,
    {
    }

    /// The alpha threshold of the kernel, zero where it has none.
    pub open spec fn threshold(self) -> AlphaThreshold {
        match self {
            Kernel::AlphaCut(v) => v,
            _ => 0u8,
        }
    }
}

impl<P: Copy, T: Copy> Technique<P, T> {
    /// Create a new technique from the resources that it draws with.
    pub fn new(program: P, program_textured: P, default_texture: T) -> (technique: Technique<P, T>)
        ensures
            technique == (Technique { program, program_textured, default_texture }),
    {
        Technique { program, program_textured, default_texture }
    }

    /// The kernel of a material on a mesh, if the technique draws it. It
    /// draws opaque materials, with their texture where the mesh has
    /// coordinates for it, and cutouts whose texture can be sampled. It draws
    /// nothing that is blended.
    pub open spec fn kernel_of(has_tex_coord: bool, has_texture: bool, transparency: Transparency)
        -> Option<Kernel> {
        let textured = has_texture && has_tex_coord;
        match transparency {
            Transparency::Opaque => Some(
                if textured {
                    Kernel::Textured
                } else {
                    Kernel::Flat
                },
            ),
            Transparency::Cutout(v) => if textured {
                Some(Kernel::AlphaCut(v))
            } else {
                None
            },
            Transparency::Blend(_) => None,
        }
    }

    /// Test if this mesh/material can be drawn using the technique.
    pub fn test(&self, mesh: &MeshCapability, mat: &Material<T>) -> (kernel: Option<Kernel>)
        ensures
            kernel == Self::kernel_of(mesh.has(TEX_COORD@), mat.texture is Some, mat.transparency),
    {
        let textured = mat.texture.is_some() && mesh.has_attribute(TEX_COORD);
        match mat.transparency {
            Transparency::Opaque => if textured {
                Some(Kernel::Textured)
            } else {
                Some(Kernel::Flat)
            },
            Transparency::Cutout(v) => if textured {
                Some(Kernel::AlphaCut(v))
            } else {
                None
            },
            Transparency::Blend(_) => None,
        }
    }

    /// What `compile` hands out for a kernel: the plain program for the flat
    /// kernel and the textured one for the others; a parameter block of
    /// zeros that holds the default texture and the alpha threshold of the
    /// kernel; and a draw state with the depth test and without blending.
    pub open spec fn compiled(&self, kernel: Kernel) -> CompiledTechnique<P, Params<T>> {
        CompiledTechnique {
            program: if kernel != Kernel::Flat {
                self.program_textured
            } else {
                self.program
            },
            params: Params {
                mvp: zeros4(),
                color: zeros(),
                texture: self.default_texture,
                alpha_test: kernel.threshold(),
            },
            state: DrawState::depth_tested(),
        }
    }

    /// Compile a given kernel by producing a program, a parameter block with
    /// its default values, and a draw state.
    pub fn compile(&self, kernel: Kernel) -> (c: CompiledTechnique<P, Params<T>>)
        ensures
            c == self.compiled(kernel),
    {
        CompiledTechnique {
            program: match kernel {
                Kernel::Flat => self.program,
                _ => self.program_textured,
            },
            params: Params {
                mvp: zero_matrix4(),
                color: zero_vector(),
                texture: self.default_texture,
                alpha_test: if let Kernel::AlphaCut(v) = kernel {
                    v
                } else {
                    0
                },
            },
            state: DrawState::opaque(),
        }
    }

    /// The parameter block of an object: the clip transform of its view, the
    /// color of its material, and the texture of the material where it has
    /// one. What the block held of the default texture and the alpha
    /// threshold stays.
    pub open spec fn refined(mat: Material<T>, space: Info<Single>, params: Params<T>) -> Params<T> {
        Params {
            mvp: space.mx_vertex,
            color: mat.color,
            texture: match mat.texture {
                Some(texture) => texture,
                None => params.texture,
            },
            alpha_test: params.alpha_test,
        }
    }

    /// Fix the shader parameters, using an updated material and view info.
    pub fn fix_params(&self, mat: &Material<T>, space: &Info<Single>, params: &mut Params<T>)
        ensures
            *final(params) == Self::refined(*mat, *space, *old(params)),
    {
        params.mvp = space.mx_vertex;
        params.color = mat.color;
        if let Some(texture) = mat.texture {
            params.texture = texture;
        }
    }
}

impl<Q, P, G> Keyed for Object<Kernel, Q, P, G> {
    open spec fn key(&self) -> SortKey {
        SortKey { blended: false, depth: self.depth }
    }

    fn sort_key(&self) -> (k: SortKey) {
        SortKey { blended: false, depth: self.depth }
    }
}

/// Sort by depth, front-to-back: what is nearer is drawn first, so that it
/// hides what lies behind it before that is shaded.
pub fn front_to_back<Q, P, G>(a: &Object<Kernel, Q, P, G>, b: &Object<Kernel, Q, P, G>) -> (o:
    Ordering)
    ensures
        o == ranking(a.key(), b.key()),
        o == Ordering::Less <==> a.depth < b.depth,
        o == Ordering::Equal <==> a.depth == b.depth,
{
    if a.depth < b.depth {
        Ordering::Less
    } else if a.depth > b.depth {
        Ordering::Greater
    } else {
        Ordering::Equal
    }
}

/// The flat pipeline.
pub struct Pipeline<P, T, G> {
    technique: Technique<P, T>,
    cache: Cache<CompiledTechnique<P, Params<T>>>,
    queue: Queue<Object<Kernel, Params<T>, P, G>>,
    background: Option<ColorValue>,
}

impl<P: Copy, T: Copy, G: Copy> Pipeline<P, T, G> {
    /// The technique of the pipeline.
    pub closed spec fn technique_of(&self) -> Technique<P, T> {
        self.technique
    }

    /// What was compiled so far, by the code of the kernel.
    pub closed spec fn cached(&self) -> Map<u64, CompiledTechnique<P, Params<T>>> {
        self.cache@
    }

    /// The objects of the frame that were not submitted yet, oldest first.
    pub closed spec fn queued(&self) -> Seq<Object<Kernel, Params<T>, P, G>> {
        self.queue@
    }

    /// Background color. With none the screen is not cleared.
    pub closed spec fn background_of(&self) -> Option<ColorValue> {
        self.background
    }

    /// Every entry of the cache is what the technique compiles for its
    /// kernel.
    pub open spec fn wf(&self) -> bool {
        forall|kernel: Kernel| #[trigger]
            self.cached().contains_key(kernel.code_of() as u64) ==> self.cached()[kernel.code_of() as u64]
                == self.technique_of().compiled(kernel)
    }

    /// The object that is queued for a material on a mesh, if the technique
    /// draws it.
    pub open spec fn object_of(
        &self,
        mesh: MeshCapability,
        slice: G,
        mat: Material<T>,
        space: Info<Single>,
        depth: DepthKey,
    ) -> Option<Object<Kernel, Params<T>, P, G>> {
        match Technique::<P, T>::kernel_of(mesh.has(TEX_COORD@), mat.texture is Some, mat.transparency) {
            Some(kernel) => {
                let compiled = self.technique_of().compiled(kernel);
                Some(
                    Object {
                        program: compiled.program,
                        params: Technique::<P, T>::refined(mat, space, compiled.params),
                        slice,
                        depth,
                        kernel,
                        state: compiled.state,
                    },
                )
            },
            None => None,
        }
    }

    /// Create a new pipeline from the resources that it draws with. It
    /// clears the screen to transparent black.
    pub fn new(program: P, program_textured: P, default_texture: T) -> (pipeline: Pipeline<P, T, G>)
        ensures
            pipeline.wf(),
            pipeline.technique_of() == (Technique { program, program_textured, default_texture }),
            pipeline.cached() == Map::<u64, CompiledTechnique<P, Params<T>>>::empty(),
            pipeline.queued() == Seq::<Object<Kernel, Params<T>, P, G>>::empty(),
            pipeline.background_of() == Some(zeros()),
    {
        Pipeline {
            technique: Technique::new(program, program_textured, default_texture),
            cache: Cache::new(),
            queue: Queue::new(),
            background: Some(zero_vector()),
        }
    }

    /// The technique of the pipeline.
    pub fn technique(&self) -> (technique: &Technique<P, T>)
        ensures
            *technique == self.technique_of(),
    {
        &self.technique
    }

    /// Background color. With none the screen is not cleared.
    pub fn background(&self) -> (color: Option<ColorValue>)
        ensures
            color == self.background_of(),
    {
        self.background
    }

    /// Sets the background color. Set to none if you don't want the screen
    /// to be cleared.
    pub fn set_background(&mut self, color: Option<ColorValue>)
        requires
            old(self).wf(),
        ensures
            final(self).wf(),
            final(self).background_of() == color,
            final(self).technique_of() == old(self).technique_of(),
            final(self).cached() == old(self).cached(),
            final(self).queued() == old(self).queued(),
    {
        self.background = color;
    }

    /// Tells what has to be done to leave a stage of the frame.
    pub fn action(&self, stage: Stage) -> (step: Action)
        ensures
            step == action_of(stage, Flavor::Flat, self.background_of()),
    {
        action(stage, Flavor::Flat, self.background)
    }

    /// The number of kernels that were compiled so far.
    pub fn compiled_kernels(&self) -> (n: usize)
        ensures
            n == self.cached().len(),
    {
        self.cache.len()
    }

    /// The number of objects in the queue.
    pub fn queue_len(&self) -> (n: usize)
        ensures
            n == self.queued().len(),
    {
        self.queue.len()
    }

    /// Hands out what the technique compiles for the kernel. The technique
    /// is asked only where the cache has no entry for the kernel; what it
    /// gives then is kept for the life of the pipeline.
    pub fn get_or_compile(&mut self, kernel: Kernel) -> (compiled: CompiledTechnique<P, Params<T>>)
        requires
            old(self).wf(),
        ensures
            final(self).wf(),
            compiled == old(self).technique_of().compiled(kernel),
            final(self).cached() == (if old(self).cached().contains_key(kernel.code_of() as u64) {
                old(self).cached()
            } else {
                old(self).cached().insert(kernel.code_of() as u64, compiled)
            }),
            final(self).technique_of() == old(self).technique_of(),
            final(self).queued() == old(self).queued(),
            final(self).background_of() == old(self).background_of(),
    {
        let code = kernel.code();
        match self.cache.get(code) {
            Some(compiled) => {
                assert(self.cached().contains_key(kernel.code_of() as u64));
                compiled
            },
            None => {
                let compiled = self.technique.compile(kernel);
                self.cache.remember(code, compiled);
                proof {
                    assert forall|other: Kernel| #[trigger]
                        self.cached().contains_key(other.code_of() as u64) implies self.cached()[other.code_of() as u64]
                        == self.technique_of().compiled(other) by {
                        if other.code_of() == kernel.code_of() {
                            Kernel::lemma_code_tells_kernels_apart(other, kernel);
                        }
                    }
                }
                compiled
            },
        }
    }

    /// Add an entity to the queue, if the technique draws it, and tell
    /// whether it does.
    pub fn enqueue(
        &mut self,
        mesh: &MeshCapability,
        slice: G,
        material: &Material<T>,
        view_info: &Info<Single>,
        depth: DepthKey,
    ) -> (drawn: bool)
        requires
            old(self).wf(),
        ensures
            final(self).wf(),
            drawn == old(self).object_of(*mesh, slice, *material, *view_info, depth) is Some,
            final(self).queued() == (match old(self).object_of(*mesh, slice, *material, *view_info, depth) {
                Some(object) => old(self).queued().push(object),
                None => old(self).queued(),
            }),
            final(self).technique_of() == old(self).technique_of(),
            final(self).background_of() == old(self).background_of(),
            forall|code: u64| #[trigger]
                old(self).cached().contains_key(code) ==> final(self).cached().contains_key(code)
                    && final(self).cached()[code] == old(self).cached()[code],
    {
        let kernel = match self.technique.test(mesh, material) {
            Some(kernel) => kernel,
            None => {
                return false;
            },
        };
        let compiled = self.get_or_compile(kernel);
        let mut params = compiled.params;
        self.technique.fix_params(material, view_info, &mut params);
        self.queue.push(
            Object { program: compiled.program, params, slice, depth, kernel, state: compiled.state },
        );
        true
    }

    /// Takes the objects of the frame out of the queue, the nearest first.
    /// Objects of one depth keep the order in which they were queued.
    pub fn flush(&mut self) -> (objects: Vec<Object<Kernel, Params<T>, P, G>>)
        requires
            old(self).wf(),
        ensures
            final(self).wf(),
            draw_order(old(self).queued(), objects@),
            forall|i: int, j: int|
                0 <= i < j < objects@.len() ==> (#[trigger] objects@[i]).depth <= (#[trigger] objects@[j]).depth,
            final(self).queued() == Seq::<Object<Kernel, Params<T>, P, G>>::empty(),
            final(self).technique_of() == old(self).technique_of(),
            final(self).cached() == old(self).cached(),
            final(self).background_of() == old(self).background_of(),
    {
        let objects = self.queue.flush();
        proof {
            assert forall|i: int, j: int| 0 <= i < j < objects@.len() implies (#[trigger] objects@[i]).depth
                <= (#[trigger] objects@[j]).depth by {
                assert(sorted(objects@));
                assert(!objects@[j].key().before(objects@[i].key()));
            }
        }
        objects
    }
}

} // verus!
