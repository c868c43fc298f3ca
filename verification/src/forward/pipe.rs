//! The forward pipeline and the order in which it draws.

use vstd::prelude::*;
use std::cmp::Ordering;
use crate::cache::Cache;
use crate::frame::{action, action_of, Action, Flavor, Stage};
use crate::forward::lights::{
    active_count, count_active, payload_of, Light, MASK_CAPACITY, MAX_LIGHTS,
};
use crate::forward::{Kernel, Params, Technique, TENTH};
use crate::light::PointSource;
use crate::mesh::MeshCapability;
use crate::queue::{draw_order, opaque_first, ranking, Keyed, Queue, SortKey};
use crate::view::{DepthKey, Info};
use crate::{
    zero_vector, zeros, ColorValue, CompiledTechnique, Material, Object, Single, TEX_COORD, ZERO,
};

verus! {

impl<Q, P, G> Keyed for Object<Kernel, Q, P, G> {
    open spec fn key(&self) -> SortKey {
        SortKey { blended: self.kernel.transparency.blended(), depth: self.depth }
    }

    fn sort_key(&self) -> (k: SortKey) {
        SortKey { blended: self.kernel.transparency.is_blended(), depth: self.depth }
    }
}

/// Custom ordering function to draw opaque objects first in a
/// front-to-back order, and transparent objects on top in a
/// back-to-front order.
pub fn order<Q, P, G>(a: &Object<Kernel, Q, P, G>, b: &Object<Kernel, Q, P, G>) -> (o:
    Ordering)
    ensures
        o == ranking(a.key(), b.key()),
{
    let ka = a.sort_key();
    let kb = b.sort_key();
    if ka.draws_before(&kb) {
        Ordering::Less
    } else if kb.draws_before(&ka) {
        Ordering::Greater
    } else {
        Ordering::Equal
    }
}

/// The forward rendering pipeline.
pub struct Pipeline<P, T, B, G> {
    technique: Technique<P, T, B>,
    cache: Cache<CompiledTechnique<P, Params<T, B>>>,
    queue: Queue<Object<Kernel, Params<T, B>, P, G>>,
    background: Option<ColorValue>,
}

impl<P: Copy, T: Copy, B: Copy, G: Copy> Pipeline<P, T, B, G> {
    /// The technique of the pipeline.
    pub closed spec fn technique_of(&self) -> Technique<P, T, B> {
        self.technique
    }

    /// What was compiled so far, by the code of the kernel.
    pub closed spec fn cached(&self) -> Map<u64, CompiledTechnique<P, Params<T, B>>> {
        self.cache@
    }

    /// The objects of the frame that were not submitted yet, oldest first.
    pub closed spec fn queued(&self) -> Seq<Object<Kernel, Params<T, B>, P, G>> {
        self.queue@
    }

    /// Background color. With none the screen is not cleared.
    pub closed spec fn background_of(&self) -> Option<ColorValue> {
        self.background
    }

    /// Every entry of the cache is what the technique compiles for its
    /// kernel, and no more lights are active than a mask can name.
    pub open spec fn wf(&self) -> bool {
        &&& active_count(self.technique_of().lights@) <= MASK_CAPACITY
        &&& forall|kernel: Kernel| #[trigger]
            self.cached().contains_key(kernel.code_of() as u64) ==> self.cached()[kernel.code_of() as u64]
                == self.technique_of().compiled(kernel)
    }

    /// The object that is queued for a material on a mesh, if the technique
    /// draws it.
    pub open spec fn object_of(
        &self,
        mesh: MeshCapability,
        slice: G,
        mat: Material<T>,
        space: Info<Single>,
        depth: DepthKey,
    ) -> Option<Object<Kernel, Params<T, B>, P, G>> {
        match Technique::<P, T, B>::kernel_of(mesh.has(TEX_COORD@), mat.texture is Some, mat.transparency) {
            Some(kernel) => {
                let compiled = self.technique_of().compiled(kernel);
                Some(
                    Object {
                        program: compiled.program,
                        params: self.technique_of().refined(mat, space, compiled.params),
                        slice,
                        depth,
                        kernel,
                        state: compiled.state,
                    },
                )
            },
            None => None,
        }
    }

    /// Create a new pipeline from the resources that it draws with. It has
    /// no lights, and it clears the screen to transparent black.
    pub fn new(program: P, program_textured: P, light_buf: B, default_texture: T) -> (pipeline:
        Pipeline<P, T, B, G>)
        ensures
            pipeline.wf(),
            pipeline.technique_of().program == program,
            pipeline.technique_of().program_textured == program_textured,
            pipeline.technique_of().light_buf == light_buf,
            pipeline.technique_of().default_texture == default_texture,
            pipeline.technique_of().ambient_color == [TENTH, TENTH, TENTH, ZERO],
            pipeline.technique_of().lights@ == Seq::<PointSource<Single>>::empty(),
            pipeline.cached() == Map::<u64, CompiledTechnique<P, Params<T, B>>>::empty(),
            pipeline.queued() == Seq::<Object<Kernel, Params<T, B>, P, G>>::empty(),
            pipeline.background_of() == Some(zeros()),
    {
        Pipeline {
            technique: Technique::new(program, program_textured, light_buf, default_texture),
            cache: Cache::new(),
            queue: Queue::new(),
            background: Some(zero_vector()),
        }
    }

    /// The technique of the pipeline.
    pub fn technique(&self) -> (technique: &Technique<P, T, B>)
        ensures
            *technique == self.technique_of(),
    {
        &self.technique
    }

    /// Background color. With none the screen is not cleared.
    pub fn background(&self) -> (color: Option<ColorValue>)
        ensures
            color == self.background_of(),
    {
        self.background
    }

    /// Sets the background color. Set to none if you don't want the screen
    /// to be cleared.
    pub fn set_background(&mut self, color: Option<ColorValue>)
        requires
            old(self).wf(),
        ensures
            final(self).wf(),
            final(self).background_of() == color,
            final(self).technique_of() == old(self).technique_of(),
            final(self).cached() == old(self).cached(),
            final(self).queued() == old(self).queued(),
    {
        self.background = color;
    }

    /// Replaces the lights of the scene, unless more of the new lights are
    /// active than a mask can name: then the pipeline keeps its lights and
    /// hands the new ones back.
    pub fn set_lights(&mut self, lights: Vec<PointSource<Single>>) -> (refused: Result<
        (),
        Vec<PointSource<Single>>,
    >)
        requires
            old(self).wf(),
        ensures
            final(self).wf(),
            refused is Ok <==> active_count(lights@) <= MASK_CAPACITY,
            refused is Ok ==> final(self).technique_of() == (Technique {
                lights,
                ..old(self).technique_of()
            }),
            refused matches Err(given) ==> given == lights && final(self).technique_of() == old(
                self,
            ).technique_of(),
            final(self).cached() == old(self).cached(),
            final(self).queued() == old(self).queued(),
            final(self).background_of() == old(self).background_of(),
    {
        if count_active(&lights) > MASK_CAPACITY {
            return Err(lights);
        }
        self.technique.lights = lights;
        Ok(())
    }

    /// Sets the color of the areas that no light reaches.
    pub fn set_ambient_color(&mut self, color: ColorValue)
        requires
            old(self).wf(),
        ensures
            final(self).wf(),
            final(self).technique_of() == (Technique { ambient_color: color, ..old(self).technique_of() }),
            final(self).cached() == old(self).cached(),
            final(self).queued() == old(self).queued(),
            final(self).background_of() == old(self).background_of(),
    {
        self.technique.ambient_color = color;
    }

    /// Tells what has to be done to leave a stage of the frame.
    pub fn action(&self, stage: Stage) -> (step: Action)
        ensures
            step == action_of(stage, Flavor::Forward, self.background_of()),
    {
        action(stage, Flavor::Forward, self.background)
    }

    /// The number of kernels that were compiled so far.
    pub fn compiled_kernels(&self) -> (n: usize)
        ensures
            n == self.cached().len(),
    {
        self.cache.len()
    }

    /// The number of objects in the queue.
    pub fn queue_len(&self) -> (n: usize)
        ensures
            n == self.queued().len(),
    {
        self.queue.len()
    }

    /// Hands out what the technique compiles for the kernel. The technique
    /// is asked only where the cache has no entry for the kernel; what it
    /// gives then is kept for the life of the pipeline.
    pub fn get_or_compile(&mut self, kernel: Kernel) -> (compiled: CompiledTechnique<P, Params<T, B>>)
        requires
            old(self).wf(),
        ensures
            final(self).wf(),
            compiled == old(self).technique_of().compiled(kernel),
            final(self).cached() == (if old(self).cached().contains_key(kernel.code_of() as u64) {
                old(self).cached()
            } else {
                old(self).cached().insert(kernel.code_of() as u64, compiled)
            }),
            final(self).technique_of() == old(self).technique_of(),
            final(self).queued() == old(self).queued(),
            final(self).background_of() == old(self).background_of(),
    {
        let code = kernel.code();
        match self.cache.get(code) {
            Some(compiled) => {
                assert(self.cached().contains_key(kernel.code_of() as u64));
                compiled
            },
            None => {
                let compiled = self.technique.compile(kernel);
                self.cache.remember(code, compiled);
                proof {
                    assert forall|other: Kernel| #[trigger]
                        self.cached().contains_key(other.code_of() as u64) implies self.cached()[other.code_of() as u64]
                        == self.technique_of().compiled(other) by {
                        if other.code_of() == kernel.code_of() {
                            Kernel::lemma_code_tells_kernels_apart(other, kernel);
                        }
                    }
                }
                compiled
            },
        }
    }

    /// Add an entity to the queue, if the technique draws it, and tell
    /// whether it does.
    pub fn enqueue(
        &mut self,
        mesh: &MeshCapability,
        slice: G,
        material: &Material<T>,
        view_info: &Info<Single>,
        depth: DepthKey,
    ) -> (drawn: bool)
        requires
            old(self).wf(),
        ensures
            final(self).wf(),
            drawn == old(self).object_of(*mesh, slice, *material, *view_info, depth) is Some,
            final(self).queued() == (match old(self).object_of(*mesh, slice, *material, *view_info, depth) {
                Some(object) => old(self).queued().push(object),
                None => old(self).queued(),
            }),
            final(self).technique_of() == old(self).technique_of(),
            final(self).background_of() == old(self).background_of(),
            forall|code: u64| #[trigger]
                old(self).cached().contains_key(code) ==> final(self).cached().contains_key(code)
                    && final(self).cached()[code] == old(self).cached()[code],
    {
        let kernel = match self.technique.test(mesh, material) {
            Some(kernel) => kernel,
            None => {
                return false;
            },
        };
        let compiled = self.get_or_compile(kernel);
        let mut params = compiled.params;
        self.technique.fix_params(material, view_info, &mut params);
        self.queue.push(
            Object { program: compiled.program, params, slice, depth, kernel, state: compiled.state },
        );
        true
    }

    /// Takes the objects of the frame out of the queue, in the order of
    /// submission: those that are not blended first, the nearest of them at
    /// the front, then the blended ones, the farthest first. Objects that tie
    /// keep the order in which they were queued.
    pub fn flush(&mut self) -> (objects: Vec<Object<Kernel, Params<T, B>, P, G>>)
        requires
            old(self).wf(),
        ensures
            final(self).wf(),
            draw_order(old(self).queued(), objects@),
            opaque_first(objects@),
            final(self).queued() == Seq::<Object<Kernel, Params<T, B>, P, G>>::empty(),
            final(self).technique_of() == old(self).technique_of(),
            final(self).cached() == old(self).cached(),
            final(self).background_of() == old(self).background_of(),
    {
        self.queue.flush()
    }

    /// Lays out what is written to the light buffer before the objects are
    /// drawn.
    pub fn update(&self) -> (out: Vec<Light>)
        requires
            self.wf(),
        ensures
            out@ == payload_of(self.technique_of().lights@),
            forall|j: int| 0 <= j < out@.len() ==> 1 <= (#[trigger] out@[j]).slot < MAX_LIGHTS,
    {
        self.technique.update()
    }
}

} // verus!
