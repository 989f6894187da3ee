//! Pipeline derivation and caching.
//!
//! A graphics pipeline is derived from a program identity (which pass stage
//! it serves) and a material shape — the set of slots that are texture-backed
//! rather than constant-valued. Derivation is deterministic: one key always
//! yields the same bind-group layout and the same vertex layout, so batches
//! never renegotiate layouts per draw. The cache keys pipelines by that
//! shape, allocating one stable handle per distinct key; materials sharing a
//! shape share one pipeline.

use crate::material::Textures;
use crate::mesh::{spec_vertex_attributes, VertexAttribute, VertexLayout};
use vstd::prelude::*;

verus! {

/// Which pass program a pipeline serves.
#[derive(Clone, Copy, PartialEq, Eq, Structural, Debug)]
pub enum ProgramId {
    /// The geometry stage: writes the G-buffer attachments.
    GBuffer,
    /// The lighting stage: reads the G-buffer as input attachments and
    /// resolves once per pixel.
    Lighting,
}

/// A material's shape: which slots are texture-backed. Materials sharing a
/// shape derive the same pipeline.
#[derive(Clone, Copy, PartialEq, Eq, Structural, Debug)]
pub struct MaterialShape {
    pub base_color: bool,
    pub albedo: bool,
    pub specular: bool,
    pub normal: bool,
}

impl MaterialShape {
    /// The shape with nothing texture-backed — what the lighting program
    /// (which samples no material textures) derives from.
    pub fn none() -> (r: MaterialShape)
        ensures
            r == (MaterialShape { base_color: false, albedo: false, specular: false, normal: false }),
    {
        MaterialShape { base_color: false, albedo: false, specular: false, normal: false }
    }
}

/// The shape of a set of texture bindings.
pub open spec fn spec_shape_of(t: Textures) -> MaterialShape {
    MaterialShape {
        base_color: t.base_color.spec_is_bound(),
        albedo: t.albedo.spec_is_bound(),
        specular: t.specular.spec_is_bound(),
        normal: t.normal.spec_is_bound(),
    }
}

pub fn shape_of(t: &Textures) -> (r: MaterialShape)
    ensures
        r == spec_shape_of(*t),
{
    MaterialShape {
        base_color: t.base_color.is_bound(),
        albedo: t.albedo.is_bound(),
        specular: t.specular.is_bound(),
        normal: t.normal.is_bound(),
    }
}

/// What one binding of a bind-group layout holds.
#[derive(Clone, Copy, PartialEq, Eq, Structural, Debug)]
pub enum BindingKind {
    Sampler,
    SampledTexture,
    InputAttachment,
}

/// One binding slot of a bind-group layout.
#[derive(Clone, Copy, PartialEq, Eq, Structural, Debug)]
pub struct LayoutEntry {
    pub binding: u32,
    pub kind: BindingKind,
}

/// The bind-group layout a key derives: for the geometry program, the
/// sampler at binding 0 and one sampled texture per texture-backed slot at
/// that slot's fixed binding (base color 1, albedo 2, specular 3, normal 4);
/// for the lighting program, the three G-buffer input attachments.
pub open spec fn spec_layout(program: ProgramId, shape: MaterialShape) -> Seq<LayoutEntry> {
    match program {
        ProgramId::GBuffer => seq![LayoutEntry { binding: 0, kind: BindingKind::Sampler }]
            + (if shape.base_color {
            seq![LayoutEntry { binding: 1, kind: BindingKind::SampledTexture }]
        } else {
            Seq::empty()
        }) + (if shape.albedo {
            seq![LayoutEntry { binding: 2, kind: BindingKind::SampledTexture }]
        } else {
            Seq::empty()
        }) + (if shape.specular {
            seq![LayoutEntry { binding: 3, kind: BindingKind::SampledTexture }]
        } else {
            Seq::empty()
        }) + (if shape.normal {
            seq![LayoutEntry { binding: 4, kind: BindingKind::SampledTexture }]
        } else {
            Seq::empty()
        }),
        ProgramId::Lighting => seq![
            LayoutEntry { binding: 0, kind: BindingKind::InputAttachment },
            LayoutEntry { binding: 1, kind: BindingKind::InputAttachment },
            LayoutEntry { binding: 2, kind: BindingKind::InputAttachment },
        ],
    }
}

/// One push-constant range of a pipeline layout: which byte range of the
/// per-draw constant block a stage reads.
#[derive(Clone, Copy, PartialEq, Eq, Structural, Debug)]
pub struct PushConstantRange {
    pub start: u32,
    pub end: u32,
}

/// The push-constant ranges a program's layout declares: the geometry
/// program takes the 64-byte world transform per draw; the lighting resolve
/// pushes nothing.
pub open spec fn spec_push_constant_ranges(program: ProgramId) -> Seq<PushConstantRange> {
    match program {
        ProgramId::GBuffer => seq![PushConstantRange { start: 0, end: 64 }],
        ProgramId::Lighting => Seq::empty(),
    }
}

/// The vertex attributes a program consumes: the geometry program reads the
/// engine's fixed vertex layout; the lighting program draws a full-screen
/// primitive from no vertex buffer at all.
pub open spec fn spec_vertex_attributes_of(program: ProgramId) -> Seq<VertexAttribute> {
    match program {
        ProgramId::GBuffer => spec_vertex_attributes(),
        ProgramId::Lighting => Seq::empty(),
    }
}

/// A derived pipeline: its key, the layouts the key determines, and the
/// cache's stable handle for it (the embedder keys its GPU pipeline objects
/// by this handle).
pub struct Pipeline {
    pub program: ProgramId,
    pub shape: MaterialShape,
    pub bind_group_layout: Vec<LayoutEntry>,
    pub vertex_layout: VertexLayout,
    pub push_constant_ranges: Vec<PushConstantRange>,
    pub handle: u64,
}

/// Whether a pipeline's layouts are exactly what its key derives.
pub open spec fn spec_well_derived(p: Pipeline) -> bool {
    &&& p.bind_group_layout@ == spec_layout(p.program, p.shape)
    &&& p.vertex_layout.attributes@ == spec_vertex_attributes_of(p.program)
    &&& p.vertex_layout.array_stride == 32
    &&& p.push_constant_ranges@ == spec_push_constant_ranges(p.program)
}

/// Derivation is a function of the key alone: two well-derived pipelines
/// for one (program, shape) key carry identical bind-group layouts and
/// identical vertex layouts.
pub proof fn lemma_derivation_idempotent(a: Pipeline, b: Pipeline)
    requires
        spec_well_derived(a),
        spec_well_derived(b),
        a.program == b.program,
        a.shape == b.shape,
    ensures
        a.bind_group_layout@ == b.bind_group_layout@,
        a.vertex_layout.attributes@ == b.vertex_layout.attributes@,
        a.vertex_layout.array_stride == b.vertex_layout.array_stride,
        a.push_constant_ranges@ == b.push_constant_ranges@,
{
}

/// One cached derivation.
#[derive(Clone, Copy, PartialEq, Eq, Structural, Debug)]
struct CacheEntry {
    program: ProgramId,
    shape: MaterialShape,
    handle: u64,
}

/// Caches one pipeline per distinct (program, shape) key.
pub struct PipelineCache {
    entries: Vec<CacheEntry>,
    next_handle: u64,
}

impl PipelineCache {
    pub closed spec fn spec_len(self) -> nat {
        self.entries@.len()
    }

    /// The handle the next fresh derivation will get.
    pub closed spec fn spec_next_handle(self) -> u64 {
        self.next_handle
    }

    /// Whether the cache holds a pipeline for this key.
    pub closed spec fn spec_has(self, program: ProgramId, shape: MaterialShape) -> bool {
        exists|e: int|
            0 <= e < self.entries@.len() && (#[trigger] self.entries@[e]).program == program
                && self.entries@[e].shape == shape
    }

    /// The index of this key's entry (meaningful only when `spec_has`).
    closed spec fn spec_index_of(self, program: ProgramId, shape: MaterialShape) -> int {
        choose|e: int|
            0 <= e < self.entries@.len() && (#[trigger] self.entries@[e]).program == program
                && self.entries@[e].shape == shape
    }

    /// The stable handle of this key's pipeline (meaningful only when
    /// `spec_has`).
    pub closed spec fn spec_handle_of(self, program: ProgramId, shape: MaterialShape) -> u64 {
        self.entries@[self.spec_index_of(program, shape)].handle
    }

    /// Keys are unique and handles grow with insertion order, all below the
    /// next free handle.
    pub closed spec fn wf(self) -> bool {
        &&& forall|e1: int, e2: int|
            0 <= e1 < e2 < self.entries@.len() ==> !((#[trigger] self.entries@[e1]).program == (
            #[trigger] self.entries@[e2]).program && self.entries@[e1].shape
                == self.entries@[e2].shape)
        &&& forall|e: int|
            0 <= e < self.entries@.len() ==> (#[trigger] self.entries@[e]).handle < self.next_handle
    }

    pub fn new() -> (r: PipelineCache)
        ensures
            r.wf(),
            r.spec_len() == 0,
            r.spec_next_handle() == 1,
            forall|p: ProgramId, s: MaterialShape| !r.spec_has(p, s),
    {
        PipelineCache { entries: Vec::new(), next_handle: 1 }
    }

    pub fn len(&self) -> (r: usize)
        ensures
            r == self.spec_len(),
    {
        self.entries.len()
    }

    /// Builds the layout vector this key derives.
    fn derive_layout(program: ProgramId, shape: MaterialShape) -> (r: Vec<LayoutEntry>)
        ensures
            r@ == spec_layout(program, shape),
    {
        let mut r: Vec<LayoutEntry> = Vec::new();
        match program {
            ProgramId::GBuffer => {
                r.push(LayoutEntry { binding: 0, kind: BindingKind::Sampler });
                if shape.base_color {
                    r.push(LayoutEntry { binding: 1, kind: BindingKind::SampledTexture });
                }
                if shape.albedo {
                    r.push(LayoutEntry { binding: 2, kind: BindingKind::SampledTexture });
                }
                if shape.specular {
                    r.push(LayoutEntry { binding: 3, kind: BindingKind::SampledTexture });
                }
                if shape.normal {
                    r.push(LayoutEntry { binding: 4, kind: BindingKind::SampledTexture });
                }
                proof {
                    assert(r@ =~= spec_layout(program, shape));
                }
            },
            ProgramId::Lighting => {
                r.push(LayoutEntry { binding: 0, kind: BindingKind::InputAttachment });
                r.push(LayoutEntry { binding: 1, kind: BindingKind::InputAttachment });
                r.push(LayoutEntry { binding: 2, kind: BindingKind::InputAttachment });
                proof {
                    assert(r@ =~= spec_layout(program, shape));
                }
            },
        }
        r
    }

    /// Builds the push-constant ranges this program's layout declares.
    fn derive_push_constant_ranges(program: ProgramId) -> (r: Vec<PushConstantRange>)
        ensures
            r@ == spec_push_constant_ranges(program),
    {
        let mut r: Vec<PushConstantRange> = Vec::new();
        match program {
            ProgramId::GBuffer => {
                r.push(PushConstantRange { start: 0, end: 64 });
                proof {
                    assert(r@ =~= spec_push_constant_ranges(program));
                }
            },
            ProgramId::Lighting => {
                proof {
                    assert(r@ =~= spec_push_constant_ranges(program));
                }
            },
        }
        r
    }

    /// Builds the vertex layout this program consumes.
    fn derive_vertex_layout(program: ProgramId) -> (r: VertexLayout)
        ensures
            r.attributes@ == spec_vertex_attributes_of(program),
            r.array_stride == 32,
    {
        match program {
            ProgramId::GBuffer => crate::mesh::standard_vertex_layout(),
            ProgramId::Lighting => VertexLayout { array_stride: 32, attributes: Vec::new() },
        }
    }

    /// Returns this key's pipeline, deriving and caching it on first use.
    ///
    /// The layouts are a function of the key alone; the handle is the one
    /// the key was first cached under — a repeated call finds the cache
    /// unchanged and answers the same handle, and every other cached key
    /// keeps its handle.
    pub fn get_or_create(&mut self, program: ProgramId, shape: MaterialShape) -> (p: Pipeline)
        requires
            old(self).wf(),
            old(self).spec_next_handle() < u64::MAX,
        ensures
            final(self).wf(),
            p.program == program,
            p.shape == shape,
            spec_well_derived(p),
            final(self).spec_has(program, shape),
            final(self).spec_handle_of(program, shape) == p.handle,
            old(self).spec_has(program, shape) ==> {
                &&& final(self).spec_len() == old(self).spec_len()
                &&& final(self).spec_next_handle() == old(self).spec_next_handle()
                &&& p.handle == old(self).spec_handle_of(program, shape)
            },
            !old(self).spec_has(program, shape) ==> {
                &&& final(self).spec_len() == old(self).spec_len() + 1
                &&& p.handle == old(self).spec_next_handle()
                &&& final(self).spec_next_handle() == old(self).spec_next_handle() + 1
            },
            forall|pr: ProgramId, sh: MaterialShape|
                old(self).spec_has(pr, sh) ==> final(self).spec_has(pr, sh)
                    && final(self).spec_handle_of(pr, sh) == old(self).spec_handle_of(pr, sh),
    {
        let count = self.entries.len();
        let mut e: usize = 0;
        while e < count
            invariant
                *self == *old(self),
                self.wf(),
                count == self.entries@.len(),
                e <= count,
                forall|x: int|
                    0 <= x < e ==> !((#[trigger] self.entries@[x]).program == program
                        && self.entries@[x].shape == shape),
            decreases count - e,
        {
            let entry = self.entries[e];
            if entry.program == program && entry.shape == shape {
                proof {
                    assert(self.entries@[e as int].program == program
                        && self.entries@[e as int].shape == shape);
                    assert(self.spec_has(program, shape));
                    let w = self.spec_index_of(program, shape);
                    assert(0 <= w < self.entries@.len() && self.entries@[w].program == program
                        && self.entries@[w].shape == shape);
                    if w < e as int {
                        assert(!(self.entries@[w].program == self.entries@[e as int].program
                            && self.entries@[w].shape == self.entries@[e as int].shape));
                    } else if w > e as int {
                        assert(!(self.entries@[e as int].program == self.entries@[w].program
                            && self.entries@[e as int].shape == self.entries@[w].shape));
                    }
                    assert(w == e as int);
                }
                return Pipeline {
                    program,
                    shape,
                    bind_group_layout: Self::derive_layout(program, shape),
                    vertex_layout: Self::derive_vertex_layout(program),
                    push_constant_ranges: Self::derive_push_constant_ranges(program),
                    handle: entry.handle,
                };
            }
            e = e + 1;
        }
        let handle = self.next_handle;
        let ghost pre = *self;
        self.entries.push(CacheEntry { program, shape, handle });
        self.next_handle = self.next_handle + 1;
        proof {
            let n = self.entries@.len() - 1;
            assert(self.entries@[n].program == program && self.entries@[n].shape == shape);
            assert(self.spec_has(program, shape));
            assert(!pre.spec_has(program, shape));
            assert forall|e1: int, e2: int|
                0 <= e1 < e2 < self.entries@.len() implies !((#[trigger] self.entries@[e1]).program
                == (#[trigger] self.entries@[e2]).program && self.entries@[e1].shape
                == self.entries@[e2].shape) by {
                if e2 < n {
                    assert(self.entries@[e1] == pre.entries@[e1]);
                    assert(self.entries@[e2] == pre.entries@[e2]);
                } else {
                    assert(self.entries@[e1] == pre.entries@[e1]);
                    if self.entries@[e1].program == program && self.entries@[e1].shape == shape {
                        assert(pre.spec_has(program, shape));
                    }
                }
            }
            let w = self.spec_index_of(program, shape);
            assert(0 <= w < self.entries@.len() && self.entries@[w].program == program
                && self.entries@[w].shape == shape);
            if w != n {
                assert(self.entries@[w] == pre.entries@[w]);
                assert(pre.spec_has(program, shape));
            }
            assert(self.spec_handle_of(program, shape) == handle);
            assert forall|pr: ProgramId, sh: MaterialShape|
                pre.spec_has(pr, sh) implies self.spec_has(pr, sh) && self.spec_handle_of(pr, sh)
                == pre.spec_handle_of(pr, sh) by {
                let wp = pre.spec_index_of(pr, sh);
                assert(0 <= wp < pre.entries@.len() && pre.entries@[wp].program == pr
                    && pre.entries@[wp].shape == sh);
                assert(self.entries@[wp] == pre.entries@[wp]);
                assert(self.spec_has(pr, sh));
                let wn = self.spec_index_of(pr, sh);
                assert(0 <= wn < self.entries@.len() && self.entries@[wn].program == pr
                    && self.entries@[wn].shape == sh);
                if wn == self.entries@.len() - 1 {
                    assert(pr == program && sh == shape);
                    assert(false);
                }
                assert(self.entries@[wn] == pre.entries@[wn]);
                if wn != wp {
                    assert(false);
                }
            }
        }
        Pipeline {
            program,
            shape,
            bind_group_layout: Self::derive_layout(program, shape),
            vertex_layout: Self::derive_vertex_layout(program),
            push_constant_ranges: Self::derive_push_constant_ranges(program),
            handle,
        }
    }
}

} // verus!
