//! The deferred render graph: a two-subpass pass over four attachments,
//! one framebuffer set per swapchain image, and per-frame command recording.
//!
//! The geometry subpass clears and writes the G-buffer (diffuse, normal,
//! depth); the lighting subpass reads those three as input attachments and
//! resolves once per pixel into the final color, which aliases the
//! swapchain image. Staying inside one pass lets the intermediate
//! attachments live in tile memory instead of round-tripping to off-chip
//! memory between the stages.
//!
//! Recording is a small state machine, and its product is a command stream
//! of plain values: the embedder translates each command into its graphics
//! API and owns the actual image and pipeline objects, keyed by the ids the
//! core allocates here. Framebuffer sets are rebuilt wholesale when the
//! swapchain changes; attachment ids are never reused, so a rebuilt set can
//! share nothing with the sets it replaced.
//!
//! The recorder emits the material groups sequentially, in ascending
//! material order. Each group's commands are independent of the others', so
//! recording them concurrently into secondary streams and merging those in
//! the same order is a possible scale-out; it is deliberately not part of
//! this single-control-thread design.

use crate::batch::MaterialGroup;
use crate::errors::NimbusError;
use crate::material::{Material, MaterialId, MaterialManager, SamplerRef, Textures};
use crate::mesh::BufferRef;
use crate::pipeline::{spec_shape_of, MaterialShape, PipelineCache, ProgramId};
use vstd::prelude::*;

verus! {

/// A surface size in pixels.
#[derive(Clone, Copy, PartialEq, Eq, Structural, Debug)]
pub struct Extent2d {
    pub width: u32,
    pub height: u32,
}

/// What the core needs to know of the embedder's swapchain.
#[derive(Clone, Copy, PartialEq, Eq, Structural, Debug)]
pub struct SwapchainInfo {
    pub image_count: u32,
    pub extent: Extent2d,
}

/// The pixel format of an attachment.
#[derive(Clone, Copy, PartialEq, Eq, Structural, Debug)]
pub enum ImageFormat {
    /// Whatever format the swapchain presents in.
    Swapchain,
    /// Four 8-bit channels (the diffuse G-buffer target).
    Rgba8Unorm,
    /// Four 16-bit channels (the normal G-buffer target).
    Rgba16Float,
    /// A 32-bit depth target.
    DepthD32,
}

/// What happens to an attachment when the pass begins.
#[derive(Clone, Copy, PartialEq, Eq, Structural, Debug)]
pub enum LoadOp {
    Clear,
    Load,
}

/// What happens to an attachment when the pass ends.
#[derive(Clone, Copy, PartialEq, Eq, Structural, Debug)]
pub enum StoreOp {
    Store,
    DontCare,
}

/// One attachment of the render pass.
#[derive(Clone, Copy, PartialEq, Eq, Structural, Debug)]
pub struct AttachmentDesc {
    pub format: ImageFormat,
    pub samples: u32,
    pub load_op: LoadOp,
    pub store_op: StoreOp,
}

/// One subpass: which attachments it writes, tests depth against, and reads
/// as pixel-local inputs.
pub struct SubpassDesc {
    pub colors: Vec<u32>,
    pub depth: Option<u32>,
    pub inputs: Vec<u32>,
}

/// The whole two-subpass pass description.
pub struct PassDescription {
    pub attachments: Vec<AttachmentDesc>,
    pub subpasses: Vec<SubpassDesc>,
}

/// The four attachments of the deferred pass: the presented color is kept,
/// the three G-buffer targets are cleared, consumed in-pass, and discarded.
pub open spec fn spec_deferred_attachments() -> Seq<AttachmentDesc> {
    seq![
        AttachmentDesc {
            format: ImageFormat::Swapchain,
            samples: 1,
            load_op: LoadOp::Clear,
            store_op: StoreOp::Store,
        },
        AttachmentDesc {
            format: ImageFormat::Rgba8Unorm,
            samples: 1,
            load_op: LoadOp::Clear,
            store_op: StoreOp::DontCare,
        },
        AttachmentDesc {
            format: ImageFormat::Rgba16Float,
            samples: 1,
            load_op: LoadOp::Clear,
            store_op: StoreOp::DontCare,
        },
        AttachmentDesc {
            format: ImageFormat::DepthD32,
            samples: 1,
            load_op: LoadOp::Clear,
            store_op: StoreOp::DontCare,
        },
    ]
}

/// Builds the deferred pass description: the geometry subpass writes
/// diffuse and normal under the depth test, the lighting subpass writes the
/// final color while reading all three G-buffer targets as inputs. Every
/// attachment reference is in bounds — a malformed subpass index cannot
/// come out of this constructor.
pub fn deferred_pass_description() -> (r: PassDescription)
    ensures
        r.attachments@ == spec_deferred_attachments(),
        r.subpasses@.len() == 2,
        r.subpasses@[0].colors@ == seq![1u32, 2u32],
        r.subpasses@[0].depth == Some(3u32),
        r.subpasses@[0].inputs@.len() == 0,
        r.subpasses@[1].colors@ == seq![0u32],
        r.subpasses@[1].depth is None,
        r.subpasses@[1].inputs@ == seq![1u32, 2u32, 3u32],
        forall|s: int, c: int|
            0 <= s < r.subpasses@.len() && 0 <= c < r.subpasses@[s].colors@.len()
                ==> #[trigger] r.subpasses@[s].colors@[c] < r.attachments@.len(),
        forall|s: int, c: int|
            0 <= s < r.subpasses@.len() && 0 <= c < r.subpasses@[s].inputs@.len()
                ==> #[trigger] r.subpasses@[s].inputs@[c] < r.attachments@.len(),
        forall|s: int|
            0 <= s < r.subpasses@.len() ==> match (#[trigger] r.subpasses@[s]).depth {
                Some(d) => d < r.attachments@.len(),
                None => true,
            },
{
    let mut attachments: Vec<AttachmentDesc> = Vec::new();
    attachments.push(
        AttachmentDesc {
            format: ImageFormat::Swapchain,
            samples: 1,
            load_op: LoadOp::Clear,
            store_op: StoreOp::Store,
        },
    );
    attachments.push(
        AttachmentDesc {
            format: ImageFormat::Rgba8Unorm,
            samples: 1,
            load_op: LoadOp::Clear,
            store_op: StoreOp::DontCare,
        },
    );
    attachments.push(
        AttachmentDesc {
            format: ImageFormat::Rgba16Float,
            samples: 1,
            load_op: LoadOp::Clear,
            store_op: StoreOp::DontCare,
        },
    );
    attachments.push(
        AttachmentDesc {
            format: ImageFormat::DepthD32,
            samples: 1,
            load_op: LoadOp::Clear,
            store_op: StoreOp::DontCare,
        },
    );
    proof {
        assert(attachments@ =~= spec_deferred_attachments());
    }
    let mut gbuffer_colors: Vec<u32> = Vec::new();
    gbuffer_colors.push(1);
    gbuffer_colors.push(2);
    let gbuffer = SubpassDesc { colors: gbuffer_colors, depth: Some(3), inputs: Vec::new() };
    let mut lighting_colors: Vec<u32> = Vec::new();
    lighting_colors.push(0);
    let mut lighting_inputs: Vec<u32> = Vec::new();
    lighting_inputs.push(1);
    lighting_inputs.push(2);
    lighting_inputs.push(3);
    let lighting = SubpassDesc { colors: lighting_colors, depth: None, inputs: lighting_inputs };
    let mut subpasses: Vec<SubpassDesc> = Vec::new();
    subpasses.push(gbuffer);
    subpasses.push(lighting);
    proof {
        assert(subpasses@[0].colors@ =~= seq![1u32, 2u32]);
        assert(subpasses@[1].colors@ =~= seq![0u32]);
        assert(subpasses@[1].inputs@ =~= seq![1u32, 2u32, 3u32]);
    }
    PassDescription { attachments, subpasses }
}

/// An opaque handle standing for one GPU image (attachment) allocation.
#[derive(Clone, Copy, PartialEq, Eq, Structural, Debug)]
pub struct ImageRef(pub u64);

/// The attachments rendered into for one swapchain image slot: the final
/// color (aliasing the swapchain image) and the three G-buffer targets.
/// Lifetime is tied to the swapchain: a rebuild replaces every set.
#[derive(Clone, Copy, PartialEq, Eq, Structural, Debug)]
pub struct FramebufferSet {
    pub final_color: ImageRef,
    pub diffuse: ImageRef,
    pub normal: ImageRef,
    pub depth: ImageRef,
    pub extent: Extent2d,
}

/// The framebuffer set a generation starting at `base` gets for image slot
/// `f`: four consecutive attachment ids.
pub open spec fn spec_set_for(base: int, f: int, extent: Extent2d) -> FramebufferSet {
    FramebufferSet {
        final_color: ImageRef((base + 4 * f) as u64),
        diffuse: ImageRef((base + 4 * f + 1) as u64),
        normal: ImageRef((base + 4 * f + 2) as u64),
        depth: ImageRef((base + 4 * f + 3) as u64),
        extent,
    }
}

/// The smallest attachment id of a set.
pub open spec fn spec_set_min_id(s: FramebufferSet) -> u64 {
    vstd::math::min(
        vstd::math::min(s.final_color.0 as int, s.diffuse.0 as int),
        vstd::math::min(s.normal.0 as int, s.depth.0 as int),
    ) as u64
}

/// The largest attachment id of a set.
pub open spec fn spec_set_max_id(s: FramebufferSet) -> u64 {
    vstd::math::max(
        vstd::math::max(s.final_color.0 as int, s.diffuse.0 as int),
        vstd::math::max(s.normal.0 as int, s.depth.0 as int),
    ) as u64
}

/// One recorded command, in the order the GPU executes them. The embedder
/// translates these one-for-one into its graphics API; pipelines are named
/// by their derivation key, attachments and buffers by their opaque ids.
#[derive(Clone, Copy, PartialEq, Eq, Structural, Debug)]
pub enum RenderCommand {
    /// Begin the deferred pass on the given image slot's framebuffer set,
    /// clearing all four attachments.
    BeginRenderPass { framebuffer: u32 },
    /// Bind the pipeline derived for this key.
    BindPipeline { program: ProgramId, shape: MaterialShape },
    /// Bind one material's textures and sampler as the draw's descriptors.
    BindMaterial { material: MaterialId, textures: Textures, sampler: SamplerRef },
    /// Push the world transform of this node as the draw's constant block
    /// (the embedder folds the local transforms along the node's ancestor
    /// chain).
    PushWorldTransform { node: usize },
    BindVertexBuffer { buffer: BufferRef },
    BindIndexBuffer { buffer: BufferRef },
    /// Draw `index_count` indices starting at `first_index`.
    DrawIndexed { index_count: u32, first_index: u32 },
    /// Advance from the geometry subpass to the lighting subpass without
    /// leaving the pass; the subpass dependency orders G-buffer writes
    /// before the reads below.
    NextSubpass,
    /// Bind the G-buffer targets of the frame's set as input attachments.
    BindInputAttachments { diffuse: ImageRef, normal: ImageRef, depth: ImageRef },
    /// The lighting resolve: one full-screen draw, no per-object iteration.
    FullscreenDraw { vertex_count: u32 },
    EndRenderPass,
}

/// The five commands one instance records.
pub open spec fn spec_instance_commands(
    inst: crate::batch::RenderInstance,
    m: Material,
) -> Seq<RenderCommand> {
    seq![
        RenderCommand::BindMaterial { material: m.id, textures: m.textures, sampler: m.sampler },
        RenderCommand::PushWorldTransform { node: inst.node },
        RenderCommand::BindVertexBuffer { buffer: inst.vertex_buffer },
        RenderCommand::BindIndexBuffer { buffer: inst.index_buffer },
        RenderCommand::DrawIndexed {
            index_count: inst.index_count,
            first_index: inst.index_offset,
        },
    ]
}

/// The commands of a group's instances, in group order.
pub open spec fn spec_instances_commands(
    insts: Seq<crate::batch::RenderInstance>,
    m: Material,
) -> Seq<RenderCommand>
    decreases insts.len(),
{
    if insts.len() == 0 {
        Seq::empty()
    } else {
        spec_instances_commands(insts.drop_last(), m) + spec_instance_commands(insts.last(), m)
    }
}

/// One group's commands: bind its material's pipeline once, then draw each
/// instance.
pub open spec fn spec_group_commands(g: MaterialGroup, m: Material) -> Seq<RenderCommand> {
    seq![
        RenderCommand::BindPipeline {
            program: ProgramId::GBuffer,
            shape: spec_shape_of(m.textures),
        },
    ] + spec_instances_commands(g.instances@, m)
}

/// The geometry subpass: every group's commands, in group (ascending
/// material) order. Meaningful when every group's material resolves.
pub open spec fn spec_gbuffer_commands(
    groups: Seq<MaterialGroup>,
    registry: MaterialManager,
) -> Seq<RenderCommand>
    decreases groups.len(),
{
    if groups.len() == 0 {
        Seq::empty()
    } else {
        spec_gbuffer_commands(groups.drop_last(), registry) + match registry.spec_get(
            groups.last().material,
        ) {
            Some(m) => spec_group_commands(groups.last(), m),
            None => Seq::empty(),
        }
    }
}

/// The lighting subpass tail: advance, bind the lighting pipeline and the
/// frame's G-buffer, resolve with one full-screen draw.
pub open spec fn spec_lighting_commands(set: FramebufferSet) -> Seq<RenderCommand> {
    seq![
        RenderCommand::NextSubpass,
        RenderCommand::BindPipeline {
            program: ProgramId::Lighting,
            shape: MaterialShape { base_color: false, albedo: false, specular: false, normal: false },
        },
        RenderCommand::BindInputAttachments {
            diffuse: set.diffuse,
            normal: set.normal,
            depth: set.depth,
        },
        RenderCommand::FullscreenDraw { vertex_count: 3 },
    ]
}

/// The first group (in ascending material order) whose material the
/// registry does not hold, from index `g` on.
pub open spec fn spec_first_missing(
    groups: Seq<MaterialGroup>,
    registry: MaterialManager,
    g: int,
) -> Option<MaterialId>
    decreases groups.len() - g,
{
    if 0 <= g < groups.len() {
        if registry.spec_get(groups[g].material) is None {
            Some(groups[g].material)
        } else {
            spec_first_missing(groups, registry, g + 1)
        }
    } else {
        None
    }
}

/// How many pipeline binds a command stream holds.
pub open spec fn spec_count_binds(cmds: Seq<RenderCommand>) -> int
    decreases cmds.len(),
{
    if cmds.len() == 0 {
        0
    } else {
        spec_count_binds(cmds.drop_last()) + if cmds.last() is BindPipeline {
            1int
        } else {
            0int
        }
    }
}

/// How many indexed draws a command stream holds.
pub open spec fn spec_count_draws(cmds: Seq<RenderCommand>) -> int
    decreases cmds.len(),
{
    if cmds.len() == 0 {
        0
    } else {
        spec_count_draws(cmds.drop_last()) + if cmds.last() is DrawIndexed {
            1int
        } else {
            0int
        }
    }
}

proof fn lemma_counts_add(a: Seq<RenderCommand>, b: Seq<RenderCommand>)
    ensures
        spec_count_binds(a + b) == spec_count_binds(a) + spec_count_binds(b),
        spec_count_draws(a + b) == spec_count_draws(a) + spec_count_draws(b),
    decreases b.len(),
{
    if b.len() == 0 {
        assert(a + b =~= a);
    } else {
        lemma_counts_add(a, b.drop_last());
        assert((a + b).drop_last() =~= a + b.drop_last());
        assert((a + b).last() == b.last());
    }
}

proof fn lemma_instance_counts(insts: Seq<crate::batch::RenderInstance>, m: Material)
    ensures
        spec_count_binds(spec_instances_commands(insts, m)) == 0,
        spec_count_draws(spec_instances_commands(insts, m)) == insts.len(),
    decreases insts.len(),
{
    if insts.len() > 0 {
        lemma_instance_counts(insts.drop_last(), m);
        lemma_counts_add(
            spec_instances_commands(insts.drop_last(), m),
            spec_instance_commands(insts.last(), m),
        );
        reveal_with_fuel(spec_count_binds, 6);
        reveal_with_fuel(spec_count_draws, 6);
        assert(spec_count_binds(spec_instance_commands(insts.last(), m)) == 0);
        assert(spec_count_draws(spec_instance_commands(insts.last(), m)) == 1);
    }
}

/// The geometry subpass binds a pipeline exactly once per material group,
/// however many draws each group issues — and issues exactly one indexed
/// draw per instance. (The lighting subpass adds its own single pipeline
/// bind and no indexed draw.)
pub proof fn lemma_one_bind_per_group(groups: Seq<MaterialGroup>, registry: MaterialManager)
    requires
        forall|g: int|
            0 <= g < groups.len() ==> registry.spec_get((#[trigger] groups[g]).material) is Some,
    ensures
        spec_count_binds(spec_gbuffer_commands(groups, registry)) == groups.len(),
        spec_count_draws(spec_gbuffer_commands(groups, registry))
            == crate::batch::spec_group_total(groups),
    decreases groups.len(),
{
    if groups.len() > 0 {
        let pre = groups.drop_last();
        assert(forall|g: int|
            0 <= g < pre.len() ==> registry.spec_get((#[trigger] pre[g]).material) is Some) by {
            assert(forall|g: int| 0 <= g < pre.len() ==> pre[g] == groups[g]);
        }
        lemma_one_bind_per_group(pre, registry);
        let m = registry.spec_get(groups.last().material)->Some_0;
        lemma_counts_add(
            spec_gbuffer_commands(pre, registry),
            spec_group_commands(groups.last(), m),
        );
        lemma_counts_add(
            seq![
                RenderCommand::BindPipeline {
                    program: ProgramId::GBuffer,
                    shape: spec_shape_of(m.textures),
                },
            ],
            spec_instances_commands(groups.last().instances@, m),
        );
        lemma_instance_counts(groups.last().instances@, m);
        reveal_with_fuel(spec_count_binds, 3);
        reveal_with_fuel(spec_count_draws, 3);
    }
}

/// Where the pass stands in its per-frame cycle.
#[derive(Clone, Copy, PartialEq, Eq, Structural, Debug)]
pub enum PassState {
    /// Constructed; no framebuffers yet.
    Uninitialized,
    /// Framebuffers exist; ready to record a frame.
    Configured,
    /// Recording the geometry subpass.
    RecordingGbuffer,
    /// Recording the lighting subpass.
    RecordingLighting,
    /// The frame's commands were handed off; awaiting frame completion.
    Submitted,
}

/// The deferred pass: framebuffer sets (one per swapchain image), the
/// recording state machine, and the commands of the frame being recorded.
pub struct DeferredPipeline {
    state: PassState,
    framebuffers: Vec<FramebufferSet>,
    extent: Extent2d,
    image_base: u64,
    next_image_id: u64,
    current_image: u32,
    commands: Vec<RenderCommand>,
}

impl DeferredPipeline {
    pub closed spec fn spec_state(self) -> PassState {
        self.state
    }

    pub closed spec fn spec_framebuffers(self) -> Seq<FramebufferSet> {
        self.framebuffers@
    }

    pub closed spec fn spec_extent(self) -> Extent2d {
        self.extent
    }

    /// The id the current framebuffer generation starts at.
    pub closed spec fn spec_image_base(self) -> u64 {
        self.image_base
    }

    /// The next attachment id a rebuild would allocate; ids below it are
    /// spent and never reused.
    pub closed spec fn spec_next_image_id(self) -> u64 {
        self.next_image_id
    }

    /// The image slot of the frame being recorded.
    pub closed spec fn spec_current_image(self) -> u32 {
        self.current_image
    }

    pub closed spec fn spec_commands(self) -> Seq<RenderCommand> {
        self.commands@
    }

    /// The invariant of the pass: each slot's set holds this generation's
    /// four consecutive ids, the allocation mark sits right after them, a
    /// recorded frame's slot is in range, and outside recording no commands
    /// linger.
    pub open spec fn wf(self) -> bool {
        &&& self.spec_image_base() + 4 * self.spec_framebuffers().len() == self.spec_next_image_id()
        &&& forall|f: int|
            0 <= f < self.spec_framebuffers().len() ==> #[trigger] self.spec_framebuffers()[f]
                == spec_set_for(self.spec_image_base() as int, f, self.spec_extent())
        &&& (self.spec_state() is RecordingGbuffer || self.spec_state() is RecordingLighting)
            ==> self.spec_current_image() < self.spec_framebuffers().len()
        &&& !(self.spec_state() is RecordingGbuffer || self.spec_state() is RecordingLighting)
            ==> self.spec_commands().len() == 0
        &&& self.spec_state() is Uninitialized ==> self.spec_framebuffers().len() == 0
    }

    pub fn new() -> (r: DeferredPipeline)
        ensures
            r.wf(),
            r.spec_state() is Uninitialized,
            r.spec_framebuffers().len() == 0,
            r.spec_next_image_id() == 1,
    {
        DeferredPipeline {
            state: PassState::Uninitialized,
            framebuffers: Vec::new(),
            extent: Extent2d { width: 0, height: 0 },
            image_base: 1,
            next_image_id: 1,
            current_image: 0,
            commands: Vec::new(),
        }
    }

    /// Builds one framebuffer set per swapchain image, each of four freshly
    /// allocated attachments at the swapchain's extent.
    fn build_framebuffers(&mut self, swapchain: &SwapchainInfo)
        requires
            old(self).spec_next_image_id() + 4 * (swapchain.image_count as int) <= u64::MAX,
        ensures
            final(self).spec_framebuffers().len() == swapchain.image_count,
            final(self).spec_image_base() == old(self).spec_next_image_id(),
            final(self).spec_next_image_id() == old(self).spec_next_image_id() + 4
                * swapchain.image_count,
            final(self).spec_extent() == swapchain.extent,
            forall|f: int|
                0 <= f < swapchain.image_count ==> #[trigger] final(self).spec_framebuffers()[f]
                    == spec_set_for(old(self).spec_next_image_id() as int, f, swapchain.extent),
            final(self).spec_state() == old(self).spec_state(),
            final(self).spec_commands() == old(self).spec_commands(),
            final(self).spec_current_image() == old(self).spec_current_image(),
    {
        let base = self.next_image_id;
        let count = swapchain.image_count;
        let mut sets: Vec<FramebufferSet> = Vec::new();
        let mut f: u32 = 0;
        while f < count
            invariant
                base + 4 * (count as int) <= u64::MAX,
                f <= count,
                sets@.len() == f,
                forall|x: int|
                    0 <= x < f ==> #[trigger] sets@[x] == spec_set_for(
                        base as int,
                        x,
                        swapchain.extent,
                    ),
            decreases count - f,
        {
            let first = base + 4 * (f as u64);
            sets.push(
                FramebufferSet {
                    final_color: ImageRef(first),
                    diffuse: ImageRef(first + 1),
                    normal: ImageRef(first + 2),
                    depth: ImageRef(first + 3),
                    extent: swapchain.extent,
                },
            );
            f = f + 1;
        }
        self.framebuffers = sets;
        self.image_base = base;
        self.next_image_id = base + 4 * (count as u64);
        self.extent = swapchain.extent;
    }

    /// First configuration: derives the framebuffer sets for the swapchain
    /// the pass will present through.
    pub fn configure(&mut self, swapchain: &SwapchainInfo)
        requires
            old(self).wf(),
            old(self).spec_state() is Uninitialized,
            old(self).spec_next_image_id() + 4 * (swapchain.image_count as int) <= u64::MAX,
        ensures
            final(self).wf(),
            final(self).spec_state() is Configured,
            final(self).spec_framebuffers().len() == swapchain.image_count,
            final(self).spec_extent() == swapchain.extent,
            final(self).spec_image_base() == old(self).spec_next_image_id(),
            forall|f: int|
                0 <= f < swapchain.image_count ==> #[trigger] final(self).spec_framebuffers()[f]
                    == spec_set_for(old(self).spec_next_image_id() as int, f, swapchain.extent),
    {
        self.build_framebuffers(swapchain);
        self.state = PassState::Configured;
    }

    /// Rebuilds every framebuffer set after the swapchain was recreated
    /// (a resize, or a stale surface). Afterwards the pass holds exactly
    /// one set per new swapchain image; every attachment id of the new sets
    /// lies at or above the old allocation mark while every old set's ids
    /// lay below it, so no old attachment survives into — or leaks past —
    /// the replacement.
    pub fn rebuild_framebuffers(&mut self, swapchain: &SwapchainInfo)
        requires
            old(self).wf(),
            old(self).spec_state() is Configured,
            old(self).spec_next_image_id() + 4 * (swapchain.image_count as int) <= u64::MAX,
        ensures
            final(self).wf(),
            final(self).spec_state() is Configured,
            final(self).spec_framebuffers().len() == swapchain.image_count,
            final(self).spec_extent() == swapchain.extent,
            final(self).spec_image_base() == old(self).spec_next_image_id(),
            forall|f: int|
                0 <= f < swapchain.image_count ==> #[trigger] final(self).spec_framebuffers()[f]
                    == spec_set_for(old(self).spec_next_image_id() as int, f, swapchain.extent),
            // Every old set's ids sit below the new generation's base…
            forall|f: int|
                0 <= f < old(self).spec_framebuffers().len() ==> spec_set_max_id(
                    #[trigger] old(self).spec_framebuffers()[f],
                ) < final(self).spec_image_base(),
            // …and every new set's ids at or above it: the generations are
            // disjoint, the old one fully released with the replacement.
            forall|f: int|
                0 <= f < final(self).spec_framebuffers().len() ==> spec_set_min_id(
                    #[trigger] final(self).spec_framebuffers()[f],
                ) >= final(self).spec_image_base(),
    {
        proof {
            assert forall|f: int|
                0 <= f < old(self).spec_framebuffers().len() implies spec_set_max_id(
                #[trigger] old(self).spec_framebuffers()[f],
            ) < old(self).spec_next_image_id() by {
                assert(old(self).spec_framebuffers()[f] == spec_set_for(
                    old(self).spec_image_base() as int,
                    f,
                    old(self).spec_extent(),
                ));
            }
        }
        self.build_framebuffers(swapchain);
        proof {
            assert forall|f: int|
                0 <= f < self.spec_framebuffers().len() implies spec_set_min_id(
                #[trigger] self.spec_framebuffers()[f],
            ) >= self.spec_image_base() by {
                assert(self.spec_framebuffers()[f] == spec_set_for(
                    self.spec_image_base() as int,
                    f,
                    self.spec_extent(),
                ));
            }
        }
    }

    /// The framebuffer set of one image slot.
    pub fn framebuffer(&self, index: u32) -> (r: FramebufferSet)
        requires
            index < self.spec_framebuffers().len(),
        ensures
            r == self.spec_framebuffers()[index as int],
    {
        self.framebuffers[index as usize]
    }

    pub fn framebuffer_count(&self) -> (r: usize)
        ensures
            r == self.spec_framebuffers().len(),
    {
        self.framebuffers.len()
    }

    /// Begins the geometry subpass for one frame: opens the pass on the
    /// frame's framebuffer set and records the material groups — one
    /// pipeline bind per group, one descriptor bind, transform push, buffer
    /// binds and indexed draw per instance.
    ///
    /// Succeeds exactly when every group's material resolves in the
    /// registry; a missing material is a resource-lifecycle bug, so nothing
    /// is recorded and the first offender is named in the error.
    pub fn begin_gbuffer(
        &mut self,
        image_index: u32,
        groups: &Vec<MaterialGroup>,
        cache: &mut PipelineCache,
        materials: &MaterialManager,
    ) -> (r: Result<(), NimbusError>)
        requires
            old(self).wf(),
            old(self).spec_state() is Configured,
            image_index < old(self).spec_framebuffers().len(),
            old(cache).wf(),
            materials.wf(),
            old(cache).spec_next_handle() <= u64::MAX - groups@.len(),
        ensures
            final(self).wf(),
            final(cache).wf(),
            final(self).spec_framebuffers() == old(self).spec_framebuffers(),
            final(self).spec_extent() == old(self).spec_extent(),
            final(self).spec_image_base() == old(self).spec_image_base(),
            final(self).spec_next_image_id() == old(self).spec_next_image_id(),
            final(cache).spec_next_handle() <= old(cache).spec_next_handle() + groups@.len(),
            r is Ok <==> spec_first_missing(groups@, *materials, 0) is None,
            match r {
                Ok(_) => {
                    &&& final(self).spec_state() is RecordingGbuffer
                    &&& final(self).spec_current_image() == image_index
                    &&& final(self).spec_commands() == seq![
                        RenderCommand::BeginRenderPass { framebuffer: image_index },
                    ] + spec_gbuffer_commands(groups@, *materials)
                },
                Err(e) => {
                    &&& spec_first_missing(groups@, *materials, 0) matches Some(id) && e
                        == NimbusError::MissingMaterial(id)
                    &&& *final(self) == *old(self)
                    &&& *final(cache) == *old(cache)
                },
            },
    {
        // Validate every group's material before recording anything: a
        // failed record must leave no partial command stream behind.
        let group_count = groups.len();
        let mut g: usize = 0;
        while g < group_count
            invariant
                *self == *old(self),
                *cache == *old(cache),
                old(self).wf(),
                old(cache).wf(),
                materials.wf(),
                group_count == groups@.len(),
                g <= group_count,
                forall|x: int|
                    0 <= x < g ==> materials.spec_get((#[trigger] groups@[x]).material) is Some,
                spec_first_missing(groups@, *materials, 0) == spec_first_missing(
                    groups@,
                    *materials,
                    g as int,
                ),
            decreases group_count - g,
        {
            let grp = &groups[g];
            if materials.get(grp.material).is_none() {
                return Err(NimbusError::MissingMaterial(grp.material));
            }
            g = g + 1;
        }

        self.commands.push(RenderCommand::BeginRenderPass { framebuffer: image_index });
        let ghost begin_cmd = seq![RenderCommand::BeginRenderPass { framebuffer: image_index }];
        let mut g: usize = 0;
        while g < group_count
            invariant
                materials.wf(),
                cache.wf(),
                group_count == groups@.len(),
                g <= group_count,
                forall|x: int|
                    0 <= x < group_count ==> materials.spec_get(
                        (#[trigger] groups@[x]).material,
                    ) is Some,
                old(cache).spec_next_handle() <= u64::MAX - group_count,
                cache.spec_next_handle() <= old(cache).spec_next_handle() + g,
                self.spec_commands() == begin_cmd + spec_gbuffer_commands(
                    groups@.take(g as int),
                    *materials,
                ),
                self.spec_state() == old(self).spec_state(),
                self.spec_framebuffers() == old(self).spec_framebuffers(),
                self.spec_extent() == old(self).spec_extent(),
                self.spec_image_base() == old(self).spec_image_base(),
                self.spec_next_image_id() == old(self).spec_next_image_id(),
                self.spec_current_image() == old(self).spec_current_image(),
            decreases group_count - g,
        {
            let grp = &groups[g];
            let m = match materials.get(grp.material) {
                Some(m) => m,
                None => {
                    proof {
                        assert(false);
                    }
                    return Err(NimbusError::MissingMaterial(grp.material));
                },
            };
            let pipeline = cache.get_or_create(
                ProgramId::GBuffer,
                crate::pipeline::shape_of(&m.textures),
            );
            self.commands.push(
                RenderCommand::BindPipeline { program: ProgramId::GBuffer, shape: pipeline.shape },
            );
            let ghost group_head = begin_cmd + spec_gbuffer_commands(
                groups@.take(g as int),
                *materials,
            ) + seq![
                RenderCommand::BindPipeline {
                    program: ProgramId::GBuffer,
                    shape: spec_shape_of(m.textures),
                },
            ];
            proof {
                assert(self.spec_commands() =~= group_head + spec_instances_commands(
                    grp.instances@.take(0),
                    *m,
                ));
            }
            let inst_count = grp.instances.len();
            let mut t: usize = 0;
            while t < inst_count
                invariant
                    inst_count == grp.instances@.len(),
                    t <= inst_count,
                    self.spec_commands() == group_head + spec_instances_commands(
                        grp.instances@.take(t as int),
                        *m,
                    ),
                    self.spec_state() == old(self).spec_state(),
                    self.spec_framebuffers() == old(self).spec_framebuffers(),
                    self.spec_extent() == old(self).spec_extent(),
                    self.spec_image_base() == old(self).spec_image_base(),
                    self.spec_next_image_id() == old(self).spec_next_image_id(),
                    self.spec_current_image() == old(self).spec_current_image(),
                decreases inst_count - t,
            {
                let inst = grp.instances[t];
                self.commands.push(
                    RenderCommand::BindMaterial {
                        material: m.id,
                        textures: m.textures,
                        sampler: m.sampler,
                    },
                );
                self.commands.push(RenderCommand::PushWorldTransform { node: inst.node });
                self.commands.push(RenderCommand::BindVertexBuffer { buffer: inst.vertex_buffer });
                self.commands.push(RenderCommand::BindIndexBuffer { buffer: inst.index_buffer });
                self.commands.push(
                    RenderCommand::DrawIndexed {
                        index_count: inst.index_count,
                        first_index: inst.index_offset,
                    },
                );
                proof {
                    let insts = grp.instances@;
                    assert(insts.take(t + 1).drop_last() =~= insts.take(t as int));
                    assert(insts.take(t + 1).last() == insts[t as int]);
                    assert(self.spec_commands() =~= group_head + spec_instances_commands(
                        insts.take(t + 1),
                        *m,
                    ));
                }
                t = t + 1;
            }
            proof {
                let gs = groups@;
                assert(grp.instances@.take(inst_count as int) =~= grp.instances@);
                assert(gs.take(g + 1).drop_last() =~= gs.take(g as int));
                assert(gs.take(g + 1).last() == gs[g as int]);
                assert(materials.spec_get(gs[g as int].material) == Some(*m));
                assert(self.spec_commands() =~= begin_cmd + spec_gbuffer_commands(
                    gs.take(g + 1),
                    *materials,
                ));
            }
            g = g + 1;
        }
        proof {
            assert(groups@.take(group_count as int) =~= groups@);
        }
        self.state = PassState::RecordingGbuffer;
        self.current_image = image_index;
        Ok(())
    }

    /// Advances to the lighting subpass without ending the pass: binds the
    /// lighting pipeline and the frame's G-buffer targets as inputs, and
    /// resolves with a single full-screen draw — no per-object iteration.
    pub fn begin_lighting(&mut self, cache: &mut PipelineCache)
        requires
            old(self).wf(),
            old(self).spec_state() is RecordingGbuffer,
            old(cache).wf(),
            old(cache).spec_next_handle() < u64::MAX,
        ensures
            final(self).wf(),
            final(cache).wf(),
            final(self).spec_state() is RecordingLighting,
            final(self).spec_commands() == old(self).spec_commands() + spec_lighting_commands(
                old(self).spec_framebuffers()[old(self).spec_current_image() as int],
            ),
            final(self).spec_framebuffers() == old(self).spec_framebuffers(),
            final(self).spec_extent() == old(self).spec_extent(),
            final(self).spec_image_base() == old(self).spec_image_base(),
            final(self).spec_next_image_id() == old(self).spec_next_image_id(),
            final(self).spec_current_image() == old(self).spec_current_image(),
    {
        let pipeline = cache.get_or_create(ProgramId::Lighting, MaterialShape::none());
        let set = self.framebuffers[self.current_image as usize];
        self.commands.push(RenderCommand::NextSubpass);
        self.commands.push(
            RenderCommand::BindPipeline { program: ProgramId::Lighting, shape: pipeline.shape },
        );
        self.commands.push(
            RenderCommand::BindInputAttachments {
                diffuse: set.diffuse,
                normal: set.normal,
                depth: set.depth,
            },
        );
        self.commands.push(RenderCommand::FullscreenDraw { vertex_count: 3 });
        self.state = PassState::RecordingLighting;
        proof {
            assert(self.spec_commands() =~= old(self).spec_commands() + spec_lighting_commands(
                old(self).spec_framebuffers()[old(self).spec_current_image() as int],
            ));
        }
    }

    /// Ends the pass and hands the frame's finished command stream over;
    /// the pass is then `Submitted` until the frame completes.
    pub fn finish(&mut self) -> (commands: Vec<RenderCommand>)
        requires
            old(self).wf(),
            old(self).spec_state() is RecordingLighting,
        ensures
            final(self).wf(),
            final(self).spec_state() is Submitted,
            commands@ == old(self).spec_commands().push(RenderCommand::EndRenderPass),
            final(self).spec_commands().len() == 0,
            final(self).spec_framebuffers() == old(self).spec_framebuffers(),
            final(self).spec_extent() == old(self).spec_extent(),
            final(self).spec_image_base() == old(self).spec_image_base(),
            final(self).spec_next_image_id() == old(self).spec_next_image_id(),
    {
        self.commands.push(RenderCommand::EndRenderPass);
        let mut commands: Vec<RenderCommand> = Vec::new();
        core::mem::swap(&mut commands, &mut self.commands);
        self.state = PassState::Submitted;
        commands
    }

    /// The frame whose commands were handed off is done (submitted,
    /// presented or dropped): ready to record the next one.
    pub fn frame_complete(&mut self)
        requires
            old(self).wf(),
            old(self).spec_state() is Submitted,
        ensures
            final(self).wf(),
            final(self).spec_state() is Configured,
            final(self).spec_framebuffers() == old(self).spec_framebuffers(),
            final(self).spec_extent() == old(self).spec_extent(),
            final(self).spec_image_base() == old(self).spec_image_base(),
            final(self).spec_next_image_id() == old(self).spec_next_image_id(),
    {
        self.state = PassState::Configured;
    }

    /// Aborts a partly recorded frame: the commands built so far are
    /// dropped, never handed off — a failed frame skips presentation rather
    /// than presenting undefined content.
    pub fn abort_recording(&mut self)
        requires
            old(self).wf(),
            old(self).spec_state() is RecordingGbuffer || old(self).spec_state()
                is RecordingLighting,
        ensures
            final(self).wf(),
            final(self).spec_state() is Configured,
            final(self).spec_commands().len() == 0,
            final(self).spec_framebuffers() == old(self).spec_framebuffers(),
            final(self).spec_extent() == old(self).spec_extent(),
            final(self).spec_image_base() == old(self).spec_image_base(),
            final(self).spec_next_image_id() == old(self).spec_next_image_id(),
    {
        self.commands.clear();
        self.state = PassState::Configured;
    }

    /// Records one whole frame: geometry subpass over the material groups,
    /// then the lighting resolve, then the end of the pass. On success the
    /// pass is `Submitted` and the returned stream is the frame's complete
    /// command buffer; on a missing material nothing changes and no stream
    /// exists.
    pub fn record_commands(
        &mut self,
        image_index: u32,
        groups: &Vec<MaterialGroup>,
        cache: &mut PipelineCache,
        materials: &MaterialManager,
    ) -> (r: Result<Vec<RenderCommand>, NimbusError>)
        requires
            old(self).wf(),
            old(self).spec_state() is Configured,
            image_index < old(self).spec_framebuffers().len(),
            old(cache).wf(),
            materials.wf(),
            old(cache).spec_next_handle() < u64::MAX - groups@.len(),
        ensures
            final(self).wf(),
            final(cache).wf(),
            final(self).spec_framebuffers() == old(self).spec_framebuffers(),
            final(self).spec_extent() == old(self).spec_extent(),
            final(self).spec_image_base() == old(self).spec_image_base(),
            final(self).spec_next_image_id() == old(self).spec_next_image_id(),
            r is Ok <==> spec_first_missing(groups@, *materials, 0) is None,
            match r {
                Ok(commands) => {
                    &&& final(self).spec_state() is Submitted
                    &&& commands@ == seq![
                        RenderCommand::BeginRenderPass { framebuffer: image_index },
                    ] + spec_gbuffer_commands(groups@, *materials) + spec_lighting_commands(
                        old(self).spec_framebuffers()[image_index as int],
                    ) + seq![RenderCommand::EndRenderPass]
                },
                Err(e) => {
                    &&& spec_first_missing(groups@, *materials, 0) matches Some(id) && e
                        == NimbusError::MissingMaterial(id)
                    &&& *final(self) == *old(self)
                    &&& *final(cache) == *old(cache)
                },
            },
    {
        match self.begin_gbuffer(image_index, groups, cache, materials) {
            Ok(_) => {},
            Err(e) => {
                return Err(e);
            },
        }
        self.begin_lighting(cache);
        let commands = self.finish();
        proof {
            assert(commands@ =~= seq![
                RenderCommand::BeginRenderPass { framebuffer: image_index },
            ] + spec_gbuffer_commands(groups@, *materials) + spec_lighting_commands(
                old(self).spec_framebuffers()[image_index as int],
            ) + seq![RenderCommand::EndRenderPass]);
        }
        Ok(commands)
    }
}

/// The degenerate pass: begin on the frame's framebuffer, clear, end. What
/// an empty scene renders, and the smallest implementation of the pass
/// interface.
pub struct ClearPipeline {
    image_count: u32,
}

impl ClearPipeline {
    pub closed spec fn spec_image_count(self) -> u32 {
        self.image_count
    }

    pub fn new(swapchain: &SwapchainInfo) -> (r: ClearPipeline)
        ensures
            r.spec_image_count() == swapchain.image_count,
    {
        ClearPipeline { image_count: swapchain.image_count }
    }

    /// A clear-only frame: open the pass (clearing every attachment) and
    /// close it again.
    pub fn record_commands(&self, image_index: u32) -> (r: Vec<RenderCommand>)
        requires
            image_index < self.spec_image_count(),
        ensures
            r@ == seq![
                RenderCommand::BeginRenderPass { framebuffer: image_index },
                RenderCommand::EndRenderPass,
            ],
    {
        let mut r: Vec<RenderCommand> = Vec::new();
        r.push(RenderCommand::BeginRenderPass { framebuffer: image_index });
        r.push(RenderCommand::EndRenderPass);
        proof {
            assert(r@ =~= seq![
                RenderCommand::BeginRenderPass { framebuffer: image_index },
                RenderCommand::EndRenderPass,
            ]);
        }
        r
    }
}

} // verus!
