//! The renderer: one frame at a time, from acquire outcome to submission.
//!
//! Owns the deferred pass, the pipeline cache and the frame manager, and
//! drives the per-frame cycle the embedder cannot verify on its own: open
//! the frame on the acquired image, record the batched groups, close the
//! frame into a submission — or drop the frame whole when recording fails,
//! so nothing half-built is ever presented. The embedder acquires, executes
//! submissions, presents, and blocks on completion; it reports resizes and
//! stale surfaces here, where rebuilding the framebuffer sets and the
//! one-retry policy are enforced.

use crate::batch::MaterialGroup;
use crate::errors::NimbusError;
use crate::frame::{spec_begin_result, AcquireOutcome, FrameManager, Submission};
use crate::material::MaterialManager;
use crate::pass::{
    spec_first_missing, spec_gbuffer_commands, spec_lighting_commands, spec_set_for,
    DeferredPipeline, RenderCommand, SwapchainInfo,
};
use crate::pipeline::PipelineCache;
use vstd::prelude::*;

verus! {

/// The engine's rendering state: pass, pipeline cache, frame manager.
pub struct Renderer {
    pass: DeferredPipeline,
    cache: PipelineCache,
    frames: FrameManager,
}

impl Renderer {
    pub closed spec fn spec_pass(self) -> DeferredPipeline {
        self.pass
    }

    pub closed spec fn spec_cache(self) -> PipelineCache {
        self.cache
    }

    pub closed spec fn spec_frames(self) -> FrameManager {
        self.frames
    }

    /// Between frames: the pass is configured and idle, the cache is
    /// consistent, no frame context is live, and the frame manager paces
    /// exactly the images the pass has framebuffer sets for.
    pub open spec fn wf(self) -> bool {
        &&& self.spec_pass().wf()
        &&& self.spec_cache().wf()
        &&& self.spec_pass().spec_state() is Configured
        &&& !self.spec_frames().spec_frame_live()
        &&& self.spec_frames().spec_image_count() == self.spec_pass().spec_framebuffers().len()
    }

    /// Builds the renderer for a swapchain: derives one framebuffer set per
    /// swapchain image and starts with an empty pipeline cache.
    pub fn new(swapchain: &SwapchainInfo) -> (r: Renderer)
        requires
            1 + 4 * (swapchain.image_count as int) <= u64::MAX,
        ensures
            r.wf(),
            r.spec_pass().spec_framebuffers().len() == swapchain.image_count,
            r.spec_pass().spec_extent() == swapchain.extent,
            r.spec_cache().spec_len() == 0,
            !r.spec_frames().spec_needs_rebuild(),
            r.spec_frames().spec_consecutive_stale() == 0,
            r.spec_frames().spec_frames_begun() == 0,
            r.spec_frames().spec_frames_submitted() == 0,
    {
        let mut pass = DeferredPipeline::new();
        pass.configure(swapchain);
        let count = pass.framebuffer_count();
        Renderer { pass, cache: PipelineCache::new(), frames: FrameManager::new(count as u32) }
    }

    /// The swapchain was recreated (a resize, or after a stale surface):
    /// rebuild every framebuffer set. Afterwards the pass holds exactly one
    /// set per new swapchain image, every one freshly allocated — ids never
    /// reused — so no attachment of the old sets survives the replacement.
    pub fn resize(&mut self, swapchain: &SwapchainInfo)
        requires
            old(self).wf(),
            old(self).spec_pass().spec_next_image_id() + 4 * (swapchain.image_count as int)
                <= u64::MAX,
        ensures
            final(self).wf(),
            final(self).spec_pass().spec_framebuffers().len() == swapchain.image_count,
            final(self).spec_pass().spec_extent() == swapchain.extent,
            !final(self).spec_frames().spec_needs_rebuild(),
            final(self).spec_frames().spec_consecutive_stale() == old(self).spec_frames().spec_consecutive_stale(),
            final(self).spec_frames().spec_frames_begun() == old(self).spec_frames().spec_frames_begun(),
            forall|f: int|
                0 <= f < swapchain.image_count ==> #[trigger] final(self).spec_pass().spec_framebuffers()[f] == spec_set_for(
                    old(self).spec_pass().spec_next_image_id() as int,
                    f,
                    swapchain.extent,
                ),
            forall|f: int|
                0 <= f < old(self).spec_pass().spec_framebuffers().len()
                    ==> crate::pass::spec_set_max_id(
                    #[trigger] old(self).spec_pass().spec_framebuffers()[f],
                ) < final(self).spec_pass().spec_image_base(),
            forall|f: int|
                0 <= f < final(self).spec_pass().spec_framebuffers().len()
                    ==> crate::pass::spec_set_min_id(
                    #[trigger] final(self).spec_pass().spec_framebuffers()[f],
                ) >= final(self).spec_pass().spec_image_base(),
    {
        self.pass.rebuild_framebuffers(swapchain);
        let count = self.pass.framebuffer_count();
        self.frames.swapchain_recreated(count as u32);
    }

    /// Renders one frame: opens it on the acquired image, records the
    /// batched groups through the deferred pass, and closes it into a
    /// submission for the embedder to execute, wait out, and present.
    ///
    /// Succeeds exactly when an image was acquired and every group's
    /// material resolves. A stale surface propagates `SurfaceStale` (first
    /// time — rebuild and retry once) or the fatal `SurfaceLost` (streak). A
    /// missing material aborts the frame: the half-recorded commands are
    /// dropped, nothing is submitted or presented, and later frames may
    /// proceed.
    pub fn render(
        &mut self,
        acquired: AcquireOutcome,
        groups: &Vec<MaterialGroup>,
        materials: &MaterialManager,
    ) -> (r: Result<Submission, NimbusError>)
        requires
            old(self).wf(),
            !old(self).spec_frames().spec_needs_rebuild(),
            materials.wf(),
            old(self).spec_frames().spec_frames_begun() < u64::MAX,
            old(self).spec_frames().spec_frames_submitted() < u64::MAX,
            old(self).spec_cache().spec_next_handle() < u64::MAX - groups@.len(),
            acquired matches AcquireOutcome::Ready { image_index, .. } ==> image_index < old(self).spec_frames().spec_image_count(),
        ensures
            final(self).wf(),
            r is Ok <==> acquired is Ready && spec_first_missing(groups@, *materials, 0) is None,
            final(self).spec_pass().spec_framebuffers() == old(self).spec_pass().spec_framebuffers(),
            match r {
                Ok(sub) => {
                    &&& acquired matches AcquireOutcome::Ready { image_index, token } && {
                        &&& sub.image_index == image_index
                        &&& sub.wait == token
                        &&& sub.commands@ == seq![
                            RenderCommand::BeginRenderPass { framebuffer: image_index },
                        ] + spec_gbuffer_commands(groups@, *materials) + spec_lighting_commands(
                            old(self).spec_pass().spec_framebuffers()[image_index as int],
                        ) + seq![RenderCommand::EndRenderPass]
                    }
                    &&& final(self).spec_frames().spec_frames_submitted() == old(self).spec_frames().spec_frames_submitted() + 1
                    &&& final(self).spec_frames().spec_consecutive_stale() == 0
                    &&& !final(self).spec_frames().spec_needs_rebuild()
                },
                Err(e) => {
                    &&& final(self).spec_frames().spec_frames_submitted() == old(self).spec_frames().spec_frames_submitted()
                    &&& match acquired {
                        AcquireOutcome::OutOfDate => {
                            // The acquire itself failed: the frame never began.
                            &&& spec_begin_result(
                                old(self).spec_frames().spec_consecutive_stale(),
                                old(self).spec_frames().spec_frames_begun(),
                                acquired,
                            ) == Err::<crate::frame::FrameContext, NimbusError>(e)
                            &&& (e == NimbusError::SurfaceStale <==> old(self).spec_frames().spec_consecutive_stale() == 0)
                            &&& final(self).spec_frames().spec_needs_rebuild() == (e
                                == NimbusError::SurfaceStale)
                        },
                        AcquireOutcome::Ready { .. } => {
                            // Recording failed: the frame was aborted whole.
                            &&& spec_first_missing(groups@, *materials, 0) matches Some(id) && e
                                == NimbusError::MissingMaterial(id)
                            &&& final(self).spec_pass().spec_commands().len() == 0
                            &&& !final(self).spec_frames().spec_needs_rebuild()
                        },
                    }
                },
            },
    {
        let context = match self.frames.begin_frame(acquired) {
            Ok(context) => context,
            Err(e) => {
                return Err(e);
            },
        };
        match self.pass.record_commands(context.image_index, groups, &mut self.cache, materials) {
            Ok(commands) => {
                let submission = self.frames.end_frame(context, commands);
                self.pass.frame_complete();
                Ok(submission)
            },
            Err(e) => {
                self.frames.abort_frame(context);
                Err(e)
            },
        }
    }

    /// How many frames were submitted so far.
    pub fn frames_submitted(&self) -> (r: u64)
        ensures
            r == self.spec_frames().spec_frames_submitted(),
    {
        self.frames.frames_submitted()
    }

    /// How many framebuffer sets the pass currently holds.
    pub fn framebuffer_count(&self) -> (r: usize)
        ensures
            r == self.spec_pass().spec_framebuffers().len(),
    {
        self.pass.framebuffer_count()
    }

    /// How many distinct pipeline keys were derived so far.
    pub fn pipeline_count(&self) -> (r: usize)
        ensures
            r == self.spec_cache().spec_len(),
    {
        self.cache.len()
    }
}

/// The degenerate frame cannot fail: a scene with nothing in it batches to
/// no groups, no group can name a missing material, the geometry subpass
/// records no draw — and the frame still presents, as the clear-plus-
/// lighting stream `render` returns for empty groups.
pub proof fn lemma_empty_scene_frame(scene: crate::scene::Scene, registry: MaterialManager)
    requires
        scene.wf(),
        scene.spec_roots().len() == 0,
    ensures
        crate::batch::spec_scene_instances(scene).len() == 0,
        spec_first_missing(Seq::<MaterialGroup>::empty(), registry, 0) is None,
        spec_gbuffer_commands(Seq::<MaterialGroup>::empty(), registry) == Seq::<
            RenderCommand,
        >::empty(),
{
}

} // verus!
