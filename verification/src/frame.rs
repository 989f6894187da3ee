//! Per-frame acquisition, retry policy, and submission.
//!
//! The presentation engine owns the actual acquire and present calls; the
//! embedder makes them and hands their outcomes in here. This module keeps
//! the verified frame state: at most one frame context is live at a time, a
//! stale surface is answered by exactly one swapchain rebuild and one retry,
//! and a second consecutive stale acquire is fatal rather than a retry loop.
//! Frames are submitted in the order they were begun.

use crate::errors::NimbusError;
use crate::pass::RenderCommand;
use vstd::prelude::*;

verus! {

/// A synchronization token: signals when the acquired image is safe to
/// render into. Opaque to the core; the embedder maps it to its fence or
/// semaphore.
#[derive(Clone, Copy, PartialEq, Eq, Structural, Debug)]
pub struct SyncToken(pub u64);

/// What the presentation engine answered to an acquire call.
#[derive(Clone, Copy, PartialEq, Eq, Structural, Debug)]
pub enum AcquireOutcome {
    /// An image is ready to be rendered into once `token` signals.
    Ready { image_index: u32, token: SyncToken },
    /// The swapchain no longer matches the surface; it must be rebuilt.
    OutOfDate,
}

/// Transient state of the one frame being built: the acquired image, its
/// ready token, and the frame's ordinal. Created by `begin_frame`, consumed
/// by `end_frame`, never reused.
#[derive(Clone, Copy, PartialEq, Eq, Structural, Debug)]
pub struct FrameContext {
    pub image_index: u32,
    pub ready: SyncToken,
    pub frame_number: u64,
}

/// One frame's work, ready for the GPU queue: wait for the token, execute
/// the commands, present the image. The embedder executes it and blocks
/// until the submission completes, so at most one frame is ever in flight.
#[derive(Debug)]
pub struct Submission {
    pub image_index: u32,
    pub wait: SyncToken,
    pub commands: Vec<RenderCommand>,
}

/// Drives acquisition and submission for one swapchain.
pub struct FrameManager {
    image_count: u32,
    frame_live: bool,
    needs_rebuild: bool,
    consecutive_stale: u32,
    frames_begun: u64,
    frames_submitted: u64,
}

/// What `begin_frame` answers, as a function of the acquire outcome, the
/// current stale streak, and the frame counter: a ready image opens the
/// frame; a stale surface is `SurfaceStale` the first time (retry once,
/// after a rebuild) and `SurfaceLost` — fatal — while the streak stands.
pub open spec fn spec_begin_result(
    streak: u32,
    frames_begun: u64,
    acquired: AcquireOutcome,
) -> Result<FrameContext, NimbusError> {
    match acquired {
        AcquireOutcome::Ready { image_index, token } => Ok(
            FrameContext { image_index, ready: token, frame_number: frames_begun },
        ),
        AcquireOutcome::OutOfDate => if streak == 0 {
            Err(NimbusError::SurfaceStale)
        } else {
            Err(NimbusError::SurfaceLost)
        },
    }
}

impl FrameManager {
    /// How many images the swapchain this manager paces currently has.
    pub closed spec fn spec_image_count(self) -> u32 {
        self.image_count
    }

    /// Whether a frame context is live (begun and not yet ended).
    pub closed spec fn spec_frame_live(self) -> bool {
        self.frame_live
    }

    /// Whether a stale acquire is pending a swapchain rebuild.
    pub closed spec fn spec_needs_rebuild(self) -> bool {
        self.needs_rebuild
    }

    /// How many acquires in a row came back stale.
    pub closed spec fn spec_consecutive_stale(self) -> u32 {
        self.consecutive_stale
    }

    pub closed spec fn spec_frames_begun(self) -> u64 {
        self.frames_begun
    }

    pub closed spec fn spec_frames_submitted(self) -> u64 {
        self.frames_submitted
    }

    pub fn new(image_count: u32) -> (r: FrameManager)
        ensures
            r.spec_image_count() == image_count,
            !r.spec_frame_live(),
            !r.spec_needs_rebuild(),
            r.spec_consecutive_stale() == 0,
            r.spec_frames_begun() == 0,
            r.spec_frames_submitted() == 0,
    {
        FrameManager {
            image_count,
            frame_live: false,
            needs_rebuild: false,
            consecutive_stale: 0,
            frames_begun: 0,
            frames_submitted: 0,
        }
    }

    /// How many frames were submitted so far.
    pub fn frames_submitted(&self) -> (r: u64)
        ensures
            r == self.spec_frames_submitted(),
    {
        self.frames_submitted
    }

    /// Opens a frame from the embedder's acquire outcome.
    ///
    /// A ready image yields the frame's context and clears the stale streak.
    /// The first stale acquire yields `SurfaceStale` and records that the
    /// swapchain must be rebuilt before the one permitted retry; a stale
    /// acquire that follows a previous one with no successful frame between
    /// them yields `SurfaceLost`, which is fatal — never a second retry.
    pub fn begin_frame(&mut self, acquired: AcquireOutcome) -> (r: Result<
        FrameContext,
        NimbusError,
    >)
        requires
            !old(self).spec_frame_live(),
            !old(self).spec_needs_rebuild(),
            old(self).spec_frames_begun() < u64::MAX,
            acquired matches AcquireOutcome::Ready { image_index, .. } ==> image_index < old(
                self,
            ).spec_image_count(),
        ensures
            final(self).spec_image_count() == old(self).spec_image_count(),
            final(self).spec_frames_submitted() == old(self).spec_frames_submitted(),
            r == spec_begin_result(
                old(self).spec_consecutive_stale(),
                old(self).spec_frames_begun(),
                acquired,
            ),
            match acquired {
                AcquireOutcome::Ready { image_index, token } => {
                    &&& final(self).spec_frame_live()
                    &&& !final(self).spec_needs_rebuild()
                    &&& final(self).spec_consecutive_stale() == 0
                    &&& final(self).spec_frames_begun() == old(self).spec_frames_begun() + 1
                },
                AcquireOutcome::OutOfDate => {
                    &&& !final(self).spec_frame_live()
                    &&& final(self).spec_frames_begun() == old(self).spec_frames_begun()
                    &&& if old(self).spec_consecutive_stale() == 0 {
                        &&& final(self).spec_needs_rebuild()
                        &&& final(self).spec_consecutive_stale() == 1
                    } else {
                        &&& final(self).spec_consecutive_stale() == old(
                            self,
                        ).spec_consecutive_stale()
                        &&& !final(self).spec_needs_rebuild()
                    }
                },
            },
    {
        match acquired {
            AcquireOutcome::Ready { image_index, token } => {
                let context = FrameContext {
                    image_index,
                    ready: token,
                    frame_number: self.frames_begun,
                };
                self.frame_live = true;
                self.consecutive_stale = 0;
                self.frames_begun = self.frames_begun + 1;
                Ok(context)
            },
            AcquireOutcome::OutOfDate => {
                if self.consecutive_stale == 0 {
                    self.consecutive_stale = 1;
                    self.needs_rebuild = true;
                    Err(NimbusError::SurfaceStale)
                } else {
                    Err(NimbusError::SurfaceLost)
                }
            },
        }
    }

    /// Acknowledges that the embedder rebuilt the swapchain (after a stale
    /// acquire, or a resize). The one retry the stale streak permits is now
    /// allowed; the streak itself is only cleared by a successful acquire.
    pub fn swapchain_recreated(&mut self, image_count: u32)
        requires
            !old(self).spec_frame_live(),
        ensures
            final(self).spec_image_count() == image_count,
            !final(self).spec_frame_live(),
            !final(self).spec_needs_rebuild(),
            final(self).spec_consecutive_stale() == old(self).spec_consecutive_stale(),
            final(self).spec_frames_begun() == old(self).spec_frames_begun(),
            final(self).spec_frames_submitted() == old(self).spec_frames_submitted(),
    {
        self.image_count = image_count;
        self.needs_rebuild = false;
    }

    /// Closes the live frame: pairs the recorded commands with the frame's
    /// image and ready token for the embedder to execute, wait out, and
    /// present. Frames are submitted in begin order.
    pub fn end_frame(&mut self, frame: FrameContext, commands: Vec<RenderCommand>) -> (s:
        Submission)
        requires
            old(self).spec_frame_live(),
            old(self).spec_frames_submitted() < u64::MAX,
        ensures
            !final(self).spec_frame_live(),
            final(self).spec_needs_rebuild() == old(self).spec_needs_rebuild(),
            final(self).spec_image_count() == old(self).spec_image_count(),
            final(self).spec_consecutive_stale() == old(self).spec_consecutive_stale(),
            final(self).spec_frames_begun() == old(self).spec_frames_begun(),
            final(self).spec_frames_submitted() == old(self).spec_frames_submitted() + 1,
            s.image_index == frame.image_index,
            s.wait == frame.ready,
            s.commands@ == commands@,
    {
        self.frame_live = false;
        self.frames_submitted = self.frames_submitted + 1;
        Submission { image_index: frame.image_index, wait: frame.ready, commands }
    }

    /// Abandons the live frame after a failed record: nothing is submitted
    /// and nothing is presented for it.
    pub fn abort_frame(&mut self, frame: FrameContext)
        requires
            old(self).spec_frame_live(),
        ensures
            !final(self).spec_frame_live(),
            final(self).spec_needs_rebuild() == old(self).spec_needs_rebuild(),
            final(self).spec_image_count() == old(self).spec_image_count(),
            final(self).spec_consecutive_stale() == old(self).spec_consecutive_stale(),
            final(self).spec_frames_begun() == old(self).spec_frames_begun(),
            final(self).spec_frames_submitted() == old(self).spec_frames_submitted(),
    {
        let _ = frame;
        self.frame_live = false;
    }
}

/// The stale-surface policy: on a clean manager (no stale streak) an
/// out-of-date acquire fails with `SurfaceStale`, which obliges the caller
/// to rebuild the swapchain once; the streak then stands at one, so on the
/// retried frame a ready acquire opens the frame as if nothing happened,
/// while a second consecutive out-of-date acquire fails with the fatal
/// `SurfaceLost` — there is never a second retry.
pub proof fn lemma_stale_retry_policy(
    frames_begun: u64,
    image_index: u32,
    token: SyncToken,
)
    ensures
        spec_begin_result(0, frames_begun, AcquireOutcome::OutOfDate) == Err::<
            FrameContext,
            NimbusError,
        >(NimbusError::SurfaceStale),
        spec_begin_result(1, frames_begun, AcquireOutcome::OutOfDate) == Err::<
            FrameContext,
            NimbusError,
        >(NimbusError::SurfaceLost),
        spec_begin_result(1, frames_begun, AcquireOutcome::Ready { image_index, token }) == Ok::<
            FrameContext,
            NimbusError,
        >(FrameContext { image_index, ready: token, frame_number: frames_begun }),
{
}

} // verus!
