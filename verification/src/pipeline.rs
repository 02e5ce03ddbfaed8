//! The render loop's per-frame logic.
//!
//! Each frame drained from the camera channel goes through the same steps:
//! skip it if rendering is paused; re-apply a pending reconfigure; convert
//! the frame; recompute the aspect-preserving quad layout; then upload, draw
//! and present against the active surface. Presentation failures recover by
//! one reconfigure-and-retry, then degrade to skipping the frame. The loop
//! ends when the frame channel closes, which is a graceful shutdown.

use crate::convert;
use crate::frame::RawFrame;
use crate::quad::QuadLayout;
use crate::quad::compute_quad_layout;
use crate::quad::spec_quad_layout;
use crate::state::AppState;
use crate::target::RenderTarget;
use crate::target::SurfaceConfig;
use vstd::prelude::*;

verus! {

/// What the render loop decides to do with a frame that just arrived.
#[derive(Clone, Copy, PartialEq, Eq, Structural, Debug)]
pub enum FramePlan {
    /// Rendering is paused: discard the frame without touching the target.
    SkipPaused,
    /// Render the frame; first re-apply the stored configuration to the
    /// surface when a reconfigure is pending.
    Render {
        /// True when a reconfigure request must be served before drawing.
        reconfigure_first: bool,
    },
}

/// The decision for one frame, as a function of the shared flags and the
/// pending reconfigure request.
pub open spec fn spec_frame_plan(mode: AppState, target: RenderTarget) -> FramePlan {
    if mode.render_paused {
        FramePlan::SkipPaused
    } else {
        FramePlan::Render { reconfigure_first: target.needs_reconfigure }
    }
}

/// Decide what to do with the frame that just arrived.
pub fn plan_frame(mode: &AppState, target: &RenderTarget) -> (p: FramePlan)
    ensures
        p == spec_frame_plan(*mode, *target),
{
    if mode.is_paused() {
        FramePlan::SkipPaused
    } else {
        FramePlan::Render { reconfigure_first: target.needs_reconfigure }
    }
}

/// Law: the render loop never draws while a swap is in flight. Pausing is
/// part of starting a swap, so whatever the target looks like mid-swap, the
/// plan for any frame arriving then is to skip it.
pub proof fn lemma_no_draw_during_swap(mode: AppState, target: RenderTarget)
    requires
        mode.wf(),
        mode.switch_in_progress,
    ensures
        spec_frame_plan(mode, target) == FramePlan::SkipPaused,
{
}

/// Why acquiring the next presentable image failed.
#[derive(Clone, Copy, PartialEq, Eq, Structural, Debug)]
pub enum SurfaceError {
    /// The surface no longer matches its window and must be reconfigured.
    Outdated,
    /// The surface was lost and must be reconfigured.
    Lost,
    /// The request timed out.
    Timeout,
    /// The platform ran out of memory.
    OutOfMemory,
    /// Any other acquisition failure.
    Other,
}

/// How the render loop answers a failed acquisition.
#[derive(Clone, Copy, PartialEq, Eq, Structural, Debug)]
pub enum AcquireRecovery {
    /// Re-apply the stored configuration to the surface and acquire once
    /// more.
    ReconfigureAndRetry,
    /// Give this frame up; the loop continues with the next one.
    SkipFrame,
}

/// Decide how to recover from a failed acquisition: an outdated or lost
/// surface earns exactly one reconfigure-and-retry; every other error, and
/// any failure of the retry itself, skips the frame and is never fatal.
pub fn recover_acquire(err: SurfaceError, already_retried: bool) -> (r: AcquireRecovery)
    ensures
        (r == AcquireRecovery::ReconfigureAndRetry) <==> (!already_retried && (err
            == SurfaceError::Outdated || err == SurfaceError::Lost)),
{
    if already_retried {
        AcquireRecovery::SkipFrame
    } else {
        match err {
            SurfaceError::Outdated => AcquireRecovery::ReconfigureAndRetry,
            SurfaceError::Lost => AcquireRecovery::ReconfigureAndRetry,
            _ => AcquireRecovery::SkipFrame,
        }
    }
}

/// One frame as it reaches presentation: the uploaded pixels, the quad they
/// were drawn with, and the surface and configuration the draw captured.
pub struct PresentedFrame {
    /// The converted pixels uploaded as this frame's texture.
    pub pixels: Vec<u8>,
    /// Width of the uploaded texture in pixels.
    pub width: u32,
    /// Height of the uploaded texture in pixels.
    pub height: u32,
    /// The quad layout the draw used.
    pub layout: QuadLayout,
    /// Epoch of the surface the draw presented to.
    pub surface_epoch: u64,
    /// The configuration presented with that surface.
    pub config: SurfaceConfig,
}

/// Process one frame exactly as the render loop does, with presentation
/// captured as the returned [`PresentedFrame`]: a paused loop discards the
/// frame, otherwise any pending reconfigure is served first and the
/// converted frame is presented with its aspect-preserving layout against
/// the target as it stands.
pub fn render_frame(frame: &RawFrame, mode: &AppState, target: &mut RenderTarget) -> (r: Option<
    PresentedFrame,
>)
    requires
        frame.wf(),
        old(target).consistent(),
    ensures
        final(target).consistent(),
        mode.render_paused ==> r is None && *final(target) == *old(target),
        !mode.render_paused ==> {
            &&& *final(target) == (RenderTarget { needs_reconfigure: false, ..*old(target) })
            &&& r matches Some(p) && {
                &&& p.pixels@ == convert::rgba_of_yuyv(
                    frame.data@,
                    frame.width as int,
                    frame.height as int,
                )
                &&& p.width == frame.width
                &&& p.height == frame.height
                &&& p.layout == spec_quad_layout(
                    frame.width as int,
                    frame.height as int,
                    old(target).config.width as int,
                    old(target).config.height as int,
                )
                &&& p.surface_epoch == old(target).surface_epoch
                &&& p.config == old(target).config
            }
        },
{
    if mode.is_paused() {
        return None;
    }
    if target.needs_reconfigure {
        target.clear_reconfigure();
    }
    let pixels = convert::yuyv_to_rgba_par(
        frame.data.as_slice(),
        frame.width as usize,
        frame.height as usize,
    );
    let layout = compute_quad_layout(
        frame.width,
        frame.height,
        target.config.width,
        target.config.height,
    );
    let (surface_epoch, config) = target.snapshot();
    Some(
        PresentedFrame {
            pixels,
            width: frame.width,
            height: frame.height,
            layout,
            surface_epoch,
            config,
        },
    )
}

/// Drain a whole sequence of frames, as the render loop does until the
/// camera channel closes: every frame is presented in arrival order against
/// the unchanged target, or every frame is discarded when rendering is
/// paused. Returning is the loop's graceful shutdown.
pub fn process_frames(frames: &Vec<RawFrame>, mode: &AppState, target: &mut RenderTarget) -> (out:
    Vec<PresentedFrame>)
    requires
        forall|i: int| 0 <= i < frames@.len() ==> frames@[i].wf(),
        old(target).consistent(),
    ensures
        final(target).consistent(),
        mode.render_paused ==> out@.len() == 0 && *final(target) == *old(target),
        !mode.render_paused ==> {
            &&& out@.len() == frames@.len()
            &&& (frames@.len() == 0 ==> *final(target) == *old(target))
            &&& (frames@.len() > 0 ==> *final(target) == (RenderTarget {
                needs_reconfigure: false,
                ..*old(target)
            }))
            &&& forall|i: int|
                0 <= i < frames@.len() ==> {
                    &&& out@[i].pixels@ == convert::rgba_of_yuyv(
                        frames@[i].data@,
                        frames@[i].width as int,
                        frames@[i].height as int,
                    )
                    &&& out@[i].width == frames@[i].width
                    &&& out@[i].height == frames@[i].height
                    &&& out@[i].layout == spec_quad_layout(
                        frames@[i].width as int,
                        frames@[i].height as int,
                        old(target).config.width as int,
                        old(target).config.height as int,
                    )
                    &&& out@[i].surface_epoch == old(target).surface_epoch
                    &&& out@[i].config == old(target).config
                }
        },
{
    let mut out: Vec<PresentedFrame> = Vec::new();
    if mode.is_paused() {
        return out;
    }
    let mut k: usize = 0;
    while k < frames.len()
        invariant
            k <= frames@.len(),
            !mode.render_paused,
            forall|i: int| 0 <= i < frames@.len() ==> frames@[i].wf(),
            target.consistent(),
            target.surface_epoch == old(target).surface_epoch,
            target.config_epoch == old(target).config_epoch,
            target.config == old(target).config,
            k == 0 ==> *target == *old(target),
            k > 0 ==> *target == (RenderTarget { needs_reconfigure: false, ..*old(target) }),
            out@.len() == k,
            forall|i: int|
                0 <= i < k ==> {
                    &&& out@[i].pixels@ == convert::rgba_of_yuyv(
                        frames@[i].data@,
                        frames@[i].width as int,
                        frames@[i].height as int,
                    )
                    &&& out@[i].width == frames@[i].width
                    &&& out@[i].height == frames@[i].height
                    &&& out@[i].layout == spec_quad_layout(
                        frames@[i].width as int,
                        frames@[i].height as int,
                        old(target).config.width as int,
                        old(target).config.height as int,
                    )
                    &&& out@[i].surface_epoch == old(target).surface_epoch
                    &&& out@[i].config == old(target).config
                },
        decreases frames@.len() - k,
    {
        let f = &frames[k];
        let r = render_frame(f, mode, target);
        match r {
            Some(p) => {
                out.push(p);
            },
            None => {
                // Unreachable: the loop runs only while rendering is live,
                // and an unpaused render_frame always presents.
                proof {
                    assert(false);
                }
            },
        }
        k = k + 1;
    }
    out
}

} // verus!
