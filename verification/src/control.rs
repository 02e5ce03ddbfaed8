//! The mode-toggle control path.
//!
//! A user action toggles between background and thumbnail mode. The toggle
//! pauses rendering, lets the caller rebuild the windows and the surface for
//! the other mode, installs the new surface and configuration as one unit,
//! and resumes rendering. A toggle that arrives while another is in flight
//! is debounced: it changes nothing and reports the unchanged mode.

use crate::pipeline::FramePlan;
use crate::pipeline::spec_frame_plan;
use crate::state::AppState;
use crate::state::spec_finish_swap;
use crate::state::spec_try_begin_swap;
use crate::target::RenderTarget;
use crate::target::SurfaceConfig;
use crate::target::spec_committed;
use vstd::prelude::*;

verus! {

/// Toggle the camera mode, swapping the render target to the surface whose
/// configuration the caller built for the other mode's window. Returns the
/// mode in effect afterwards: the flipped mode on a completed swap, the
/// unchanged mode when the request was debounced.
pub fn toggle_camera_mode(
    mode: &mut AppState,
    target: &mut RenderTarget,
    new_config: SurfaceConfig,
) -> (m: bool)
    requires
        old(mode).wf(),
        old(target).consistent(),
        new_config.wf(),
        old(target).surface_epoch < u64::MAX,
    ensures
        final(mode).wf(),
        final(target).consistent(),
        old(mode).switch_in_progress ==> {
            &&& m == old(mode).is_background_mode
            &&& *final(mode) == *old(mode)
            &&& *final(target) == *old(target)
        },
        !old(mode).switch_in_progress ==> {
            &&& m == !old(mode).is_background_mode
            &&& *final(mode) == spec_finish_swap(spec_try_begin_swap(*old(mode)).0)
            &&& *final(target) == spec_committed(*old(target), new_config)
        },
{
    match mode.try_begin_swap() {
        None => mode.get_camera_mode(),
        Some(new_mode) => {
            target.commit_swap(new_config);
            mode.finish_swap();
            new_mode
        },
    }
}

/// Law: a retarget never exposes a torn render target. From the moment a
/// toggle begins until it finishes, any frame that arrives is planned as a
/// skip, so no draw is captured mid-swap — whether the stored pair is still
/// the old one or already the new one — and the pair a draw can see after
/// resuming is the new surface with the configuration installed by the same
/// swap.
pub proof fn lemma_retarget_never_tears(s0: AppState, t0: RenderTarget, c: SurfaceConfig)
    requires
        s0.wf(),
        !s0.switch_in_progress,
        t0.consistent(),
        c.wf(),
        t0.surface_epoch < u64::MAX,
    ensures
        spec_frame_plan(spec_try_begin_swap(s0).0, t0) == FramePlan::SkipPaused,
        spec_frame_plan(spec_try_begin_swap(s0).0, spec_committed(t0, c)) == FramePlan::SkipPaused,
        spec_committed(t0, c).consistent(),
        spec_committed(t0, c).surface_epoch == spec_committed(t0, c).config_epoch,
        !spec_finish_swap(spec_try_begin_swap(s0).0).render_paused,
{
}

} // verus!
