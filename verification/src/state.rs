//! Shared control state of the pipeline.
//!
//! Three flags are shared between the render loop and the mode-toggle control
//! path: which mode the app is in, whether rendering is paused, and whether a
//! surface swap is in flight. The invariant that a swap in flight implies a
//! paused render loop is what keeps a draw from being submitted against a
//! surface mid-replacement; the in-flight flag also debounces overlapping
//! toggle requests.

use vstd::prelude::*;

verus! {

/// The mode and pause flags shared by the render loop and the control path.
#[derive(Clone, Copy, PartialEq, Eq, Structural, Debug)]
pub struct AppState {
    /// True in background mode (camera composited under the whole host
    /// window), false in thumbnail mode (floating overlay window).
    pub is_background_mode: bool,
    /// True while the render loop must skip frames.
    pub render_paused: bool,
    /// True from the start of a surface swap until it completes.
    pub switch_in_progress: bool,
}

impl AppState {
    /// Rendering stays paused for the whole time a swap is in flight.
    pub open spec fn wf(self) -> bool {
        self.switch_in_progress ==> self.render_paused
    }
}

impl Default for AppState {
    /// The startup state: thumbnail mode, rendering live, no swap pending.
    fn default() -> (r: AppState)
        ensures
            r == (AppState {
                is_background_mode: false,
                render_paused: false,
                switch_in_progress: false,
            }),
    {
        AppState { is_background_mode: false, render_paused: false, switch_in_progress: false }
    }
}

/// What starting a swap does to the state: a request that arrives while a
/// swap is already in flight changes nothing and reports no new mode;
/// otherwise the mode flips, rendering pauses, and the swap is marked in
/// flight.
pub open spec fn spec_try_begin_swap(s: AppState) -> (AppState, Option<bool>) {
    if s.switch_in_progress {
        (s, None)
    } else {
        (
            AppState {
                is_background_mode: !s.is_background_mode,
                render_paused: true,
                switch_in_progress: true,
            },
            Some(!s.is_background_mode),
        )
    }
}

/// What completing a swap does to the state: rendering resumes and the
/// in-flight mark clears; the mode keeps the value the matching begin gave
/// it.
pub open spec fn spec_finish_swap(s: AppState) -> AppState {
    AppState { render_paused: false, switch_in_progress: false, ..s }
}

impl AppState {
    /// The mode currently reported to the UI: true in background mode.
    pub fn get_camera_mode(&self) -> (b: bool)
        ensures
            b == self.is_background_mode,
    {
        self.is_background_mode
    }

    /// True while the render loop must skip frames.
    pub fn is_paused(&self) -> (b: bool)
        ensures
            b == self.render_paused,
    {
        self.render_paused
    }

    /// Start a mode toggle: pause rendering, flip the mode and mark the swap
    /// in flight, reporting the mode being switched to — unless a swap is
    /// already in flight, in which case nothing changes and `None` says the
    /// request was absorbed.
    pub fn try_begin_swap(&mut self) -> (r: Option<bool>)
        requires
            old(self).wf(),
        ensures
            (*final(self), r) == spec_try_begin_swap(*old(self)),
            final(self).wf(),
    {
        if self.switch_in_progress {
            None
        } else {
            let target_mode: bool = !self.is_background_mode;
            self.is_background_mode = target_mode;
            self.render_paused = true;
            self.switch_in_progress = true;
            Some(target_mode)
        }
    }

    /// Complete the swap started by the matching [`AppState::try_begin_swap`]:
    /// resume rendering and accept further toggles.
    pub fn finish_swap(&mut self)
        requires
            old(self).wf(),
            old(self).switch_in_progress,
        ensures
            *final(self) == spec_finish_swap(*old(self)),
            final(self).wf(),
    {
        self.render_paused = false;
        self.switch_in_progress = false;
    }
}

/// Law: toggles debounce. If a second toggle request arrives after one has
/// begun and before it completes, the second is absorbed without touching the
/// state, and once the first completes the mode has flipped exactly once,
/// with rendering resumed and no swap left in flight.
pub proof fn lemma_toggle_debounce(s0: AppState)
    requires
        s0.wf(),
        !s0.switch_in_progress,
    ensures
        spec_try_begin_swap(spec_try_begin_swap(s0).0).0 == spec_try_begin_swap(s0).0,
        spec_try_begin_swap(spec_try_begin_swap(s0).0).1 is None,
        spec_finish_swap(spec_try_begin_swap(spec_try_begin_swap(s0).0).0) == (AppState {
            is_background_mode: !s0.is_background_mode,
            render_paused: false,
            switch_in_progress: false,
        }),
{
}

} // verus!
