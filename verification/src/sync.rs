//! Keeping the overlay window and the surface configuration in step with the
//! host window.
//!
//! When the host's main window moves or resizes, the overlay is laid out
//! again, preserving its current aspect ratio; when the overlay's size
//! actually changes, the stored surface configuration follows it and a
//! reconfigure request is left for the render loop. When the main window
//! closes, the overlay closes with it.

use crate::geometry::AspectRatio;
use crate::geometry::WindowPosition;
use crate::geometry::WindowSize;
use crate::geometry::calculate_overlay_geometry;
use crate::geometry::spec_overlay_geometry;
use crate::target::RenderTarget;
use crate::target::spec_resized;
use vstd::prelude::*;

verus! {

/// A notification from the windowing host about one of its windows.
#[derive(Clone, Copy, PartialEq, Eq, Structural, Debug)]
pub enum HostWindowEvent {
    /// The window moved.
    Moved,
    /// The window was resized.
    Resized,
    /// The window is closing.
    CloseRequested,
    /// Anything else the host reports.
    Other,
}

/// What the overlay must do in response to a host window event.
#[derive(Clone, Copy, PartialEq, Eq, Structural, Debug)]
pub enum SyncAction {
    /// Recompute the overlay's geometry against the main window.
    AdjustOverlay,
    /// Close the overlay window.
    CloseOverlay,
    /// Nothing to do.
    Ignore,
}

/// Decide how the overlay follows a host window event: it tracks moves and
/// resizes of the main window, closes when the main window closes, and
/// ignores everything else, including any event of another window.
pub fn sync_windows(event: HostWindowEvent, is_main_window: bool) -> (a: SyncAction)
    ensures
        a == SyncAction::AdjustOverlay <==> is_main_window && (event == HostWindowEvent::Moved
            || event == HostWindowEvent::Resized),
        a == SyncAction::CloseOverlay <==> is_main_window && event
            == HostWindowEvent::CloseRequested,
{
    if !is_main_window {
        return SyncAction::Ignore;
    }
    match event {
        HostWindowEvent::Moved => SyncAction::AdjustOverlay,
        HostWindowEvent::Resized => SyncAction::AdjustOverlay,
        HostWindowEvent::CloseRequested => SyncAction::CloseOverlay,
        HostWindowEvent::Other => SyncAction::Ignore,
    }
}

/// The aspect ratio an overlay of the given size currently shows, with zero
/// dimensions clamped to 1.
pub open spec fn spec_overlay_aspect(overlay_size: WindowSize) -> AspectRatio {
    AspectRatio {
        num: if overlay_size.width >= 1 { overlay_size.width } else { 1u32 },
        den: if overlay_size.height >= 1 { overlay_size.height } else { 1u32 },
    }
}

/// Lay the overlay out against the main window again, preserving the
/// overlay's current aspect ratio. Returns the overlay's new position and
/// size; when the size actually changed, the stored surface configuration
/// follows it and a reconfigure is left pending, and when it did not, the
/// target is untouched.
pub fn adjust_overlay_geometry(
    main_pos: WindowPosition,
    main_size: WindowSize,
    overlay_size: WindowSize,
    target: &mut RenderTarget,
) -> (r: (WindowPosition, WindowSize))
    requires
        main_pos.in_host_range(),
        old(target).consistent(),
    ensures
        final(target).consistent(),
        r == spec_overlay_geometry(main_pos, main_size, spec_overlay_aspect(overlay_size)),
        r.1 != overlay_size ==> *final(target) == spec_resized(*old(target), r.1),
        r.1 == overlay_size ==> *final(target) == *old(target),
{
    let aspect = AspectRatio::from_size(overlay_size);
    let (new_pos, new_size) = calculate_overlay_geometry(main_pos, main_size, aspect);
    if new_size.width != overlay_size.width || new_size.height != overlay_size.height {
        target.apply_resize(new_size);
    }
    (new_pos, new_size)
}

} // verus!
