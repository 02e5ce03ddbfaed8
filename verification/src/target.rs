//! The render target: the active surface and its configuration.
//!
//! The GPU context presents through exactly one surface at a time, configured
//! by width, height, pixel format and presentation mode. A mode switch
//! replaces surface and configuration together; a window resize rewrites the
//! stored dimensions and leaves a pending reconfigure request for the render
//! loop. The surface object itself lives outside the library; here it is
//! identified by an epoch that counts the swaps, so that "the configuration
//! stored next to surface N was written by the same swap that installed
//! surface N" is an invariant every operation preserves.

use crate::geometry::WindowSize;
use vstd::prelude::*;

verus! {

/// The pixel format the surface was configured with, as reported by the GPU
/// collaborator's capability query.
#[derive(Clone, Copy, PartialEq, Eq, Structural, Debug)]
pub enum SurfaceFormat {
    /// 8-bit blue/green/red/alpha, sRGB.
    Bgra8Srgb,
    /// 8-bit red/green/blue/alpha, sRGB.
    Rgba8Srgb,
    /// Any other format the platform prefers.
    Other,
}

/// How presented images are queued to the display.
#[derive(Clone, Copy, PartialEq, Eq, Structural, Debug)]
pub enum PresentMode {
    /// First-in first-out, vsynced; the mode this pipeline always uses.
    Fifo,
    /// Present immediately, tearing allowed.
    Immediate,
    /// Triple-buffered mailbox.
    Mailbox,
}

/// The configuration of a surface: dimensions, format and presentation mode.
#[derive(Clone, Copy, PartialEq, Eq, Structural, Debug)]
pub struct SurfaceConfig {
    /// Surface width in pixels; at least 1.
    pub width: u32,
    /// Surface height in pixels; at least 1.
    pub height: u32,
    /// Pixel format of the presentable images.
    pub format: SurfaceFormat,
    /// Queueing mode of presented images.
    pub present_mode: PresentMode,
}

impl SurfaceConfig {
    /// A surface is never configured with a zero dimension.
    pub open spec fn wf(self) -> bool {
        self.width >= 1 && self.height >= 1
    }
}

/// Build the configuration for a surface bound to a window of the given
/// inner size, clamping zero dimensions to 1; presentation is always
/// first-in first-out.
pub fn make_surface_config(size: WindowSize, format: SurfaceFormat) -> (c: SurfaceConfig)
    ensures
        c.width == if size.width >= 1 { size.width } else { 1u32 },
        c.height == if size.height >= 1 { size.height } else { 1u32 },
        c.format == format,
        c.present_mode == PresentMode::Fifo,
        c.wf(),
{
    SurfaceConfig {
        width: if size.width >= 1 { size.width } else { 1 },
        height: if size.height >= 1 { size.height } else { 1 },
        format,
        present_mode: PresentMode::Fifo,
    }
}

/// The active render target: which surface is installed (by swap epoch), the
/// configuration stored for it, and whether a reconfigure is pending.
#[derive(Clone, Copy, PartialEq, Eq, Structural, Debug)]
pub struct RenderTarget {
    /// Epoch of the swap that installed the current surface.
    pub surface_epoch: u64,
    /// Epoch of the swap that wrote the current configuration.
    pub config_epoch: u64,
    /// The stored configuration.
    pub config: SurfaceConfig,
    /// True when the stored configuration must be re-applied to the surface
    /// before the next present.
    pub needs_reconfigure: bool,
}

/// What a completed swap leaves behind: surface and configuration installed
/// together under the next epoch, with no reconfigure pending (the new
/// surface was configured as it was created).
pub open spec fn spec_committed(t: RenderTarget, c: SurfaceConfig) -> RenderTarget {
    RenderTarget {
        surface_epoch: (t.surface_epoch + 1) as u64,
        config_epoch: (t.surface_epoch + 1) as u64,
        config: c,
        needs_reconfigure: false,
    }
}

/// What a window resize leaves behind: the stored dimensions follow the
/// window (zero clamped to 1), the surface and the rest of its configuration
/// stay, and a reconfigure becomes pending.
pub open spec fn spec_resized(t: RenderTarget, size: WindowSize) -> RenderTarget {
    RenderTarget {
        config: SurfaceConfig {
            width: if size.width >= 1 { size.width } else { 1u32 },
            height: if size.height >= 1 { size.height } else { 1u32 },
            ..t.config
        },
        needs_reconfigure: true,
        ..t
    }
}

impl RenderTarget {
    /// The stored surface and stored configuration were installed by the same
    /// swap, and the configuration is well formed: no reader can see a
    /// surface paired with another swap's configuration.
    pub open spec fn consistent(self) -> bool {
        self.surface_epoch == self.config_epoch && self.config.wf()
    }

    /// The target created at startup, bound to the initial window's surface.
    pub fn new(config: SurfaceConfig) -> (t: RenderTarget)
        requires
            config.wf(),
        ensures
            t == (RenderTarget {
                surface_epoch: 0u64,
                config_epoch: 0u64,
                config,
                needs_reconfigure: false,
            }),
            t.consistent(),
    {
        RenderTarget { surface_epoch: 0, config_epoch: 0, config, needs_reconfigure: false }
    }

    /// Install a new surface and its configuration as one unit: the stored
    /// pair is wholly replaced, never mixed with the old one.
    pub fn commit_swap(&mut self, new_config: SurfaceConfig)
        requires
            old(self).consistent(),
            new_config.wf(),
            old(self).surface_epoch < u64::MAX,
        ensures
            *final(self) == spec_committed(*old(self), new_config),
            final(self).consistent(),
    {
        let next: u64 = self.surface_epoch + 1;
        self.surface_epoch = next;
        self.config_epoch = next;
        self.config = new_config;
        self.needs_reconfigure = false;
    }

    /// Record that the active window was resized: update the stored
    /// dimensions and leave a reconfigure pending for the render loop.
    pub fn apply_resize(&mut self, size: WindowSize)
        requires
            old(self).consistent(),
        ensures
            *final(self) == spec_resized(*old(self), size),
            final(self).consistent(),
    {
        self.config.width = if size.width >= 1 { size.width } else { 1 };
        self.config.height = if size.height >= 1 { size.height } else { 1 };
        self.needs_reconfigure = true;
    }

    /// Clear the pending reconfigure once the render loop has re-applied the
    /// stored configuration to the surface.
    pub fn clear_reconfigure(&mut self)
        requires
            old(self).consistent(),
        ensures
            *final(self) == (RenderTarget { needs_reconfigure: false, ..*old(self) }),
            final(self).consistent(),
    {
        self.needs_reconfigure = false;
    }

    /// The pair a draw captures: the installed surface's epoch and the
    /// configuration presented with it.
    pub fn snapshot(&self) -> (s: (u64, SurfaceConfig))
        ensures
            s.0 == self.surface_epoch,
            s.1 == self.config,
    {
        (self.surface_epoch, self.config)
    }
}

/// One step of the render target: a full swap, a resize, or the render loop
/// clearing a reconfigure request.
pub open spec fn target_step(pre: RenderTarget, post: RenderTarget) -> bool {
    ||| (exists|c: SurfaceConfig|
        c.wf() && pre.surface_epoch < u64::MAX && post == spec_committed(pre, c))
    ||| (exists|s: WindowSize| post == spec_resized(pre, s))
    ||| post == (RenderTarget { needs_reconfigure: false, ..pre })
}

/// Law: no step tears the target. Starting from a consistent target, every
/// operation — swapping, resizing, clearing a reconfigure — leaves the
/// stored surface and stored configuration from the same swap, so a draw
/// captured at any point uses the old pair in full or the new pair in full,
/// never a mix.
pub proof fn lemma_no_torn_state(pre: RenderTarget, post: RenderTarget)
    requires
        pre.consistent(),
        target_step(pre, post),
    ensures
        post.consistent(),
        post.surface_epoch == post.config_epoch,
{
    if exists|c: SurfaceConfig|
        c.wf() && pre.surface_epoch < u64::MAX && post == spec_committed(pre, c) {
        let c = choose|c: SurfaceConfig|
            c.wf() && pre.surface_epoch < u64::MAX && post == spec_committed(pre, c);
        assert(post == spec_committed(pre, c));
    } else if exists|s: WindowSize| post == spec_resized(pre, s) {
        let s = choose|s: WindowSize| post == spec_resized(pre, s);
        assert(post == spec_resized(pre, s));
    }
}

} // verus!
