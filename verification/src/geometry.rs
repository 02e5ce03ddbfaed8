//! Overlay window geometry.
//!
//! A pure mapping from the host window's outer position and inner size, and a
//! desired aspect ratio, to the floating overlay window's position and size:
//! the overlay takes a fixed fraction of the host's width, its height follows
//! the aspect ratio, and it sits in the host's top-right corner inset by a
//! fixed margin. Zero dimensions clamp to 1 so the geometry never degenerates.

use vstd::prelude::*;

verus! {

/// Numerator of the fixed fraction of the host width that the overlay takes.
pub const OVERLAY_FRACTION_NUM: u64 = 2;

/// Denominator of the fixed fraction of the host width that the overlay takes.
pub const OVERLAY_FRACTION_DEN: u64 = 5;

/// Inset, in pixels, between the overlay and the host window's top and right
/// edges.
pub const OVERLAY_MARGIN: i64 = 20;

/// A window position in physical screen pixels.
#[derive(Clone, Copy, PartialEq, Eq, Structural, Debug)]
pub struct WindowPosition {
    /// Horizontal coordinate of the top-left corner.
    pub x: i64,
    /// Vertical coordinate of the top-left corner.
    pub y: i64,
}

impl WindowPosition {
    /// The coordinate range the windowing host reports positions in.
    pub open spec fn in_host_range(self) -> bool {
        &&& -0x8000_0000 <= self.x <= 0x7fff_ffff
        &&& -0x8000_0000 <= self.y <= 0x7fff_ffff
    }
}

/// A window size in physical pixels.
#[derive(Clone, Copy, PartialEq, Eq, Structural, Debug)]
pub struct WindowSize {
    /// Width in pixels.
    pub width: u32,
    /// Height in pixels.
    pub height: u32,
}

/// A width-to-height ratio held exactly as a pair of integers.
#[derive(Clone, Copy, PartialEq, Eq, Structural, Debug)]
pub struct AspectRatio {
    /// Width term of the ratio.
    pub num: u32,
    /// Height term of the ratio.
    pub den: u32,
}

impl AspectRatio {
    /// Both terms are positive, so the ratio divides cleanly either way.
    pub open spec fn wf(self) -> bool {
        self.num >= 1 && self.den >= 1
    }

    /// The aspect ratio of a window size, with zero dimensions clamped to 1.
    pub fn from_size(size: WindowSize) -> (r: AspectRatio)
        ensures
            r.num == if size.width >= 1 { size.width } else { 1u32 },
            r.den == if size.height >= 1 { size.height } else { 1u32 },
            r.wf(),
    {
        let num: u32 = if size.width >= 1 { size.width } else { 1 };
        let den: u32 = if size.height >= 1 { size.height } else { 1 };
        AspectRatio { num, den }
    }
}

/// The overlay geometry as a mathematical function of its inputs: width is
/// the fixed fraction of the host width, height follows the desired aspect
/// ratio, both at least 1; the position is the host's top-right corner inset
/// by the margin on each axis.
pub open spec fn spec_overlay_geometry(
    host_pos: WindowPosition,
    host_size: WindowSize,
    aspect: AspectRatio,
) -> (WindowPosition, WindowSize) {
    let ow: int = host_size.width as int * (OVERLAY_FRACTION_NUM as int) / (
    OVERLAY_FRACTION_DEN as int);
    let oh_raw: int = ow * (aspect.den as int) / (aspect.num as int);
    let oh: int = if oh_raw > u32::MAX { u32::MAX as int } else { oh_raw };
    let ox: int = host_pos.x + host_size.width - ow - OVERLAY_MARGIN;
    let oy: int = host_pos.y + OVERLAY_MARGIN;
    (
        WindowPosition { x: ox as i64, y: oy as i64 },
        WindowSize {
            width: (if ow >= 1 { ow } else { 1 }) as u32,
            height: (if oh >= 1 { oh } else { 1 }) as u32,
        },
    )
}

/// Compute the overlay window's position and size from the host window's
/// outer position, its inner size, and the desired aspect ratio.
pub fn calculate_overlay_geometry(
    host_pos: WindowPosition,
    host_size: WindowSize,
    aspect: AspectRatio,
) -> (r: (WindowPosition, WindowSize))
    requires
        aspect.wf(),
        host_pos.in_host_range(),
    ensures
        r == spec_overlay_geometry(host_pos, host_size, aspect),
{
    let ow64: u64 = host_size.width as u64 * OVERLAY_FRACTION_NUM / OVERLAY_FRACTION_DEN;
    let ow: u32 = ow64 as u32;
    proof {
        assert(ow64 * (aspect.den as int) <= 0xffff_ffff * 0xffff_ffff) by (nonlinear_arith)
            requires
                0 <= ow64 <= 0xffff_ffff,
                0 <= aspect.den as int <= 0xffff_ffff,
        ;
    }
    let num64: u64 = ow64 * aspect.den as u64;
    let oh64: u64 = num64 / aspect.num as u64;
    let oh: u32 = if oh64 > u32::MAX as u64 {
        u32::MAX
    } else {
        oh64 as u32
    };
    let ox: i64 = host_pos.x + host_size.width as i64 - ow as i64 - OVERLAY_MARGIN;
    let oy: i64 = host_pos.y + OVERLAY_MARGIN;
    let width: u32 = if ow >= 1 { ow } else { 1 };
    let height: u32 = if oh >= 1 { oh } else { 1 };
    (WindowPosition { x: ox, y: oy }, WindowSize { width, height })
}

/// Law: the geometry is idempotent. Two results that both satisfy the
/// geometry contract for unchanged inputs are identical, so re-invoking the
/// calculator cannot move or resize the overlay.
pub proof fn lemma_geometry_deterministic(
    host_pos: WindowPosition,
    host_size: WindowSize,
    aspect: AspectRatio,
    a: (WindowPosition, WindowSize),
    b: (WindowPosition, WindowSize),
)
    requires
        a == spec_overlay_geometry(host_pos, host_size, aspect),
        b == spec_overlay_geometry(host_pos, host_size, aspect),
    ensures
        a == b,
{
}

} // verus!
