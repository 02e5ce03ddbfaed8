//! Placement of the camera image on the render target.
//!
//! The textured quad is described in normalized device coordinates: a full
//! target is 2 units wide and 2 units tall. To preserve the camera's aspect
//! ratio the quad spans the full width and is letterboxed top and bottom when
//! the camera is relatively wider than the target, and spans the full height
//! pillarboxed left and right when it is relatively taller. Sizes are held
//! exactly as integer fractions; the renderer lowers them to floats only at
//! the GPU boundary.

use vstd::prelude::*;

verus! {

/// Where and how large the camera quad is drawn, in normalized device
/// coordinates. The quad is centered at the origin; each size is an exact
/// fraction `num / den` of NDC units, between 0 and 2.
#[derive(Clone, Copy, PartialEq, Eq, Structural, Debug)]
pub struct QuadLayout {
    /// Horizontal center of the quad; 0 is the middle of the target.
    pub pos_x: i64,
    /// Vertical center of the quad; 0 is the middle of the target.
    pub pos_y: i64,
    /// Numerator of the quad's NDC width.
    pub size_x_num: u128,
    /// Denominator of the quad's NDC width.
    pub size_x_den: u128,
    /// Numerator of the quad's NDC height.
    pub size_y_num: u128,
    /// Denominator of the quad's NDC height.
    pub size_y_den: u128,
}

impl QuadLayout {
    /// Both size fractions have positive denominators.
    pub open spec fn wf(self) -> bool {
        self.size_x_den >= 1 && self.size_y_den >= 1
    }
}

impl Default for QuadLayout {
    /// The layout before any frame has arrived: centered, covering the whole
    /// target.
    fn default() -> (r: QuadLayout)
        ensures
            r == (QuadLayout {
                pos_x: 0i64,
                pos_y: 0i64,
                size_x_num: 2u128,
                size_x_den: 1u128,
                size_y_num: 2u128,
                size_y_den: 1u128,
            }),
    {
        QuadLayout {
            pos_x: 0,
            pos_y: 0,
            size_x_num: 2,
            size_x_den: 1,
            size_y_num: 2,
            size_y_den: 1,
        }
    }
}

/// A dimension with zero clamped away, so no aspect ratio divides by zero.
pub open spec fn clamped_dim(d: int) -> int {
    if d >= 1 {
        d
    } else {
        1
    }
}

/// The quad layout as a mathematical function of the camera and target
/// dimensions. With `cw/ch` the camera's aspect ratio and `tw/th` the
/// target's: when the camera is strictly wider the quad is `2` wide and
/// `2 * (ch/cw) * (tw/th)` tall; otherwise it is `2 * (cw/ch) * (th/tw)` wide
/// and `2` tall.
pub open spec fn spec_quad_layout(cw: int, ch: int, tw: int, th: int) -> QuadLayout {
    let c_w: int = clamped_dim(cw);
    let c_h: int = clamped_dim(ch);
    let t_w: int = clamped_dim(tw);
    let t_h: int = clamped_dim(th);
    if c_w * t_h > t_w * c_h {
        QuadLayout {
            pos_x: 0i64,
            pos_y: 0i64,
            size_x_num: 2u128,
            size_x_den: 1u128,
            size_y_num: (2 * (t_w * c_h)) as u128,
            size_y_den: (c_w * t_h) as u128,
        }
    } else {
        QuadLayout {
            pos_x: 0i64,
            pos_y: 0i64,
            size_x_num: (2 * (c_w * t_h)) as u128,
            size_x_den: (t_w * c_h) as u128,
            size_y_num: 2u128,
            size_y_den: 1u128,
        }
    }
}

/// Compute the aspect-preserving quad layout for a camera frame of
/// `camera_width x camera_height` drawn on a target of
/// `target_width x target_height`, clamping zero dimensions to 1.
pub fn compute_quad_layout(
    camera_width: u32,
    camera_height: u32,
    target_width: u32,
    target_height: u32,
) -> (q: QuadLayout)
    ensures
        q == spec_quad_layout(
            camera_width as int,
            camera_height as int,
            target_width as int,
            target_height as int,
        ),
        q.wf(),
{
    let c_w: u128 = if camera_width >= 1 { camera_width as u128 } else { 1 };
    let c_h: u128 = if camera_height >= 1 { camera_height as u128 } else { 1 };
    let t_w: u128 = if target_width >= 1 { target_width as u128 } else { 1 };
    let t_h: u128 = if target_height >= 1 { target_height as u128 } else { 1 };
    proof {
        assert(1 <= c_w * t_h <= 0xffff_ffff * 0xffff_ffff && 1 <= t_w * c_h <= 0xffff_ffff
            * 0xffff_ffff) by (nonlinear_arith)
            requires
                1 <= c_w <= 0xffff_ffff,
                1 <= c_h <= 0xffff_ffff,
                1 <= t_w <= 0xffff_ffff,
                1 <= t_h <= 0xffff_ffff,
        ;
    }
    let camera_cross: u128 = c_w * t_h;
    let target_cross: u128 = t_w * c_h;
    if camera_cross > target_cross {
        QuadLayout {
            pos_x: 0,
            pos_y: 0,
            size_x_num: 2,
            size_x_den: 1,
            size_y_num: 2 * target_cross,
            size_y_den: camera_cross,
        }
    } else {
        QuadLayout {
            pos_x: 0,
            pos_y: 0,
            size_x_num: 2 * camera_cross,
            size_x_den: target_cross,
            size_y_num: 2,
            size_y_den: 1,
        }
    }
}

/// Law: the quad preserves the camera's aspect ratio. Scaling the quad's NDC
/// size by the target's pixel dimensions gives a rectangle whose width/height
/// ratio is exactly the camera's `cw/ch`, stated here with all fractions
/// cross-multiplied.
pub proof fn lemma_quad_preserves_aspect(cw: int, ch: int, tw: int, th: int, q: QuadLayout)
    requires
        1 <= cw <= 0xffff_ffff,
        1 <= ch <= 0xffff_ffff,
        1 <= tw <= 0xffff_ffff,
        1 <= th <= 0xffff_ffff,
        q == spec_quad_layout(cw, ch, tw, th),
    ensures
        q.size_x_num * q.size_y_den * (tw * ch) == q.size_y_num * q.size_x_den * (th * cw),
{
    assert(1 <= cw * th <= 0xffff_ffff * 0xffff_ffff && 1 <= tw * ch <= 0xffff_ffff * 0xffff_ffff)
        by (nonlinear_arith)
        requires
            1 <= cw <= 0xffff_ffff,
            1 <= ch <= 0xffff_ffff,
            1 <= tw <= 0xffff_ffff,
            1 <= th <= 0xffff_ffff,
    ;
    if cw * th > tw * ch {
        assert(2 * (cw * th) * (tw * ch) == (2 * (tw * ch)) * 1 * (th * cw)) by (nonlinear_arith);
    } else {
        assert((2 * (cw * th)) * 1 * (tw * ch) == 2 * (tw * ch) * (th * cw)) by (nonlinear_arith);
    }
}

} // verus!
