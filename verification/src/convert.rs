//! Packed luma/chroma to RGBA color conversion.
//!
//! The input layout packs two horizontal pixels into each 4-byte group
//! `Y0 U Y1 V`: each pixel has its own luma sample and the pair shares the
//! two chroma samples. The studio-range transform
//! `R = clamp((298c + 409e + 128)/256, 0, 255)` (and its green/blue
//! companions, with `c = Y - 16`, `d = U - 128`, `e = V - 128`) yields one
//! opaque RGBA pixel per luma sample.

use rayon::iter::IndexedParallelIterator;
use rayon::iter::ParallelIterator;
use rayon::slice::ParallelSliceMut;
use vstd::prelude::*;

verus! {

/// Byte offset of the 4-byte luma/chroma group that covers pixel `i`.
pub open spec fn group_base(i: int) -> int {
    (i / 2) * 4
}

/// Luma sample of pixel `i`: the first of the group for even `i`, the second
/// for odd `i`.
pub open spec fn luma_at(yuyv: Seq<u8>, i: int) -> u8 {
    if i % 2 == 0 {
        yuyv[group_base(i)]
    } else {
        yuyv[group_base(i) + 2]
    }
}

/// First chroma sample shared by the pixel pair that covers pixel `i`.
pub open spec fn chroma_u_at(yuyv: Seq<u8>, i: int) -> u8 {
    yuyv[group_base(i) + 1]
}

/// Second chroma sample shared by the pixel pair that covers pixel `i`.
pub open spec fn chroma_v_at(yuyv: Seq<u8>, i: int) -> u8 {
    yuyv[group_base(i) + 3]
}

/// Clamp a channel value that has already been divided by 256 into a byte.
pub open spec fn clamp_channel(v: int) -> u8 {
    if v < 0 {
        0u8
    } else if v > 255 {
        255u8
    } else {
        v as u8
    }
}

/// Red channel of the studio-range transform.
pub open spec fn red_channel(y: u8, v: u8) -> u8 {
    clamp_channel((298 * (y - 16) + 409 * (v - 128) + 128) / 256)
}

/// Green channel of the studio-range transform.
pub open spec fn green_channel(y: u8, u: u8, v: u8) -> u8 {
    clamp_channel((298 * (y - 16) - 100 * (u - 128) - 208 * (v - 128) + 128) / 256)
}

/// Blue channel of the studio-range transform.
pub open spec fn blue_channel(y: u8, u: u8) -> u8 {
    clamp_channel((298 * (y - 16) + 516 * (u - 128) + 128) / 256)
}

/// Byte `j` of the converted buffer: pixel `j / 4`, channel `j % 4`,
/// with the alpha channel always fully opaque.
pub open spec fn rgba_byte(yuyv: Seq<u8>, j: int) -> u8 {
    let i: int = j / 4;
    let y: u8 = luma_at(yuyv, i);
    let u: u8 = chroma_u_at(yuyv, i);
    let v: u8 = chroma_v_at(yuyv, i);
    if j % 4 == 0 {
        red_channel(y, v)
    } else if j % 4 == 1 {
        green_channel(y, u, v)
    } else if j % 4 == 2 {
        blue_channel(y, u)
    } else {
        255u8
    }
}

/// The whole converted buffer: 4 bytes for each of the `width * height`
/// pixels of the input.
pub open spec fn rgba_of_yuyv(yuyv: Seq<u8>, width: int, height: int) -> Seq<u8> {
    Seq::new((4 * (width * height)) as nat, |j: int| rgba_byte(yuyv, j))
}

/// For an even width, every pixel's luma/chroma group lies inside a buffer of
/// length `2 * width * height`.
proof fn lemma_group_in_bounds(width: int, height: int, i: int)
    requires
        width % 2 == 0,
        0 <= i < width * height,
    ensures
        group_base(i) + 3 < 2 * (width * height),
{
    let n: int = width * height;
    let half: int = width / 2;
    assert(n == 2 * (half * height)) by (nonlinear_arith)
        requires
            n == width * height,
            width == 2 * half,
    ;
    if i % 2 == 0 {
        assert(group_base(i) == 2 * i);
    } else {
        assert(group_base(i) == 2 * i - 2);
    }
}

/// Divide a non-negative transform numerator by 256 and clamp into a byte;
/// a negative numerator clamps to zero without dividing.
fn clamp_rgb(n: i32) -> (r: u8)
    ensures
        r == clamp_channel(n / 256),
{
    if n < 0 {
        0
    } else {
        let q: u32 = (n as u32) / 256;
        if q > 255 {
            255
        } else {
            q as u8
        }
    }
}

/// Convert the single pixel `i`, reading its luma/chroma group from the
/// packed input.
pub fn convert_pixel(yuyv: &[u8], i: usize) -> (px: [u8; 4])
    requires
        i / 2 * 4 + 3 < yuyv@.len(),
    ensures
        forall|k: int| 0 <= k < 4 ==> px@[k] == rgba_byte(yuyv@, 4 * i + k),
{
    proof {
        // The slice's length fits in a usize, so the group offset does too.
        assert(vstd::slice::spec_slice_len(yuyv) == yuyv@.len());
    }
    let base: usize = i / 2 * 4;
    let y: u8 = if i % 2 == 0 {
        yuyv[base]
    } else {
        yuyv[base + 2]
    };
    let u: u8 = yuyv[base + 1];
    let v: u8 = yuyv[base + 3];

    let c: i32 = y as i32 - 16;
    let d: i32 = u as i32 - 128;
    let e: i32 = v as i32 - 128;

    let r: u8 = clamp_rgb(298 * c + 409 * e + 128);
    let g: u8 = clamp_rgb(298 * c - 100 * d - 208 * e + 128);
    let b: u8 = clamp_rgb(298 * c + 516 * d + 128);

    [r, g, b, 255]
}

/// Convert a packed luma/chroma buffer of an even `width` into an RGBA
/// buffer of `4 * width * height` bytes, pixel by pixel.
pub fn yuyv_to_rgba(yuyv: &[u8], width: usize, height: usize) -> (rgba: Vec<u8>)
    requires
        yuyv@.len() == 2 * (width * height),
        width % 2 == 0,
        4 * (width * height) <= usize::MAX,
    ensures
        rgba@ == rgba_of_yuyv(yuyv@, width as int, height as int),
        rgba@.len() == 4 * (width * height),
{
    let pixel_count: usize = width * height;
    let mut rgba: Vec<u8> = Vec::new();
    let mut i: usize = 0;
    while i < pixel_count
        invariant
            i <= pixel_count,
            pixel_count == width * height,
            yuyv@.len() == 2 * (width * height),
            width % 2 == 0,
            4 * (width * height) <= usize::MAX,
            rgba@.len() == 4 * i,
            forall|j: int| 0 <= j < 4 * i ==> rgba@[j] == rgba_byte(yuyv@, j),
        decreases pixel_count - i,
    {
        proof {
            lemma_group_in_bounds(width as int, height as int, i as int);
        }
        let px = convert_pixel(yuyv, i);
        rgba.push(px[0]);
        rgba.push(px[1]);
        rgba.push(px[2]);
        rgba.push(px[3]);
        i = i + 1;
    }
    proof {
        assert(rgba@ =~= rgba_of_yuyv(yuyv@, width as int, height as int));
    }
    rgba
}

/// Relies on rayon's `par_chunks_exact_mut` and `enumerate`: the output is
/// split into disjoint 4-byte chunks and the closure runs exactly once per
/// chunk, with that chunk's index; each chunk is filled with the pixel that
/// [`convert_pixel`] computes for its index.
#[verifier::external_body]
fn convert_pixels_parallel(yuyv: &[u8], width: usize, height: usize) -> (rgba: Vec<u8>)
    requires
        yuyv@.len() == 2 * (width * height),
        width % 2 == 0,
        4 * (width * height) <= usize::MAX,
    ensures
        rgba@ == rgba_of_yuyv(yuyv@, width as int, height as int),
        rgba@.len() == 4 * (width * height),
{
    let mut rgba: Vec<u8> = vec![0u8; 4 * (width * height)];
    rgba.par_chunks_exact_mut(4).enumerate().for_each(|(i, chunk)| {
        let px = convert_pixel(yuyv, i);
        chunk[0] = px[0];
        chunk[1] = px[1];
        chunk[2] = px[2];
        chunk[3] = px[3];
    });
    rgba
}

/// Data-parallel conversion: the same contract as [`yuyv_to_rgba`], with the
/// per-pixel work spread across worker threads, since a frame must convert
/// well inside one frame interval.
pub fn yuyv_to_rgba_par(yuyv: &[u8], width: usize, height: usize) -> (rgba: Vec<u8>)
    requires
        yuyv@.len() == 2 * (width * height),
        width % 2 == 0,
        4 * (width * height) <= usize::MAX,
    ensures
        rgba@ == rgba_of_yuyv(yuyv@, width as int, height as int),
        rgba@.len() == 4 * (width * height),
{
    convert_pixels_parallel(yuyv, width, height)
}

/// Law: conversion is deterministic. Any two buffers that satisfy the
/// conversion contract for one input buffer and one pair of dimensions are
/// byte-identical.
pub proof fn lemma_convert_deterministic(
    yuyv: Seq<u8>,
    width: int,
    height: int,
    a: Seq<u8>,
    b: Seq<u8>,
)
    requires
        a == rgba_of_yuyv(yuyv, width, height),
        b == rgba_of_yuyv(yuyv, width, height),
    ensures
        a == b,
{
}

} // verus!
