//! Frame buffers of the pipeline.
//!
//! A [`RawFrame`] is one camera exposure: an owned packed luma/chroma buffer
//! of exactly `2 * width * height` bytes with an even width, consumed once by
//! the converter. A [`ColorFrame`] is its converted form: 4 bytes per pixel,
//! fully opaque, consumed once by the texture upload.

use crate::convert;
use vstd::prelude::*;

verus! {

/// A raw buffer together with dimensions is a well-formed frame when its
/// length matches the packed 2-bytes-per-pixel layout, the width is even (the
/// layout covers pixels in horizontal pairs), and the converted size still
/// fits in a `usize`.
pub open spec fn valid_raw_frame(data: Seq<u8>, width: int, height: int) -> bool {
    &&& data.len() == 2 * (width * height)
    &&& width % 2 == 0
    &&& 4 * (width * height) <= usize::MAX
}

/// One camera exposure in the packed luma/chroma layout.
pub struct RawFrame {
    /// The packed bytes, `Y0 U Y1 V` per pixel pair.
    pub data: Vec<u8>,
    /// Frame width in pixels; always even.
    pub width: u32,
    /// Frame height in pixels.
    pub height: u32,
}

impl RawFrame {
    /// The frame's buffer matches its stated dimensions.
    pub open spec fn wf(self) -> bool {
        valid_raw_frame(self.data@, self.width as int, self.height as int)
    }

    /// Validate a producer's buffer against its stated dimensions before any
    /// indexing: a mismatched length or an odd width is an input-contract
    /// violation and is rejected up front.
    pub fn new(data: Vec<u8>, width: u32, height: u32) -> (r: Option<RawFrame>)
        ensures
            match r {
                Some(f) => {
                    &&& f.data == data
                    &&& f.width == width
                    &&& f.height == height
                    &&& f.wf()
                },
                None => !valid_raw_frame(data@, width as int, height as int),
            },
    {
        if width % 2 != 0 {
            return None;
        }
        proof {
            assert((width as int) * (height as int) <= 0xffff_ffff * 0xffff_ffff)
                by (nonlinear_arith)
                requires
                    0 <= width as int <= 0xffff_ffff,
                    0 <= height as int <= 0xffff_ffff,
            ;
        }
        let pixels: u128 = (width as u128) * (height as u128);
        if (data.len() as u128) != 2 * pixels {
            return None;
        }
        if 4 * pixels > (usize::MAX as u128) {
            return None;
        }
        Some(RawFrame { data, width, height })
    }
}

/// One converted frame: `R G B A` per pixel, alpha fully opaque.
pub struct ColorFrame {
    /// The converted bytes, 4 per pixel.
    pub data: Vec<u8>,
    /// Frame width in pixels, copied from the source frame.
    pub width: u32,
    /// Frame height in pixels, copied from the source frame.
    pub height: u32,
}

impl ColorFrame {
    /// The buffer holds 4 bytes per pixel.
    pub open spec fn wf(self) -> bool {
        self.data@.len() == 4 * (self.width as int * self.height as int)
    }

    /// Convert a raw frame, keeping its dimensions.
    pub fn from_raw(raw: &RawFrame) -> (r: ColorFrame)
        requires
            raw.wf(),
        ensures
            r.width == raw.width,
            r.height == raw.height,
            r.data@ == convert::rgba_of_yuyv(raw.data@, raw.width as int, raw.height as int),
            r.wf(),
    {
        let data = convert::yuyv_to_rgba(
            raw.data.as_slice(),
            raw.width as usize,
            raw.height as usize,
        );
        ColorFrame { data, width: raw.width, height: raw.height }
    }
}

} // verus!
