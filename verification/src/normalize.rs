//! Geometry of the frame-normalization pipeline.
//!
//! Every accepted frame is rescaled to fit a fixed canvas while preserving
//! its aspect ratio, then centered on a black canvas of exactly the target
//! size (letterboxing). This module computes the resize dimensions and the
//! centering offsets; the actual decoding, resampling, compositing and
//! encoding are the image codec collaborator's work and happen outside the
//! engine core.

use vstd::prelude::*;
use vstd::arithmetic::div_mod::{lemma_multiply_divide_le, lemma_multiply_divide_lt};

verus! {

/// Width of the canonical frame canvas.
pub const TARGET_WIDTH: u32 = 1800;

/// Height of the canonical frame canvas.
pub const TARGET_HEIGHT: u32 = 1124;

/// Resize dimensions and letterbox offsets for one captured image.
#[derive(Clone, Copy, PartialEq, Eq, Structural, Debug)]
pub struct FramePlan {
    /// Width of the rescaled image.
    pub width: u32,
    /// Height of the rescaled image.
    pub height: u32,
    /// Horizontal offset of the rescaled image on the canvas.
    pub x_offset: u32,
    /// Vertical offset of the rescaled image on the canvas.
    pub y_offset: u32,
}

/// The uniform scale `min(Tw/ow, Th/oh)` is the width ratio: scaling to the
/// full target width still fits the target height.
pub open spec fn width_limited(ow: int, oh: int) -> bool {
    TARGET_WIDTH * oh <= TARGET_HEIGHT * ow
}

/// Width of the rescaled image: `ow` times the uniform scale, rounded down.
pub open spec fn spec_scaled_width(ow: int, oh: int) -> int {
    if width_limited(ow, oh) {
        TARGET_WIDTH as int
    } else {
        (ow * TARGET_HEIGHT) / oh
    }
}

/// Height of the rescaled image: `oh` times the uniform scale, rounded down.
pub open spec fn spec_scaled_height(ow: int, oh: int) -> int {
    if width_limited(ow, oh) {
        (oh * TARGET_WIDTH) / ow
    } else {
        TARGET_HEIGHT as int
    }
}

/// Computes the resize-and-letterbox plan for an image of the given
/// dimensions; `None` for a degenerate (zero-sized) image.
///
/// The rescaled image never exceeds the canvas in either dimension, and the
/// offsets center it: offset = floor((target - scaled) / 2) per axis.
pub fn plan_frame(ow: u32, oh: u32) -> (r: Option<FramePlan>)
    ensures
        (ow == 0 || oh == 0) ==> r is None,
        (ow > 0 && oh > 0) ==> (r matches Some(p) && p.width == spec_scaled_width(
            ow as int,
            oh as int,
        ) && p.height == spec_scaled_height(ow as int, oh as int) && p.width <= TARGET_WIDTH
            && p.height <= TARGET_HEIGHT && p.x_offset == (TARGET_WIDTH - p.width) / 2
            && p.y_offset == (TARGET_HEIGHT - p.height) / 2),
{
    if ow == 0 || oh == 0 {
        return None;
    }
    let ow64 = ow as u64;
    let oh64 = oh as u64;
    let width: u64;
    let height: u64;
    if 1800 * oh64 <= 1124 * ow64 {
        let h = oh64 * 1800 / ow64;
        proof {
            lemma_multiply_divide_le((oh64 * 1800) as int, ow64 as int, 1124);
        }
        width = 1800;
        height = h;
    } else {
        let w = ow64 * 1124 / oh64;
        proof {
            lemma_multiply_divide_lt((ow64 * 1124) as int, oh64 as int, 1800);
        }
        width = w;
        height = 1124;
    }
    let w32 = width as u32;
    let h32 = height as u32;
    Some(
        FramePlan {
            width: w32,
            height: h32,
            x_offset: (TARGET_WIDTH - w32) / 2,
            y_offset: (TARGET_HEIGHT - h32) / 2,
        },
    )
}

} // verus!
