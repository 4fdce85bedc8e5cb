//! Blank-frame detection.
//!
//! A normalized frame is sampled on a regular grid (every
//! [`SAMPLE_STRIDE`]-th pixel in each axis). Each sampled pixel's
//! luminance is `0.299·R + 0.587·G + 0.114·B` with channels normalized to
//! `[0, 1]`; the frame is blank if the mean sampled luminance falls below
//! a fixed threshold of `0.01`. Sampling zero pixels is a classification
//! failure, not a blank verdict.
//!
//! Arithmetic is exact fixed-point: a channel is an integer in
//! `[0, CHANNEL_SCALE]` standing for `value / CHANNEL_SCALE`, the weights
//! are per-mille, so one sample's luminance is carried in units of
//! `1 / (1000 · CHANNEL_SCALE)` and the mean-below-threshold test becomes
//! `total < count · BLANK_THRESHOLD_UNITS`.

use vstd::prelude::*;
use vstd::arithmetic::div_mod::lemma_fundamental_div_mod_converse;
use crate::errors::EngineError;

verus! {

/// Grid stride: every tenth pixel in each axis is sampled.
pub const SAMPLE_STRIDE: u32 = 10;

/// A channel value of `CHANNEL_SCALE` stands for a fully saturated channel.
pub const CHANNEL_SCALE: u16 = 10000;

/// The blank threshold (a mean luminance of `0.01`) expressed in one
/// sample's luminance units: `0.01 · 1000 · CHANNEL_SCALE`.
pub const BLANK_THRESHOLD_UNITS: u64 = 100000;

/// One sampled pixel; each channel lies in `[0, CHANNEL_SCALE]`.
#[derive(Clone, Copy, PartialEq, Eq, Structural, Debug)]
pub struct PixelSample {
    pub red: u16,
    pub green: u16,
    pub blue: u16,
}

/// Channels are within the fixed-point scale.
pub open spec fn sample_valid(p: PixelSample) -> bool {
    p.red <= CHANNEL_SCALE && p.green <= CHANNEL_SCALE && p.blue <= CHANNEL_SCALE
}

/// Luminance of one sample in fixed-point units.
pub open spec fn luma_units(p: PixelSample) -> int {
    299 * p.red + 587 * p.green + 114 * p.blue
}

/// Total luminance of a sequence of samples.
pub open spec fn total_luma_units(s: Seq<PixelSample>) -> int
    decreases s.len(),
{
    if s.len() == 0 {
        0
    } else {
        total_luma_units(s.drop_last()) + luma_units(s.last())
    }
}

/// The mean sampled luminance is below the blank threshold.
pub open spec fn spec_is_blank(s: Seq<PixelSample>) -> bool {
    total_luma_units(s) < s.len() * BLANK_THRESHOLD_UNITS
}

proof fn lemma_total_luma_take_succ(s: Seq<PixelSample>, i: int)
    requires
        0 <= i < s.len(),
    ensures
        total_luma_units(s.take(i + 1)) == total_luma_units(s.take(i)) + luma_units(s[i]),
{
    assert(s.take(i + 1).drop_last() =~= s.take(i));
    assert(s.take(i + 1).last() == s[i]);
}

/// Classifies a frame from its sampled pixels: blank if the mean sampled
/// luminance is below the threshold; a classification failure if no pixel
/// was sampled.
pub fn is_blank_frame(samples: &Vec<PixelSample>) -> (r: Result<bool, EngineError>)
    requires
        forall|i: int| 0 <= i < samples@.len() ==> sample_valid(#[trigger] samples@[i]),
        samples@.len() <= 1000000000,
    ensures
        samples@.len() == 0 ==> (r matches Err(EngineError::UnableToCheckIfImageIsBlack {
            reason,
        }) && reason@ == "No pixels could be sampled"@),
        samples@.len() > 0 ==> (r matches Ok(b) && b == spec_is_blank(samples@)),
{
    let n = samples.len();
    if n == 0 {
        return Err(
            EngineError::UnableToCheckIfImageIsBlack {
                reason: "No pixels could be sampled".to_owned(),
            },
        );
    }
    let mut total: u64 = 0;
    for i in 0..n
        invariant
            n == samples@.len(),
            n <= 1000000000,
            forall|j: int| 0 <= j < samples@.len() ==> sample_valid(#[trigger] samples@[j]),
            total == total_luma_units(samples@.take(i as int)),
            total <= (i as int) * 10000000,
    {
        let p = samples[i];
        let term: u64 = 299 * (p.red as u64) + 587 * (p.green as u64) + 114 * (p.blue as u64);
        proof {
            lemma_total_luma_take_succ(samples@, i as int);
        }
        total = total + term;
        assert(total <= (i as int + 1) * 10000000);
    }
    proof {
        assert(samples@.take(n as int) =~= samples@);
    }
    Ok(total < (n as u64) * BLANK_THRESHOLD_UNITS)
}

/// Number of sampled columns for an image width (0 for a zero width).
pub open spec fn grid_cols(width: nat) -> nat {
    (width + 9) / 10
}

/// Number of sampled rows for an image height (0 for a zero height).
pub open spec fn grid_rows(height: nat) -> nat {
    (height + 9) / 10
}

/// The sampling grid in row-major order: position `k` samples pixel
/// `((k mod cols)·10, (k div cols)·10)`.
pub open spec fn grid_positions(width: nat, height: nat) -> Seq<(u32, u32)> {
    Seq::new(
        grid_rows(height) * grid_cols(width),
        |k: int|
            (
                ((k % grid_cols(width) as int) * 10) as u32,
                ((k / grid_cols(width) as int) * 10) as u32,
            ),
    )
}

/// The pixel positions to sample for an image of the given dimensions:
/// every tenth pixel in each axis, in row-major order. Empty exactly when
/// either dimension is zero.
pub fn sample_grid(width: u32, height: u32) -> (r: Vec<(u32, u32)>)
    ensures
        r@ == grid_positions(width as nat, height as nat),
        forall|k: int| 0 <= k < r@.len() ==> (#[trigger] r@[k]).0 < width && r@[k].1 < height,
{
    let ghost cols = grid_cols(width as nat) as int;
    let ghost rows = grid_rows(height as nat) as int;
    let mut r: Vec<(u32, u32)> = Vec::new();
    let mut y: u64 = 0;
    let mut row: u64 = 0;
    while y < height as u64
        invariant
            cols == grid_cols(width as nat),
            rows == grid_rows(height as nat),
            y == 10 * row,
            row <= rows,
            y < height as u64 + 10,
            row < rows <==> y < height as u64,
            r@.len() == row * cols,
            forall|k: int|
                0 <= k < r@.len() ==> #[trigger] r@[k] == grid_positions(
                    width as nat,
                    height as nat,
                )[k],
            forall|k: int| 0 <= k < r@.len() ==> (#[trigger] r@[k]).0 < width && r@[k].1 < height,
        decreases height as int + 10 - y,
    {
        let mut x: u64 = 0;
        let mut col: u64 = 0;
        while x < width as u64
            invariant
                cols == grid_cols(width as nat),
                rows == grid_rows(height as nat),
                y == 10 * row,
                row < rows,
                y < height as u64,
                x == 10 * col,
                col <= cols,
                x < width as u64 + 10,
                col < cols <==> x < width as u64,
                r@.len() == row * cols + col,
                forall|k: int|
                    0 <= k < r@.len() ==> #[trigger] r@[k] == grid_positions(
                        width as nat,
                        height as nat,
                    )[k],
                forall|k: int|
                    0 <= k < r@.len() ==> (#[trigger] r@[k]).0 < width && r@[k].1 < height,
            decreases width as int + 10 - x,
        {
            let pos = (x as u32, y as u32);
            proof {
                let k = row * cols + col;
                lemma_fundamental_div_mod_converse(k as int, cols, row as int, col as int);
                assert(k < rows * cols) by (nonlinear_arith)
                    requires
                        row < rows,
                        col < cols,
                        0 <= row,
                        0 <= col,
                        k == row * cols + col,
                ;
                assert(grid_positions(width as nat, height as nat)[k as int] == pos);
            }
            r.push(pos);
            x = x + 10;
            col = col + 1;
        }
        proof {
            assert(row * cols + cols == (row + 1) * cols) by (nonlinear_arith);
        }
        y = y + 10;
        row = row + 1;
    }
    proof {
        assert(row == rows);
        assert(r@.len() == grid_positions(width as nat, height as nat).len()) by (nonlinear_arith)
            requires
                r@.len() == row * cols,
                row == rows,
                grid_positions(width as nat, height as nat).len() == rows * cols,
        ;
        assert(r@ =~= grid_positions(width as nat, height as nat));
    }
    r
}

} // verus!
