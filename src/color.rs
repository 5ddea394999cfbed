//! Per-pixel colour analysis: the reference RGB to YUV transform and the
//! weighted luminance that places a pixel on the waveform monitor.

use vstd::prelude::*;

verus! {

/// An 8-bit RGB triple.
#[derive(Clone, Copy, Debug, PartialEq, Eq, Structural)]
pub struct RGB {
    pub r: u8,
    pub g: u8,
    pub b: u8,
}

/// Luma and the two colour-difference components, each in its native
/// 8-bit range.
#[derive(Clone, Copy, Debug, PartialEq, Eq, Structural)]
pub struct YUV {
    pub y: u8,
    pub u: i8,
    pub v: i8,
}

/// `n / d` rounded to the nearest integer, halves away from zero.
pub open spec fn round_div(n: int, d: int) -> int
    recommends
        d > 0,
{
    if n >= 0 {
        (2 * n + d) / (2 * d)
    } else {
        -((-2 * n + d) / (2 * d))
    }
}

/// `v` limited to `lo..=hi`.
pub open spec fn clamp(v: int, lo: int, hi: int) -> int {
    if v < lo {
        lo
    } else if v > hi {
        hi
    } else {
        v
    }
}

/// Luma weights (0.299, 0.587, 0.114), scaled by 1000.
pub open spec fn luma_milli(c: RGB) -> int {
    299 * c.r + 587 * c.g + 114 * c.b
}

/// Blue-difference weights (-0.169, -0.331, 0.5), scaled by 1000.
pub open spec fn cb_milli(c: RGB) -> int {
    -169 * c.r - 331 * c.g + 500 * c.b
}

/// Red-difference weights (0.5, -0.419, -0.081), scaled by 1000.
pub open spec fn cr_milli(c: RGB) -> int {
    500 * c.r - 419 * c.g - 81 * c.b
}

/// The reference transform: each weighted sum rounded half away from zero
/// and clamped to the component's native range.
pub open spec fn yuv_of(c: RGB) -> YUV {
    YUV {
        y: clamp(round_div(luma_milli(c), 1000), 0, 255) as u8,
        u: clamp(round_div(cb_milli(c), 1000), -128, 127) as i8,
        v: clamp(round_div(cr_milli(c), 1000), -128, 127) as i8,
    }
}

/// Weighted luminance `0.30 R + 0.56 G + 0.14 B`, truncated.
pub open spec fn luminance(r: u8, g: u8, b: u8) -> int {
    (30 * r + 56 * g + 14 * b) / 100
}

/// A pixel is neutral (gray, white or black) when its channels are equal;
/// its saturation is then zero.
pub open spec fn is_neutral(r: u8, g: u8, b: u8) -> bool {
    r == g && g == b
}

/// Rounds a weighted sum scaled by 1000 as `round_div(n, 1000)` does.
fn round_milli(n: i32) -> (r: i32)
    requires
        -1_000_000 <= n <= 1_000_000,
    ensures
        r == round_div(n as int, 1000),
{
    if n >= 0 {
        (2 * n + 1000) / 2000
    } else {
        let m: i32 = 0 - n;
        0 - (2 * m + 1000) / 2000
    }
}

fn clamp_i32(v: i32, lo: i32, hi: i32) -> (r: i32)
    requires
        lo <= hi,
    ensures
        r == clamp(v as int, lo as int, hi as int),
{
    if v < lo {
        lo
    } else if v > hi {
        hi
    } else {
        v
    }
}

impl RGB {
    /// Converts to YUV with BT.709-style weights, rounding each component
    /// half away from zero and clamping it to its range.
    pub fn convert_to_ybr(&self) -> (r: YUV)
        ensures
            r == yuv_of(*self),
    {
        let r = self.r as i32;
        let g = self.g as i32;
        let b = self.b as i32;
        let y = clamp_i32(round_milli(299 * r + 587 * g + 114 * b), 0, 255);
        let u = clamp_i32(round_milli(-169 * r - 331 * g + 500 * b), -128, 127);
        let v = clamp_i32(round_milli(500 * r - 419 * g - 81 * b), -128, 127);
        YUV { y: y as u8, u: u as i8, v: v as i8 }
    }
}

/// Weighted luminance of one pixel; it always fits the 0..=255 range.
pub fn luminance_of(r: u8, g: u8, b: u8) -> (l: u8)
    ensures
        l == luminance(r, g, b),
{
    let sum: u32 = 30 * (r as u32) + 56 * (g as u32) + 14 * (b as u32);
    (sum / 100) as u8
}

/// Every component of the transform lies in its native range; luma is never
/// clamped; and each unclamped component is within half a unit of the exact
/// weighted sum.
pub proof fn lemma_yuv_range_and_rounding(c: RGB)
    ensures
        0 <= yuv_of(c).y <= 255,
        -128 <= yuv_of(c).u <= 127,
        -128 <= yuv_of(c).v <= 127,
        yuv_of(c).y == round_div(luma_milli(c), 1000),
        -500 <= 1000 * round_div(luma_milli(c), 1000) - luma_milli(c) <= 500,
        -500 <= 1000 * round_div(cb_milli(c), 1000) - cb_milli(c) <= 500,
        -500 <= 1000 * round_div(cr_milli(c), 1000) - cr_milli(c) <= 500,
        -128 <= round_div(cb_milli(c), 1000) <= 127 ==> yuv_of(c).u == round_div(cb_milli(c), 1000),
        -128 <= round_div(cr_milli(c), 1000) <= 127 ==> yuv_of(c).v == round_div(cr_milli(c), 1000),
{
    lemma_round_div_bias(luma_milli(c));
    lemma_round_div_bias(cb_milli(c));
    lemma_round_div_bias(cr_milli(c));
}

proof fn lemma_round_div_bias(n: int)
    ensures
        -500 <= 1000 * round_div(n, 1000) - n <= 500,
        0 <= n <= 255000 ==> 0 <= round_div(n, 1000) <= 255,
{
    if n >= 0 {
        let q = (2 * n + 1000) / 2000;
        assert(2000 * q <= 2 * n + 1000 < 2000 * q + 2000) by (nonlinear_arith)
            requires q == (2 * n + 1000) / 2000;
    } else {
        let q = (-2 * n + 1000) / 2000;
        assert(2000 * q <= -2 * n + 1000 < 2000 * q + 2000) by (nonlinear_arith)
            requires q == (-2 * n + 1000) / 2000;
    }
}

} // verus!
