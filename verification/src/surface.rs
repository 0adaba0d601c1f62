//! The drawable surface and the device pixel ratio that sizes it.

use vstd::prelude::*;

verus! {

/// The number of parts that make up a ratio of one.
pub const RATIO_UNIT: u32 = 1_000_000;

/// The tab index that makes the surface focusable.
pub const SURFACE_TAB_INDEX: i32 = 1;

/// Device pixels per logical pixel, in millionths: a value of
/// `RATIO_UNIT` is a ratio of one.
#[derive(Clone, Copy, Debug, PartialEq, Eq, Structural)]
pub struct PixelRatio {
    pub millionths: u32,
}

/// What is known of the surface the application draws into.
#[derive(Clone, Copy, Debug, PartialEq, Eq, Structural)]
pub struct Surface {
    /// Width in device pixels.
    pub width: u32,
    /// Height in device pixels.
    pub height: u32,
    pub tab_index: i32,
    pub cursor_visible: bool,
    /// Client x coordinate of the top-left corner.
    pub left: i32,
    /// Client y coordinate of the top-left corner.
    pub top: i32,
}

/// `extent` logical pixels in device pixels at `ratio`: the product,
/// rounded to the nearest whole number, halves upwards.
pub open spec fn scaled(ratio: PixelRatio, extent: u32) -> int {
    (ratio.millionths * extent + RATIO_UNIT / 2) / (RATIO_UNIT as int)
}

/// `scaled` differs from the exact product by at most half a pixel.
pub proof fn lemma_scaled_is_nearest(ratio: PixelRatio, extent: u32)
    ensures
        0 <= scaled(ratio, extent),
        -RATIO_UNIT <= 2 * (ratio.millionths * extent - scaled(ratio, extent) * RATIO_UNIT)
            < RATIO_UNIT,
{
    let product: int = ratio.millionths * extent;
    assert(0 <= product) by (nonlinear_arith)
        requires
            product == ratio.millionths * extent,
    ;
}

/// A whole ratio scales by plain multiplication.
pub proof fn lemma_scaled_whole(factor: u32, extent: u32)
    requires
        factor * RATIO_UNIT <= u32::MAX,
    ensures
        scaled(PixelRatio { millionths: (factor * RATIO_UNIT) as u32 }, extent) == factor
            * extent,
{
    let whole: int = factor * extent;
    assert((factor * RATIO_UNIT) * extent == whole * RATIO_UNIT) by (nonlinear_arith)
        requires
            whole == factor * extent,
    ;
    assert(0 <= whole) by (nonlinear_arith)
        requires
            whole == factor * extent,
    ;
}

impl PixelRatio {
    /// The ratio of one device pixel per logical pixel.
    pub fn one() -> (ratio: PixelRatio)
        ensures
            ratio.millionths == RATIO_UNIT,
    {
        PixelRatio { millionths: RATIO_UNIT }
    }

    /// `extent` logical pixels in device pixels, or `None` where that
    /// number does not fit the 32 bits a surface dimension has.
    pub fn scale(self, extent: u32) -> (px: Option<u32>)
        ensures
            px == if scaled(self, extent) <= u32::MAX {
                Some(scaled(self, extent) as u32)
            } else {
                None::<u32>
            },
    {
        assert(self.millionths * extent <= 0xFFFF_FFFF * 0xFFFF_FFFF) by (nonlinear_arith)
            requires
                0 <= self.millionths <= 0xFFFF_FFFF,
                0 <= extent <= 0xFFFF_FFFF,
        ;
        assert(0 <= self.millionths * extent) by (nonlinear_arith)
            requires
                0 <= self.millionths,
                0 <= extent,
        ;
        let product: u64 = (self.millionths as u64) * (extent as u64);
        let rounded: u64 = (product + (RATIO_UNIT / 2) as u64) / (RATIO_UNIT as u64);
        if rounded <= u32::MAX as u64 {
            Some(rounded as u32)
        } else {
            None
        }
    }
}

} // verus!
