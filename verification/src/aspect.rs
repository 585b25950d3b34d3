//! Keeping a window at the target aspect ratio of 5 : 2.
//!
//! A size is compared with the target ratio exactly. All comparisons of
//! `width / height` with `5 / 2` are cleared of fractions, so they are
//! statements about integers: with `excess = 2 * width - 5 * height`,
//!
//! * `width / height > 5 / 2` is `excess > 0`,
//! * `|width / height - 5 / 2| < 1 / 100` is `50 * |excess| < height`.
//!
//! A height of zero is never within tolerance; it counts as too wide unless
//! the width is zero as well.

use vstd::prelude::*;

verus! {

/// Numerator of the target ratio `width / height`.
pub const RATIO_WIDTH: u64 = 5;

/// Denominator of the target ratio `width / height`.
pub const RATIO_HEIGHT: u64 = 2;

/// A size counts as compliant when its ratio is closer to the target than
/// one part in `TOLERANCE_PARTS`.
pub const TOLERANCE_PARTS: u64 = 100;

/// A correction taller than this many pixels is within tolerance. Cutting a
/// height down leaves at most `RATIO_WIDTH - 1` units of [`excess`], which
/// the tolerance absorbs from this height on.
pub const SETTLED_HEIGHT: u32 = 200;

/// A corrected width at a height above this many pixels is within tolerance.
/// Cutting a width down leaves at most one unit of [`excess`].
pub const NARROW_SETTLED_HEIGHT: u32 = 50;

/// The size of a window in device pixels.
#[derive(Clone, Copy, Debug, PartialEq, Eq, Structural)]
pub struct Size {
    pub width: u32,
    pub height: u32,
}

/// `RATIO_HEIGHT * width - RATIO_WIDTH * height`. It is positive, zero or
/// negative as `width / height` is above, at or below the target ratio, and
/// for a fixed height its magnitude grows with the distance from the target.
pub open spec fn excess(s: Size) -> int {
    RATIO_HEIGHT * s.width - RATIO_WIDTH * s.height
}

/// The magnitude of [`excess`].
pub open spec fn deviation(s: Size) -> nat {
    if excess(s) >= 0 {
        excess(s) as nat
    } else {
        (-excess(s)) as nat
    }
}

/// The ratio of `s` lies strictly above the target.
pub open spec fn too_wide(s: Size) -> bool {
    excess(s) > 0
}

/// The ratio of `s` differs from the target by less than the tolerance:
/// `|width / height - 5 / 2| < 1 / 100`, multiplied through by
/// `100 * 2 * height`.
pub open spec fn within_tolerance(s: Size) -> bool {
    TOLERANCE_PARTS * deviation(s) < RATIO_HEIGHT * s.height
}

/// The widest width that does not exceed the target ratio at `height`:
/// `floor(height * 5 / 2)`.
pub open spec fn width_for(height: int) -> int {
    (RATIO_WIDTH * height) / (RATIO_HEIGHT as int)
}

/// The tallest height that does not exceed `width * 2 / 5`:
/// `floor(width * 2 / 5)`.
pub open spec fn height_for(width: int) -> int {
    (RATIO_HEIGHT * width) / (RATIO_WIDTH as int)
}

/// The size a window of size `s` should take, or `None` when `s` is
/// compliant. A window that is too wide keeps its height and loses width; any
/// other keeps its width and loses height.
pub open spec fn correction(s: Size) -> Option<Size> {
    if within_tolerance(s) {
        None
    } else if too_wide(s) {
        Some(Size { width: width_for(s.height as int) as u32, height: s.height })
    } else {
        Some(Size { width: s.width, height: height_for(s.width as int) as u32 })
    }
}

/// The ratio of `s` lies below the target by more than the tolerance:
/// `width / height < 5 / 2 - 1 / 100`, multiplied through by
/// `100 * 2 * height`.
pub open spec fn below_tolerance(s: Size) -> bool {
    TOLERANCE_PARTS * excess(s) < -(RATIO_HEIGHT * s.height)
}

/// Computes the size that brings `observed` back to the target ratio.
///
/// Returns `None` exactly when `observed` is within tolerance. Otherwise one
/// dimension is kept and the other is cut down, never enlarged, to the largest
/// whole number of pixels that does not overshoot the target.
pub fn correct_size(observed: Size) -> (corrected: Option<Size>)
    ensures
        corrected == correction(observed),
        match corrected {
            None => within_tolerance(observed),
            Some(s) => {
                &&& !within_tolerance(observed)
                &&& s.width <= observed.width
                &&& s.height <= observed.height
                &&& too_wide(observed) ==> s.height == observed.height && s.width == width_for(
                    observed.height as int,
                )
                &&& !too_wide(observed) ==> s.width == observed.width && s.height == height_for(
                    observed.width as int,
                )
            },
        },
{
    let width: u64 = observed.width as u64;
    let height: u64 = observed.height as u64;
    let scaled_width: u64 = RATIO_HEIGHT * width;
    let scaled_height: u64 = RATIO_WIDTH * height;
    let wide: bool = scaled_width > scaled_height;
    let gap: u64 = if wide {
        scaled_width - scaled_height
    } else {
        scaled_height - scaled_width
    };
    if TOLERANCE_PARTS * gap < RATIO_HEIGHT * height {
        None
    } else if wide {
        Some(Size { width: (scaled_height / RATIO_HEIGHT) as u32, height: observed.height })
    } else {
        Some(Size { width: observed.width, height: (scaled_width / RATIO_WIDTH) as u32 })
    }
}

/// A size within tolerance is left alone.
pub proof fn lemma_compliant_size_is_kept(s: Size)
    requires
        within_tolerance(s),
    ensures
        correction(s) is None,
{
}

/// A size that is too wide, and not within tolerance, keeps its height and
/// takes the width `floor(height * 5 / 2)`.
///
/// The new width is smaller than the old one, so the ratio has gone down; it
/// has not gone below the target by more than the rounding of one pixel, so
/// the corrected size is no longer too wide and is at least as close to the
/// target as the observed one. It is strictly closer unless the observed
/// width was the smallest that is too wide at an odd height (`excess == 1`),
/// where rounding down leaves it as far below the target as it was above.
pub proof fn lemma_wide_size_is_narrowed(s: Size)
    requires
        too_wide(s),
        !within_tolerance(s),
    ensures
        correction(s) matches Some(r) && {
            &&& r.height == s.height
            &&& r.width == width_for(s.height as int)
            &&& r.width < s.width
            &&& !too_wide(r)
            &&& deviation(r) <= 1
            &&& deviation(r) <= deviation(s)
            &&& excess(s) != 1 ==> deviation(r) < deviation(s)
        },
{
}

/// A size whose ratio is below the target by more than the tolerance keeps
/// its width and takes the height `floor(width * 2 / 5)`.
pub proof fn lemma_tall_size_is_shortened(s: Size)
    requires
        below_tolerance(s),
    ensures
        correction(s) matches Some(r) && {
            &&& r.width == s.width
            &&& r.height == height_for(s.width as int)
            &&& r.height <= s.height
            &&& !too_wide(s)
        },
{
}

/// A correction never enlarges a window, and it changes one dimension only.
pub proof fn lemma_correction_shrinks(s: Size)
    ensures
        correction(s) matches Some(r) ==> {
            &&& r.width <= s.width
            &&& r.height <= s.height
            &&& r.width == s.width || r.height == s.height
        },
{
}

/// Once a correction is taller than `SETTLED_HEIGHT` pixels it is within
/// tolerance: applying it does not call for another correction.
pub proof fn lemma_tall_correction_is_compliant(s: Size)
    requires
        correction(s) matches Some(r) && r.height > SETTLED_HEIGHT,
    ensures
        correction(s) matches Some(r) && within_tolerance(r) && correction(r) is None,
{
}

/// Corrections settle: when the first correction is taller than
/// `NARROW_SETTLED_HEIGHT` pixels, either it is within tolerance or the
/// correction of it is.
pub proof fn lemma_correction_settles(s: Size)
    requires
        correction(s) matches Some(r) && r.height > NARROW_SETTLED_HEIGHT,
    ensures
        correction(s) matches Some(r) && (correction(r) matches Some(t) ==> {
            &&& too_wide(r)
            &&& t.height == r.height
            &&& within_tolerance(t)
        }),
{
}

} // verus!
