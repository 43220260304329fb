//! The stretch policy: the ranges that modifiers are drawn from, and the
//! size of a picture after a stretch.

use vstd::prelude::*;
use vstd::arithmetic::power2::{lemma2_to64, lemma_pow2_adds, pow2};
use crate::factor::{lemma_units_increase, units_of_bits, units_per_one, FactorRange, ScaleFactor, HIDDEN_BIT};
use crate::mode::StretchType;
use crate::scale::{held_at, lemma_scaled_at_least, lemma_scaled_at_most, rounded_product, scale, scale_wide, scaled_length};

verus! {

/// The binary32 pattern of one half.
pub const HALF_BITS: u32 = 0x3f00_0000;

/// The binary32 pattern of two.
pub const TWO_BITS: u32 = 0x4000_0000;

/// The binary32 pattern nearest to one fifth; it lies a little above it.
pub const FIFTH_BITS: u32 = 0x3e4c_cccd;

/// Whether `range` runs from the number with pattern `low_bits` up to the
/// number with pattern `high_bits`.
pub open spec fn spans(range: FactorRange, low_bits: u32, high_bits: u32) -> bool {
    range.lower().encoding() == low_bits && range.upper().encoding() == high_bits
}

/// What a stretch does: for each axis that it rescales, the range that the
/// modifier of that axis is drawn from.
#[derive(Clone, Copy, Debug)]
pub enum StretchFunction {
    Horizontal { width: FactorRange },
    Vertical { height: FactorRange },
    Both { width: FactorRange, height: FactorRange },
}

/// The size of a `w` by `h` picture after a stretch of kind `mode` with the
/// given modifiers. A modifier for an axis that the mode leaves alone plays
/// no part.
pub open spec fn stretched(
    mode: StretchType,
    w: nat,
    h: nat,
    width_modifier: ScaleFactor,
    height_modifier: ScaleFactor,
) -> (nat, nat) {
    match mode {
        StretchType::Horizontal => (scaled_length(w, width_modifier), h),
        StretchType::Vertical => (w, scaled_length(h, height_modifier)),
        StretchType::Both => (scaled_length(w, width_modifier), scaled_length(h, height_modifier)),
    }
}

/// Stretches the width by `modifier` and keeps the height.
pub fn stretch_horizontal(w: usize, h: usize, modifier: ScaleFactor) -> (r: (usize, usize))
    ensures
        r.0 == scaled_length(w as nat, modifier),
        r.1 == h,
{
    (scale(w, modifier), h)
}

/// Stretches the height by `modifier` and keeps the width.
pub fn stretch_vertical(w: usize, h: usize, modifier: ScaleFactor) -> (r: (usize, usize))
    ensures
        r.0 == w,
        r.1 == scaled_length(h as nat, modifier),
{
    (w, scale(h, modifier))
}

/// Stretches the width by one modifier and the height by another.
pub fn stretch_both(
    w: usize,
    h: usize,
    width_modifier: ScaleFactor,
    height_modifier: ScaleFactor,
) -> (r: (usize, usize))
    ensures
        r.0 == scaled_length(w as nat, width_modifier),
        r.1 == scaled_length(h as nat, height_modifier),
{
    (scale(w, width_modifier), scale(h, height_modifier))
}

impl StretchFunction {
    /// The mode that this function carries out.
    pub open spec fn mode(self) -> StretchType {
        match self {
            StretchFunction::Horizontal { .. } => StretchType::Horizontal,
            StretchFunction::Vertical { .. } => StretchType::Vertical,
            StretchFunction::Both { .. } => StretchType::Both,
        }
    }

    /// The range of the width modifier, where the width is stretched.
    pub open spec fn width_span(self) -> Option<FactorRange> {
        match self {
            StretchFunction::Horizontal { width } => Some(width),
            StretchFunction::Vertical { .. } => None,
            StretchFunction::Both { width, .. } => Some(width),
        }
    }

    /// The range of the height modifier, where the height is stretched.
    pub open spec fn height_span(self) -> Option<FactorRange> {
        match self {
            StretchFunction::Horizontal { .. } => None,
            StretchFunction::Vertical { height } => Some(height),
            StretchFunction::Both { height, .. } => Some(height),
        }
    }

    /// Whether each modifier that the function uses lies in its range.
    pub open spec fn admits(self, width_modifier: ScaleFactor, height_modifier: ScaleFactor) -> bool {
        &&& self.width_span() matches Some(range) ==> range.holds(width_modifier)
        &&& self.height_span() matches Some(range) ==> range.holds(height_modifier)
    }

    /// The range to draw the width modifier from; `None` where the width is
    /// not stretched and no modifier is needed.
    pub fn width_range(&self) -> (r: Option<FactorRange>)
        ensures
            r == self.width_span(),
    {
        match self {
            StretchFunction::Horizontal { width } => Some(*width),
            StretchFunction::Vertical { .. } => None,
            StretchFunction::Both { width, .. } => Some(*width),
        }
    }

    /// The range to draw the height modifier from; `None` where the height
    /// is not stretched and no modifier is needed.
    pub fn height_range(&self) -> (r: Option<FactorRange>)
        ensures
            r == self.height_span(),
    {
        match self {
            StretchFunction::Horizontal { .. } => None,
            StretchFunction::Vertical { height } => Some(*height),
            StretchFunction::Both { height, .. } => Some(*height),
        }
    }

    /// Runs the function on a `w` by `h` picture with the modifiers that
    /// were drawn for it.
    pub fn apply(
        &self,
        w: usize,
        h: usize,
        width_modifier: ScaleFactor,
        height_modifier: ScaleFactor,
    ) -> (r: (usize, usize))
        ensures
            (r.0 as nat, r.1 as nat) == stretched(self.mode(), w as nat, h as nat, width_modifier, height_modifier),
    {
        match self {
            StretchFunction::Horizontal { .. } => stretch_horizontal(w, h, width_modifier),
            StretchFunction::Vertical { .. } => stretch_vertical(w, h, height_modifier),
            StretchFunction::Both { .. } => stretch_both(w, h, width_modifier, height_modifier),
        }
    }
}

impl StretchType {
    /// Whether `function` is the stretch function of this mode: it stretches
    /// the mode's axes, the width by a modifier from one half up to two, the
    /// height by one from the same range, or from one fifth up to two where
    /// both axes are stretched.
    pub open spec fn has_function(self, function: StretchFunction) -> bool {
        match self {
            StretchType::Horizontal => {
                &&& function matches StretchFunction::Horizontal { width }
                &&& spans(width, HALF_BITS, TWO_BITS)
            },
            StretchType::Vertical => {
                &&& function matches StretchFunction::Vertical { height }
                &&& spans(height, HALF_BITS, TWO_BITS)
            },
            StretchType::Both => {
                &&& function matches StretchFunction::Both { width, height }
                &&& spans(width, HALF_BITS, TWO_BITS)
                &&& spans(height, FIFTH_BITS, TWO_BITS)
            },
        }
    }

    /// The stretch function of this mode.
    pub fn to_stretch_function(&self) -> (function: StretchFunction)
        ensures
            self.has_function(function),
            function.mode() == *self,
    {
        let half: ScaleFactor = ScaleFactor::from_bits(HALF_BITS).unwrap();
        let two: ScaleFactor = ScaleFactor::from_bits(TWO_BITS).unwrap();
        proof {
            lemma_units_increase(HALF_BITS, TWO_BITS);
            lemma_units_increase(FIFTH_BITS, TWO_BITS);
        }
        let usual: FactorRange = FactorRange::new(half, two).unwrap();
        match self {
            StretchType::Horizontal => StretchFunction::Horizontal { width: usual },
            StretchType::Vertical => StretchFunction::Vertical { height: usual },
            StretchType::Both => {
                let fifth: ScaleFactor = ScaleFactor::from_bits(FIFTH_BITS).unwrap();
                let long: FactorRange = FactorRange::new(fifth, two).unwrap();
                StretchFunction::Both { width: usual, height: long }
            },
        }
    }
}

/// The size of a `width` by `height` picture after a stretch of kind `mode`
/// with the modifiers that were drawn for it. The same arguments always give
/// the same size.
pub fn compute(
    mode: StretchType,
    width: usize,
    height: usize,
    width_modifier: ScaleFactor,
    height_modifier: ScaleFactor,
) -> (r: (usize, usize))
    ensures
        (r.0 as nat, r.1 as nat) == stretched(mode, width as nat, height as nat, width_modifier, height_modifier),
        mode == StretchType::Horizontal ==> r.1 == height,
        mode == StretchType::Vertical ==> r.0 == width,
{
    mode.to_stretch_function().apply(width, height, width_modifier, height_modifier)
}

/// A length as a resampling target: at least one pixel, since no picture
/// is zero pixels wide or high.
pub open spec fn at_least_one(length: nat) -> nat {
    if length == 0 {
        1
    } else {
        length
    }
}

/// The size of a `w` by `h` picture after a stretch of kind `mode`, each
/// stretched length the rounded product itself, however large.
pub open spec fn stretched_exactly(
    mode: StretchType,
    w: nat,
    h: nat,
    width_modifier: ScaleFactor,
    height_modifier: ScaleFactor,
) -> (nat, nat) {
    match mode {
        StretchType::Horizontal => (rounded_product(w, width_modifier), h),
        StretchType::Vertical => (w, rounded_product(h, height_modifier)),
        StretchType::Both => (rounded_product(w, width_modifier), rounded_product(h, height_modifier)),
    }
}

/// The size to resample a `width` by `height` picture to for a stretch of
/// kind `mode`: the stretched size with each length raised to one pixel
/// where it came out as zero, or `None` where a length is beyond `u32::MAX`.
pub open spec fn resize_target(
    mode: StretchType,
    width: u32,
    height: u32,
    width_modifier: ScaleFactor,
    height_modifier: ScaleFactor,
) -> Option<(u32, u32)> {
    let (w, h) = stretched_exactly(mode, width as nat, height as nat, width_modifier, height_modifier);
    if at_least_one(w) <= u32::MAX && at_least_one(h) <= u32::MAX {
        Some((at_least_one(w) as u32, at_least_one(h) as u32))
    } else {
        None
    }
}

/// The size to resample a `width` by `height` picture to, both lengths
/// positive, for a stretch of kind `mode` with the modifiers that were drawn
/// for it; `None` where the stretched picture would be wider or higher than
/// `u32::MAX` pixels.
pub fn target_size(
    mode: StretchType,
    width: u32,
    height: u32,
    width_modifier: ScaleFactor,
    height_modifier: ScaleFactor,
) -> (r: Option<(u32, u32)>)
    ensures
        r == resize_target(mode, width, height, width_modifier, height_modifier),
        r matches Some(target) ==> target.0 >= 1 && target.1 >= 1,
{
    let (w, h): (u64, u64) = match mode {
        StretchType::Horizontal => (scale_wide(width as u64, width_modifier), height as u64),
        StretchType::Vertical => (width as u64, scale_wide(height as u64, height_modifier)),
        StretchType::Both => (
            scale_wide(width as u64, width_modifier),
            scale_wide(height as u64, height_modifier),
        ),
    };
    let w: u64 = if w == 0 { 1 } else { w };
    let h: u64 = if h == 0 { 1 } else { h };
    if w <= u32::MAX as u64 && h <= u32::MAX as u64 {
        Some((w as u32, h as u32))
    } else {
        None
    }
}

/// Where no stretched length passes `usize::MAX`, the size that `compute`
/// gives is the exact one; where one does, `compute` holds it there.
pub proof fn lemma_stretched_is_held(
    mode: StretchType,
    w: usize,
    h: usize,
    width_modifier: ScaleFactor,
    height_modifier: ScaleFactor,
)
    ensures
        ({
            let exact = stretched_exactly(mode, w as nat, h as nat, width_modifier, height_modifier);
            stretched(mode, w as nat, h as nat, width_modifier, height_modifier) == (
                held_at(exact.0, usize::MAX as nat),
                held_at(exact.1, usize::MAX as nat),
            )
        }),
{
}

/// What the ends of the ranges are worth: one half, two, and a number that
/// is no less than one fifth.
pub proof fn lemma_range_ends()
    ensures
        2 * units_of_bits(HALF_BITS) == units_per_one(),
        units_of_bits(TWO_BITS) == 2 * units_per_one(),
        5 * units_of_bits(FIFTH_BITS) >= units_per_one(),
{
    lemma2_to64();
    assert(HALF_BITS as nat / HIDDEN_BIT as nat == 126 && HALF_BITS as nat % HIDDEN_BIT as nat == 0);
    assert(TWO_BITS as nat / HIDDEN_BIT as nat == 128 && TWO_BITS as nat % HIDDEN_BIT as nat == 0);
    assert(FIFTH_BITS as nat / HIDDEN_BIT as nat == 124 && FIFTH_BITS as nat % HIDDEN_BIT as nat
        == 0x4c_cccd);
    lemma_pow2_adds(24, 125);
    lemma_pow2_adds(2, 125);
    lemma_pow2_adds(26, 123);
    let (p123, p125) = (pow2(123), pow2(125));
    assert(2 * (0x80_0000 * p125) == 0x100_0000 * p125) by (nonlinear_arith);
    assert(0x80_0000 * (4 * p125) == 2 * (0x100_0000 * p125)) by (nonlinear_arith);
    assert(5 * ((0x80_0000 + 0x4c_cccd) * p123) >= 0x400_0000 * p123) by (nonlinear_arith);
}

/// A stretch with modifiers from the ranges of its mode keeps each stretched
/// length between the ends of its range times the old length, give or take
/// a pixel for the rounding: from half to twice the old length, and from a
/// fifth to twice the old height where both axes are stretched. The second
/// line of each case is the same bound without the pixel to spare, which the
/// rounding to the nearest whole number does not need.
pub proof fn lemma_stretch_within_range(
    mode: StretchType,
    function: StretchFunction,
    w: usize,
    h: usize,
    width_modifier: ScaleFactor,
    height_modifier: ScaleFactor,
)
    requires
        mode.has_function(function),
        function.admits(width_modifier, height_modifier),
    ensures
        ({
            let (new_w, new_h) = stretched(mode, w as nat, h as nat, width_modifier, height_modifier);
            &&& mode != StretchType::Vertical ==> {
                &&& w <= 2 * new_w + 2 && new_w <= 2 * w + 1
                &&& w <= 2 * new_w && new_w <= 2 * w
            }
            &&& mode == StretchType::Vertical ==> {
                &&& h <= 2 * new_h + 2 && new_h <= 2 * h + 1
                &&& h <= 2 * new_h && new_h <= 2 * h
            }
            &&& mode == StretchType::Both ==> {
                &&& h <= 5 * new_h + 5 && new_h <= 2 * h + 1
                &&& h <= 5 * new_h + 2 && new_h <= 2 * h
            }
        }),
{
    lemma_range_ends();
    if mode != StretchType::Vertical {
        lemma_scaled_from_half(w as nat, width_modifier);
    }
    if mode == StretchType::Vertical {
        lemma_scaled_from_half(h as nat, height_modifier);
    }
    if mode == StretchType::Both {
        lemma_scaled_from_fifth(h as nat, height_modifier);
    }
}

/// A factor from one half up to two scales `dim` to no less than half of
/// it and to no more than twice of it.
pub proof fn lemma_scaled_from_half(dim: nat, factor: ScaleFactor)
    requires
        dim <= usize::MAX,
        2 * factor@ >= units_per_one(),
        factor@ <= 2 * units_per_one(),
    ensures
        dim <= 2 * scaled_length(dim, factor),
        scaled_length(dim, factor) <= 2 * dim,
{
    let new_dim = scaled_length(dim, factor);
    lemma_scaled_at_least(dim, factor, 1, 2);
    lemma_scaled_at_most(dim, factor, 2, 1);
    assert(dim <= 2 * new_dim && new_dim <= 2 * dim) by (nonlinear_arith)
        requires
            2 * 2 * new_dim + 2 > 2 * 1 * dim,
            2 * 1 * new_dim <= 2 * 2 * dim + 1,
    ;
}

/// A factor from one fifth up to two scales `dim` to no less than a fifth
/// of it less one half, and to no more than twice of it.
pub proof fn lemma_scaled_from_fifth(dim: nat, factor: ScaleFactor)
    requires
        dim <= usize::MAX,
        5 * factor@ >= units_per_one(),
        factor@ <= 2 * units_per_one(),
    ensures
        dim <= 5 * scaled_length(dim, factor) + 2,
        scaled_length(dim, factor) <= 2 * dim,
{
    let new_dim = scaled_length(dim, factor);
    lemma_scaled_at_least(dim, factor, 1, 5);
    lemma_scaled_at_most(dim, factor, 2, 1);
    assert(dim <= 5 * new_dim + 2 && new_dim <= 2 * dim) by (nonlinear_arith)
        requires
            2 * 5 * new_dim + 5 > 2 * 1 * dim,
            2 * 1 * new_dim <= 2 * 2 * dim + 1,
    ;
}

} // verus!
