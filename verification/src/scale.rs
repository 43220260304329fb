//! Scaling a pixel count by a factor, rounded to the nearest whole pixel.

use vstd::prelude::*;
use vstd::arithmetic::div_mod::{lemma_div_multiples_vanish_quotient, lemma_fundamental_div_mod};
use vstd::arithmetic::power2::{lemma_pow2_adds, lemma_pow2_pos, lemma_pow2_strictly_increases, lemma_pow2_unfold, lemma2_to64, lemma2_to64_rest, pow2};
use crate::factor::{lemma_units_are_shifted_significand, units_per_one, ScaleFactor, HIDDEN_BIT};

verus! {

/// The whole number nearest to `num / den`; a tie goes up, which for these
/// non-negative quotients is away from zero.
pub open spec fn nearest(num: nat, den: nat) -> nat {
    (2 * num + den) / (2 * den)
}

/// `dim` scaled by `factor` and rounded to the nearest whole number,
/// however large.
pub open spec fn rounded_product(dim: nat, factor: ScaleFactor) -> nat {
    nearest(dim * factor@, units_per_one())
}

/// `length`, or `limit` where the length is beyond it.
pub open spec fn held_at(length: nat, limit: nat) -> nat {
    if length > limit {
        limit
    } else {
        length
    }
}

/// `dim` scaled by `factor` and rounded to the nearest whole number, or
/// `usize::MAX` where that is beyond it.
pub open spec fn scaled_length(dim: nat, factor: ScaleFactor) -> nat {
    held_at(rounded_product(dim, factor), usize::MAX as nat)
}

/// `2^e` for an exponent that a `u128` can hold.
fn power_of_two(e: u32) -> (r: u128)
    requires
        e < 128,
    ensures
        r == pow2(e as nat),
{
    let mut r: u128 = 1;
    let mut i: u32 = 0;
    proof {
        lemma2_to64();
    }
    while i < e
        invariant
            i <= e,
            e < 128,
            r == pow2(i as nat),
        decreases e - i,
    {
        proof {
            lemma_pow2_unfold((i + 1) as nat);
            lemma_pow2_strictly_increases((i + 1) as nat, 128);
            lemma2_to64_rest();
            lemma_pow2_adds(64, 64);
        }
        r = r * 2;
        i = i + 1;
    }
    r
}

/// Where the shift reaches the unit, the quotient is whole and nothing is
/// rounded.
proof fn lemma_nearest_of_whole(p: nat, k: nat)
    requires
        k >= 149,
    ensures
        nearest(p * pow2(k), units_per_one()) == p * pow2((k - 149) as nat),
{
    let one = pow2(149);
    let whole = p * pow2((k - 149) as nat);
    lemma_pow2_pos(149);
    lemma_pow2_adds((k - 149) as nat, 149);
    assert(p * pow2(k) == whole * one) by (nonlinear_arith)
        requires
            pow2(k) == pow2((k - 149) as nat) * one,
            whole == p * pow2((k - 149) as nat),
    ;
    assert(2 * (whole * one) + one == one * (2 * whole + 1)) by (nonlinear_arith);
    assert(2 * one == one * 2) by (nonlinear_arith);
    lemma_div_multiples_vanish_quotient(one as int, (2 * whole + 1) as int, 2);
}

/// Below the unit, the common power of two cancels and the rounding is
/// decided on the remaining `149 - k` bits.
proof fn lemma_nearest_of_fraction(p: nat, k: nat)
    requires
        k < 149,
    ensures
        nearest(p * pow2(k), units_per_one()) == nearest(p, pow2((149 - k) as nat)),
{
    let common = pow2(k);
    let rest = pow2((149 - k) as nat);
    lemma_pow2_pos(k);
    lemma_pow2_pos((149 - k) as nat);
    lemma_pow2_adds(k, (149 - k) as nat);
    assert(2 * (p * common) + common * rest == common * (2 * p + rest)) by (nonlinear_arith);
    assert(2 * (common * rest) == common * (2 * rest)) by (nonlinear_arith);
    lemma_div_multiples_vanish_quotient(common as int, (2 * p + rest) as int, (2 * rest) as int);
}

/// Scales `dim` by `factor`: the product rounded to the nearest whole
/// number, a tie away from zero, and held at `usize::MAX` where it would
/// pass it.
pub fn scale(dim: usize, factor: ScaleFactor) -> (r: usize)
    ensures
        r == scaled_length(dim as nat, factor),
{
    let wide: u64 = scale_wide(dim as u64, factor);
    if wide > usize::MAX as u64 {
        usize::MAX
    } else {
        wide as usize
    }
}

/// Scales `dim` by `factor` as `scale` does, with room for every length
/// that a picture can have: the product rounded to the nearest whole number
/// and held at `u64::MAX`.
pub fn scale_wide(dim: u64, factor: ScaleFactor) -> (r: u64)
    ensures
        r == held_at(rounded_product(dim as nat, factor), u64::MAX as nat),
{
    let bits: u32 = factor.to_bits();
    let significand: u32 = if bits < HIDDEN_BIT { bits } else { HIDDEN_BIT + bits % HIDDEN_BIT };
    let shift: u32 = if bits < HIDDEN_BIT { 0 } else { bits / HIDDEN_BIT - 1 };
    assert(dim * significand < 0x100_0000_0000_0000_0000_0000) by (nonlinear_arith)
        requires
            dim <= 0xffff_ffff_ffff_ffff,
            significand < 0x100_0000,
    ;
    let product: u128 = (dim as u128) * (significand as u128);
    proof {
        lemma_units_are_shifted_significand(bits);
        assert(dim as nat * factor@ == product as nat * pow2(shift as nat)) by (nonlinear_arith)
            requires
                factor@ == significand as nat * pow2(shift as nat),
                product == dim as nat * significand as nat,
        ;
        lemma2_to64();
        lemma2_to64_rest();
    }
    if shift >= 149 {
        let up: u32 = shift - 149;
        proof {
            lemma_nearest_of_whole(product as nat, shift as nat);
            lemma_pow2_pos(up as nat);
        }
        if product == 0 {
            assert(product as nat * pow2(up as nat) == 0) by (nonlinear_arith)
                requires
                    product == 0,
            ;
            0
        } else if up >= 64 {
            proof {
                if up > 64 {
                    lemma_pow2_strictly_increases(64, up as nat);
                }
                assert(product as nat * pow2(up as nat) >= pow2(up as nat)) by (nonlinear_arith)
                    requires
                        product >= 1,
                ;
            }
            u64::MAX
        } else {
            proof {
                lemma_pow2_strictly_increases(up as nat, 64);
            }
            let multiplier: u128 = power_of_two(up);
            let limit: u128 = (u64::MAX as u128) / multiplier;
            proof {
                lemma_fundamental_div_mod(u64::MAX as int, multiplier as int);
            }
            if product > limit {
                assert(product * multiplier > u64::MAX) by (nonlinear_arith)
                    requires
                        product >= limit + 1,
                        multiplier > 0,
                        u64::MAX == multiplier * limit + (u64::MAX as int % multiplier as int),
                        (u64::MAX as int % multiplier as int) < multiplier,
                ;
                u64::MAX
            } else {
                assert(product * multiplier <= u64::MAX) by (nonlinear_arith)
                    requires
                        product <= limit,
                        multiplier > 0,
                        u64::MAX == multiplier * limit + (u64::MAX as int % multiplier as int),
                        0 <= (u64::MAX as int % multiplier as int),
                ;
                (product * multiplier) as u64
            }
        }
    } else {
        let down: u32 = 149 - shift;
        proof {
            lemma_nearest_of_fraction(product as nat, shift as nat);
            lemma_pow2_pos(down as nat);
        }
        if down >= 90 {
            proof {
                lemma_pow2_adds(64, 25);
                if down > 89 {
                    lemma_pow2_strictly_increases(89, down as nat);
                }
                let rest = pow2(down as nat);
                assert((2 * product + rest) / (2 * rest as int) == 0) by (nonlinear_arith)
                    requires
                        0 <= 2 * product < rest,
                ;
            }
            0
        } else {
            proof {
                lemma_pow2_adds(64, 25);
                lemma_pow2_strictly_increases(down as nat, 90);
                lemma_pow2_adds(64, 26);
            }
            let rest: u128 = power_of_two(down);
            let rounded: u128 = (2 * product + rest) / (2 * rest);
            if rounded > u64::MAX as u128 {
                u64::MAX
            } else {
                rounded as u64
            }
        }
    }
}

/// `nearest` deserves its name: the result lies within one half of the
/// quotient, and of two whole numbers at that distance it is the upper one.
pub proof fn lemma_nearest_within_half(num: nat, den: nat)
    requires
        den > 0,
    ensures
        2 * nearest(num, den) * den <= 2 * num + den,
        2 * num + den < 2 * nearest(num, den) * den + 2 * den,
{
    let r = nearest(num, den);
    lemma_fundamental_div_mod((2 * num + den) as int, (2 * den) as int);
    let rem = (2 * num + den) as int % (2 * den) as int;
    assert(2 * r * den == (2 * den) * r) by (nonlinear_arith);
}

/// Scaling by one changes nothing.
pub proof fn lemma_scaled_by_one(dim: nat, factor: ScaleFactor)
    requires
        factor@ == units_per_one(),
        dim <= usize::MAX,
    ensures
        scaled_length(dim, factor) == dim,
{
    let one = units_per_one();
    lemma_pow2_pos(149);
    assert(2 * (dim * one) + one == one * (2 * dim + 1)) by (nonlinear_arith);
    assert(2 * one == one * 2) by (nonlinear_arith);
    lemma_div_multiples_vanish_quotient(one as int, (2 * dim + 1) as int, 2);
}

/// A factor of at least `num / den`, a ratio of at most one, scales `dim`
/// to no less than `dim * num / den` less one half.
pub proof fn lemma_scaled_at_least(dim: nat, factor: ScaleFactor, num: nat, den: nat)
    requires
        0 < den,
        num <= den,
        dim <= usize::MAX,
        den * factor@ >= num * units_per_one(),
    ensures
        2 * den * scaled_length(dim, factor) + den > 2 * num * dim,
{
    let one = units_per_one();
    let exact = nearest(dim * factor@, one);
    lemma_pow2_pos(149);
    lemma_nearest_within_half(dim * factor@, one);
    assert(2 * den * exact + den > 2 * num * dim) by (nonlinear_arith)
        requires
            one > 0,
            den > 0,
            den * factor@ >= num * one,
            2 * (dim * factor@) + one < 2 * exact * one + 2 * one,
    ;
    if exact > usize::MAX {
        assert(2 * den * usize::MAX >= 2 * num * dim) by (nonlinear_arith)
            requires
                num <= den,
                dim <= usize::MAX,
        ;
    }
}

/// A factor of at most `num / den` scales `dim` to no more than
/// `dim * num / den` and one half.
pub proof fn lemma_scaled_at_most(dim: nat, factor: ScaleFactor, num: nat, den: nat)
    requires
        0 < den,
        den * factor@ <= num * units_per_one(),
    ensures
        2 * den * scaled_length(dim, factor) <= 2 * num * dim + den,
{
    let one = units_per_one();
    let exact = nearest(dim * factor@, one);
    lemma_pow2_pos(149);
    lemma_nearest_within_half(dim * factor@, one);
    assert(2 * den * exact <= 2 * num * dim + den) by (nonlinear_arith)
        requires
            one > 0,
            den > 0,
            den * factor@ <= num * one,
            2 * exact * one <= 2 * (dim * factor@) + one,
    ;
    if exact > usize::MAX {
        assert(2 * den * usize::MAX <= 2 * den * exact) by (nonlinear_arith)
            requires
                usize::MAX < exact,
                den > 0,
        ;
    }
}

/// A greater factor never gives a smaller result.
pub proof fn lemma_scaled_is_monotone(dim: nat, small: ScaleFactor, large: ScaleFactor)
    requires
        small@ <= large@,
    ensures
        scaled_length(dim, small) <= scaled_length(dim, large),
{
    let one = units_per_one();
    lemma_pow2_pos(149);
    assert(2 * (dim * small@) + one <= 2 * (dim * large@) + one) by (nonlinear_arith)
        requires
            small@ <= large@,
    ;
    vstd::arithmetic::div_mod::lemma_div_is_ordered(
        (2 * (dim * small@) + one) as int,
        (2 * (dim * large@) + one) as int,
        (2 * one) as int,
    );
}

} // verus!
