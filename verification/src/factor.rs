//! Scale factors: non-negative binary fractions with 149 fractional bits,
//! carried in the IEEE 754 binary32 encoding.

use vstd::prelude::*;
use vstd::arithmetic::power2::{lemma2_to64, lemma_pow2_adds, lemma_pow2_pos, lemma_pow2_strictly_increases, pow2};

verus! {

/// Smallest bit pattern that is not a finite, non-negative binary32 number:
/// positive infinity. Everything above is a NaN or carries the sign bit.
pub const INFINITY_BITS: u32 = 0x7f80_0000;

/// Weight of the lowest exponent bit in a binary32 pattern, and the value of
/// the implicit leading bit of a normal significand.
pub const HIDDEN_BIT: u32 = 0x80_0000;

/// The binary32 pattern of one.
pub const ONE_BITS: u32 = 0x3f80_0000;

/// How many units make one: a factor counts in steps of `2^-149`, the
/// distance between the two smallest binary32 numbers.
pub open spec fn units_per_one() -> nat {
    pow2(149)
}

/// The number encoded by a binary32 pattern with a clear sign bit and a
/// finite exponent, in units of `2^-149`.
///
/// A subnormal pattern (exponent field zero) is its fraction field; a normal
/// pattern with exponent field `e` is `(2^23 + fraction) * 2^(e - 1)`.
pub open spec fn units_of_bits(bits: u32) -> nat {
    let exponent = bits as nat / HIDDEN_BIT as nat;
    let fraction = bits as nat % HIDDEN_BIT as nat;
    if exponent == 0 {
        fraction
    } else {
        (HIDDEN_BIT as nat + fraction) * pow2((exponent - 1) as nat)
    }
}

/// The significand of a pattern: its fraction field, and the hidden bit
/// where the exponent field is not zero.
pub open spec fn significand_of(bits: u32) -> nat {
    if bits < HIDDEN_BIT {
        bits as nat
    } else {
        HIDDEN_BIT as nat + bits as nat % HIDDEN_BIT as nat
    }
}

/// The power of two by which a pattern's significand is multiplied to give
/// its units.
pub open spec fn shift_of(bits: u32) -> nat {
    if bits < HIDDEN_BIT {
        0
    } else {
        (bits as nat / HIDDEN_BIT as nat - 1) as nat
    }
}

/// A pattern's units are its significand shifted left: the fraction field
/// alone for a subnormal, with the hidden bit on top for a normal number,
/// whose exponent field less one is the shift.
pub proof fn lemma_units_are_shifted_significand(bits: u32)
    ensures
        units_of_bits(bits) == significand_of(bits) * pow2(shift_of(bits)),
        significand_of(bits) < 2 * HIDDEN_BIT,
        bits >= HIDDEN_BIT ==> significand_of(bits) >= HIDDEN_BIT,
{
    lemma2_to64();
    let fraction = bits as nat % HIDDEN_BIT as nat;
    assert(fraction * 1 == fraction);
}

/// The pattern of one encodes one.
pub proof fn lemma_units_of_one()
    ensures
        units_of_bits(ONE_BITS) == units_per_one(),
{
    lemma2_to64();
    lemma_pow2_adds(23, 126);
    assert(ONE_BITS as nat / HIDDEN_BIT as nat == 127);
    assert(ONE_BITS as nat % HIDDEN_BIT as nat == 0);
}

/// Patterns are ordered as the numbers that they encode: the greater
/// pattern stands for the greater number.
pub proof fn lemma_units_increase(a: u32, b: u32)
    requires
        a < b,
    ensures
        units_of_bits(a) < units_of_bits(b),
{
    lemma_units_are_shifted_significand(a);
    lemma_units_are_shifted_significand(b);
    let (sa, sb) = (significand_of(a), significand_of(b));
    let (ka, kb) = (shift_of(a), shift_of(b));
    lemma_pow2_pos(ka);
    lemma_pow2_pos(kb);
    if a / HIDDEN_BIT == b / HIDDEN_BIT {
        assert(sa * pow2(ka) < sb * pow2(kb)) by (nonlinear_arith)
            requires
                sa < sb,
                pow2(ka) == pow2(kb),
                pow2(ka) > 0,
        ;
    } else if a < HIDDEN_BIT {
        lemma2_to64();
        assert(sb * pow2(kb) >= HIDDEN_BIT) by (nonlinear_arith)
            requires
                sb >= HIDDEN_BIT,
                pow2(kb) > 0,
        ;
    } else {
        lemma_pow2_adds(1, ka);
        lemma2_to64();
        if ka + 1 < kb {
            lemma_pow2_strictly_increases(ka + 1, kb);
        }
        assert(sa * pow2(ka) < sb * pow2(kb)) by (nonlinear_arith)
            requires
                sa < 2 * HIDDEN_BIT,
                sb >= HIDDEN_BIT,
                pow2(kb) >= 2 * pow2(ka),
                pow2(ka) > 0,
        ;
    }
}

/// A finite, non-negative multiplier for a pixel count. Its view is its
/// value in units of `2^-149`, so that a factor `f` stands for the number
/// `f@ / 2^149`.
#[derive(Clone, Copy, Debug)]
pub struct ScaleFactor {
    bits: u32,
}

impl View for ScaleFactor {
    type V = nat;

    /// The factor's value in units of `2^-149`.
    open spec fn view(&self) -> nat {
        units_of_bits(self.encoding())
    }
}

impl ScaleFactor {
    /// The binary32 pattern that holds this factor.
    pub closed spec fn encoding(self) -> u32 {
        self.bits
    }

    /// Every factor is finite and not negative.
    #[verifier::type_invariant]
    pub open spec fn wf(self) -> bool {
        self.encoding() < INFINITY_BITS
    }

    /// The factor one, which leaves a length as it is.
    pub fn one() -> (r: ScaleFactor)
        ensures
            r.encoding() == ONE_BITS,
            r@ == units_per_one(),
    {
        proof {
            lemma_units_of_one();
        }
        ScaleFactor { bits: ONE_BITS }
    }

    /// Reads a factor from a binary32 pattern. Negative numbers (negative
    /// zero among them), infinities and NaNs are no factors.
    pub fn from_bits(bits: u32) -> (r: Option<ScaleFactor>)
        ensures
            r is Some <==> bits < INFINITY_BITS,
            r matches Some(f) ==> f.encoding() == bits,
    {
        if bits < INFINITY_BITS {
            Some(ScaleFactor { bits })
        } else {
            None
        }
    }

    /// The binary32 pattern of this factor.
    pub fn to_bits(&self) -> (bits: u32)
        ensures
            bits == self.encoding(),
            bits < INFINITY_BITS,
    {
        proof {
            use_type_invariant(self);
        }
        self.bits
    }
}

/// The half-open range `low .. high` that a factor is drawn from.
#[derive(Clone, Copy, Debug)]
pub struct FactorRange {
    low: ScaleFactor,
    high: ScaleFactor,
}

impl FactorRange {
    /// A range is never empty: its lower end lies below its upper end.
    #[verifier::type_invariant]
    pub open spec fn wf(self) -> bool {
        self.lower().wf() && self.upper().wf() && self.lower()@ < self.upper()@
    }

    /// The lower end, which belongs to the range.
    pub closed spec fn lower(self) -> ScaleFactor {
        self.low
    }

    /// The upper end, which does not.
    pub closed spec fn upper(self) -> ScaleFactor {
        self.high
    }

    /// Whether `factor` lies in the range.
    pub open spec fn holds(self, factor: ScaleFactor) -> bool {
        self.lower()@ <= factor@ < self.upper()@
    }

    /// The range from `low` up to, but not including, `high`; `None` where
    /// that range would be empty.
    pub fn new(low: ScaleFactor, high: ScaleFactor) -> (r: Option<FactorRange>)
        ensures
            r is Some <==> low@ < high@,
            r matches Some(range) ==> range.lower() == low && range.upper() == high,
    {
        let (a, b): (u32, u32) = (low.to_bits(), high.to_bits());
        proof {
            if a < b {
                lemma_units_increase(a, b);
            } else if b < a {
                lemma_units_increase(b, a);
            }
        }
        if a < b {
            Some(FactorRange { low, high })
        } else {
            None
        }
    }

    /// The lower end of the range.
    pub fn low(&self) -> (r: ScaleFactor)
        ensures
            r == self.lower(),
    {
        self.low
    }

    /// The upper end of the range.
    pub fn high(&self) -> (r: ScaleFactor)
        ensures
            r == self.upper(),
    {
        self.high
    }

    /// Whether `factor` lies in the range.
    pub fn contains(&self, factor: ScaleFactor) -> (r: bool)
        ensures
            r == self.holds(factor),
    {
        let (a, b, x): (u32, u32, u32) = (self.low.to_bits(), self.high.to_bits(), factor.to_bits());
        proof {
            if x < a {
                lemma_units_increase(x, a);
            } else if a < x {
                lemma_units_increase(a, x);
            }
            if x < b {
                lemma_units_increase(x, b);
            } else if b < x {
                lemma_units_increase(b, x);
            }
        }
        a <= x && x < b
    }
}

} // verus!
