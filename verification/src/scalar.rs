use vstd::prelude::*;

verus! {

/// Denominator of the fixed-point representation: a finite scalar with raw
/// value `v` denotes the real number `v / 65536`.
pub const SCALE: i64 = 65536;

/// Largest raw magnitude a finite scalar may take after an arithmetic
/// operation; results beyond it overflow to an infinity, mirroring how
/// floating-point arithmetic saturates.
pub const RAW_MAX: i64 = 0x7fff_ffff_ffff_ffff;

/// A one-dimensional coordinate or length.
///
/// The numeric tower of this crate: a scalar is either a finite fixed-point
/// number (sixteen fractional bits), one of the two infinities, or the
/// not-a-number marker. Infinities and `NaN` propagate through arithmetic the
/// way their floating-point counterparts do, so geometry with corrupted or
/// unbounded coordinates can be represented and later rejected by the
/// finiteness predicates.
#[derive(Clone, Copy, Debug, PartialEq, Eq, Structural)]
pub enum Scalar {
    /// A finite value, counted in units of `1 / 65536`.
    Finite(i64),
    /// Positive infinity.
    PosInf,
    /// Negative infinity.
    NegInf,
    /// Not a number; never equal to any value under [`Scalar::same_value`].
    NaN,
}

/// Saturates an unbounded raw result into the scalar range: magnitudes above
/// [`RAW_MAX`] overflow to the infinity of the matching sign.
pub open spec fn clamp_raw(v: int) -> Scalar {
    if v > RAW_MAX as int {
        Scalar::PosInf
    } else if v < -(RAW_MAX as int) {
        Scalar::NegInf
    } else {
        Scalar::Finite(v as i64)
    }
}

/// Truncating division of a doubled-precision product back to sixteen
/// fractional bits; rounds toward zero.
pub open spec fn spec_rescale(p: int) -> int {
    if p >= 0 {
        p / (SCALE as int)
    } else {
        -((-p) / (SCALE as int))
    }
}

/// Value of addition: `NaN` absorbs, opposite infinities cancel to `NaN`,
/// and finite sums saturate to infinity on overflow.
pub open spec fn spec_add(a: Scalar, b: Scalar) -> Scalar {
    match (a, b) {
        (Scalar::NaN, _) => Scalar::NaN,
        (_, Scalar::NaN) => Scalar::NaN,
        (Scalar::PosInf, Scalar::NegInf) => Scalar::NaN,
        (Scalar::NegInf, Scalar::PosInf) => Scalar::NaN,
        (Scalar::PosInf, _) => Scalar::PosInf,
        (_, Scalar::PosInf) => Scalar::PosInf,
        (Scalar::NegInf, _) => Scalar::NegInf,
        (_, Scalar::NegInf) => Scalar::NegInf,
        (Scalar::Finite(x), Scalar::Finite(y)) => clamp_raw(x + y),
    }
}

/// Value of negation.
pub open spec fn spec_neg(a: Scalar) -> Scalar {
    match a {
        Scalar::Finite(x) => clamp_raw(-x),
        Scalar::PosInf => Scalar::NegInf,
        Scalar::NegInf => Scalar::PosInf,
        Scalar::NaN => Scalar::NaN,
    }
}

/// Value of subtraction, defined as addition of the negation.
pub open spec fn spec_sub(a: Scalar, b: Scalar) -> Scalar {
    spec_add(a, spec_neg(b))
}

/// Value of multiplication: `NaN` absorbs, an infinity times zero is `NaN`,
/// signs combine as usual, and the finite product is rescaled with truncation
/// toward zero, saturating to infinity on overflow.
pub open spec fn spec_mul(a: Scalar, b: Scalar) -> Scalar {
    match (a, b) {
        (Scalar::NaN, _) => Scalar::NaN,
        (_, Scalar::NaN) => Scalar::NaN,
        (Scalar::PosInf, Scalar::PosInf) => Scalar::PosInf,
        (Scalar::PosInf, Scalar::NegInf) => Scalar::NegInf,
        (Scalar::NegInf, Scalar::PosInf) => Scalar::NegInf,
        (Scalar::NegInf, Scalar::NegInf) => Scalar::PosInf,
        (Scalar::PosInf, Scalar::Finite(y)) => if y == 0 {
            Scalar::NaN
        } else if y > 0 {
            Scalar::PosInf
        } else {
            Scalar::NegInf
        },
        (Scalar::Finite(x), Scalar::PosInf) => if x == 0 {
            Scalar::NaN
        } else if x > 0 {
            Scalar::PosInf
        } else {
            Scalar::NegInf
        },
        (Scalar::NegInf, Scalar::Finite(y)) => if y == 0 {
            Scalar::NaN
        } else if y > 0 {
            Scalar::NegInf
        } else {
            Scalar::PosInf
        },
        (Scalar::Finite(x), Scalar::NegInf) => if x == 0 {
            Scalar::NaN
        } else if x > 0 {
            Scalar::NegInf
        } else {
            Scalar::PosInf
        },
        (Scalar::Finite(x), Scalar::Finite(y)) => clamp_raw(spec_rescale(x * y)),
    }
}

/// Value of the absolute value.
pub open spec fn spec_abs(a: Scalar) -> Scalar {
    match a {
        Scalar::Finite(x) => if x < 0 {
            clamp_raw(-x)
        } else {
            a
        },
        Scalar::PosInf => Scalar::PosInf,
        Scalar::NegInf => Scalar::PosInf,
        Scalar::NaN => Scalar::NaN,
    }
}

/// Value of the minimum. When exactly one operand is `NaN` the other is
/// returned, matching the usual floating-point minimum.
pub open spec fn spec_min(a: Scalar, b: Scalar) -> Scalar {
    match (a, b) {
        (Scalar::NaN, _) => b,
        (_, Scalar::NaN) => a,
        (Scalar::NegInf, _) => Scalar::NegInf,
        (_, Scalar::NegInf) => Scalar::NegInf,
        (Scalar::PosInf, _) => b,
        (_, Scalar::PosInf) => a,
        (Scalar::Finite(x), Scalar::Finite(y)) => if x <= y {
            a
        } else {
            b
        },
    }
}

/// Value of the maximum. When exactly one operand is `NaN` the other is
/// returned, matching the usual floating-point maximum.
pub open spec fn spec_max(a: Scalar, b: Scalar) -> Scalar {
    match (a, b) {
        (Scalar::NaN, _) => b,
        (_, Scalar::NaN) => a,
        (Scalar::PosInf, _) => Scalar::PosInf,
        (_, Scalar::PosInf) => Scalar::PosInf,
        (Scalar::NegInf, _) => b,
        (_, Scalar::NegInf) => a,
        (Scalar::Finite(x), Scalar::Finite(y)) => if x >= y {
            a
        } else {
            b
        },
    }
}

/// Numeric equality: `NaN` compares unequal to everything, itself included;
/// all other scalars compare by value.
pub open spec fn spec_same_value(a: Scalar, b: Scalar) -> bool {
    match (a, b) {
        (Scalar::NaN, _) => false,
        (_, Scalar::NaN) => false,
        _ => a == b,
    }
}

impl Scalar {
    /// The scalar zero.
    pub fn zero() -> (r: Self)
        ensures
            r == Scalar::Finite(0i64),
    {
        Scalar::Finite(0)
    }

    /// The scalar one.
    pub fn one() -> (r: Self)
        ensures
            r == Scalar::Finite(SCALE as i64),
    {
        Scalar::Finite(SCALE)
    }

    /// The scalar one half.
    pub fn half() -> (r: Self)
        ensures
            r == Scalar::Finite((SCALE / 2) as i64),
    {
        Scalar::Finite(32768)
    }

    /// A finite scalar from its raw fixed-point representation: the value
    /// `raw / 65536`.
    pub fn from_fixed(raw: i64) -> (r: Self)
        ensures
            r == Scalar::Finite(raw),
    {
        Scalar::Finite(raw)
    }

    /// A finite scalar holding the given whole number.
    pub fn from_int(v: i32) -> (r: Self)
        ensures
            r == Scalar::Finite(((v as i64) * (SCALE as i64)) as i64),
    {
        Scalar::Finite((v as i64) * SCALE)
    }

    /// The not-a-number scalar.
    pub fn nan() -> (r: Self)
        ensures
            r == Scalar::NaN,
    {
        Scalar::NaN
    }

    /// Positive infinity.
    pub fn infinity() -> (r: Self)
        ensures
            r == Scalar::PosInf,
    {
        Scalar::PosInf
    }

    /// Negative infinity.
    pub fn neg_infinity() -> (r: Self)
        ensures
            r == Scalar::NegInf,
    {
        Scalar::NegInf
    }

    /// Is this scalar finite (neither an infinity nor `NaN`)?
    pub fn is_finite(&self) -> (r: bool)
        ensures
            r == self is Finite,
    {
        match self {
            Scalar::Finite(_) => true,
            _ => false,
        }
    }

    /// Is this scalar the not-a-number marker?
    pub fn is_nan(&self) -> (r: bool)
        ensures
            r == self is NaN,
    {
        match self {
            Scalar::NaN => true,
            _ => false,
        }
    }

    /// Addition.
    pub fn add(self, rhs: Scalar) -> (r: Scalar)
        ensures
            r == spec_add(self, rhs),
    {
        match (self, rhs) {
            (Scalar::NaN, _) => Scalar::NaN,
            (_, Scalar::NaN) => Scalar::NaN,
            (Scalar::PosInf, Scalar::NegInf) => Scalar::NaN,
            (Scalar::NegInf, Scalar::PosInf) => Scalar::NaN,
            (Scalar::PosInf, _) => Scalar::PosInf,
            (_, Scalar::PosInf) => Scalar::PosInf,
            (Scalar::NegInf, _) => Scalar::NegInf,
            (_, Scalar::NegInf) => Scalar::NegInf,
            (Scalar::Finite(x), Scalar::Finite(y)) => {
                let s: i128 = (x as i128) + (y as i128);
                if s > (RAW_MAX as i128) {
                    Scalar::PosInf
                } else if s < -(RAW_MAX as i128) {
                    Scalar::NegInf
                } else {
                    Scalar::Finite(s as i64)
                }
            },
        }
    }

    /// Negation.
    pub fn neg(self) -> (r: Scalar)
        ensures
            r == spec_neg(self),
    {
        match self {
            Scalar::Finite(x) => {
                if x == i64::MIN {
                    Scalar::PosInf
                } else {
                    Scalar::Finite(-x)
                }
            },
            Scalar::PosInf => Scalar::NegInf,
            Scalar::NegInf => Scalar::PosInf,
            Scalar::NaN => Scalar::NaN,
        }
    }

    /// Subtraction.
    pub fn sub(self, rhs: Scalar) -> (r: Scalar)
        ensures
            r == spec_sub(self, rhs),
    {
        self.add(rhs.neg())
    }

    /// Multiplication.
    pub fn mul(self, rhs: Scalar) -> (r: Scalar)
        ensures
            r == spec_mul(self, rhs),
    {
        match (self, rhs) {
            (Scalar::NaN, _) => Scalar::NaN,
            (_, Scalar::NaN) => Scalar::NaN,
            (Scalar::PosInf, Scalar::PosInf) => Scalar::PosInf,
            (Scalar::PosInf, Scalar::NegInf) => Scalar::NegInf,
            (Scalar::NegInf, Scalar::PosInf) => Scalar::NegInf,
            (Scalar::NegInf, Scalar::NegInf) => Scalar::PosInf,
            (Scalar::PosInf, Scalar::Finite(y)) => {
                if y == 0 {
                    Scalar::NaN
                } else if y > 0 {
                    Scalar::PosInf
                } else {
                    Scalar::NegInf
                }
            },
            (Scalar::Finite(x), Scalar::PosInf) => {
                if x == 0 {
                    Scalar::NaN
                } else if x > 0 {
                    Scalar::PosInf
                } else {
                    Scalar::NegInf
                }
            },
            (Scalar::NegInf, Scalar::Finite(y)) => {
                if y == 0 {
                    Scalar::NaN
                } else if y > 0 {
                    Scalar::NegInf
                } else {
                    Scalar::PosInf
                }
            },
            (Scalar::Finite(x), Scalar::NegInf) => {
                if x == 0 {
                    Scalar::NaN
                } else if x > 0 {
                    Scalar::NegInf
                } else {
                    Scalar::PosInf
                }
            },
            (Scalar::Finite(x), Scalar::Finite(y)) => mul_finite(x, y),
        }
    }

    /// Absolute value.
    pub fn abs(self) -> (r: Scalar)
        ensures
            r == spec_abs(self),
    {
        match self {
            Scalar::Finite(x) => {
                if x < 0 {
                    self.neg()
                } else {
                    self
                }
            },
            Scalar::PosInf => Scalar::PosInf,
            Scalar::NegInf => Scalar::PosInf,
            Scalar::NaN => Scalar::NaN,
        }
    }

    /// Minimum of two scalars; a single `NaN` operand loses.
    pub fn min(self, rhs: Scalar) -> (r: Scalar)
        ensures
            r == spec_min(self, rhs),
    {
        match (self, rhs) {
            (Scalar::NaN, _) => rhs,
            (_, Scalar::NaN) => self,
            (Scalar::NegInf, _) => Scalar::NegInf,
            (_, Scalar::NegInf) => Scalar::NegInf,
            (Scalar::PosInf, _) => rhs,
            (_, Scalar::PosInf) => self,
            (Scalar::Finite(x), Scalar::Finite(y)) => {
                if x <= y {
                    self
                } else {
                    rhs
                }
            },
        }
    }

    /// Maximum of two scalars; a single `NaN` operand loses.
    pub fn max(self, rhs: Scalar) -> (r: Scalar)
        ensures
            r == spec_max(self, rhs),
    {
        match (self, rhs) {
            (Scalar::NaN, _) => rhs,
            (_, Scalar::NaN) => self,
            (Scalar::PosInf, _) => Scalar::PosInf,
            (_, Scalar::PosInf) => Scalar::PosInf,
            (Scalar::NegInf, _) => rhs,
            (_, Scalar::NegInf) => self,
            (Scalar::Finite(x), Scalar::Finite(y)) => {
                if x >= y {
                    self
                } else {
                    rhs
                }
            },
        }
    }

    /// Numeric equality: false whenever either side is `NaN`.
    pub fn same_value(self, rhs: Scalar) -> (r: bool)
        ensures
            r == spec_same_value(self, rhs),
    {
        match (self, rhs) {
            (Scalar::NaN, _) => false,
            (_, Scalar::NaN) => false,
            (Scalar::Finite(x), Scalar::Finite(y)) => x == y,
            (Scalar::PosInf, Scalar::PosInf) => true,
            (Scalar::NegInf, Scalar::NegInf) => true,
            _ => false,
        }
    }
}

/// Finite-by-finite multiplication on raw representations, computed on
/// magnitudes so the rescaling division stays in unsigned arithmetic.
fn mul_finite(x: i64, y: i64) -> (r: Scalar)
    ensures
        r == clamp_raw(spec_rescale(x * y)),
{
    let xm: u128 = abs_mag(x);
    let ym: u128 = abs_mag(y);
    let negative: bool = (x < 0) != (y < 0);
    proof {
        assert(xm * ym <= 0x4000_0000_0000_0000_0000_0000_0000_0000u128) by (nonlinear_arith)
            requires
                xm <= 0x8000_0000_0000_0000u128,
                ym <= 0x8000_0000_0000_0000u128,
        ;
    }
    let p: u128 = xm * ym;
    let q: u128 = p / 65536;
    proof {
        assert(xm * ym == vstd::math::abs(x as int) * vstd::math::abs(y as int)) by (nonlinear_arith)
            requires
                xm == vstd::math::abs(x as int),
                ym == vstd::math::abs(y as int),
        ;
        assert(vstd::math::abs(x as int) * vstd::math::abs(y as int) == vstd::math::abs(
            (x as int) * (y as int),
        )) by (nonlinear_arith);
        if negative {
            assert((x as int) * (y as int) <= 0) by (nonlinear_arith)
                requires
                    (x < 0) != (y < 0),
            ;
        } else {
            assert((x as int) * (y as int) >= 0) by (nonlinear_arith)
                requires
                    (x < 0) == (y < 0),
            ;
        }
    }
    if q > (RAW_MAX as u128) {
        if negative {
            Scalar::NegInf
        } else {
            Scalar::PosInf
        }
    } else {
        if negative {
            Scalar::Finite(-(q as i64))
        } else {
            Scalar::Finite(q as i64)
        }
    }
}

/// Magnitude of a raw value, widened so that `i64::MIN` needs no special
/// case.
fn abs_mag(x: i64) -> (r: u128)
    ensures
        r == vstd::math::abs(x as int),
        r <= 0x8000_0000_0000_0000u128,
{
    if x < 0 {
        (-(x as i128)) as u128
    } else {
        x as u128
    }
}

} // verus!
