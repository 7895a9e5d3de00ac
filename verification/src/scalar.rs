//! Single-precision numbers as bit patterns, and their order.

use vstd::prelude::*;
use vstd::arithmetic::power2::lemma_pow2_pos;
use vstd::arithmetic::power2::lemma_pow2_strictly_increases;
use vstd::arithmetic::power2::lemma_pow2_unfold;
use vstd::arithmetic::power2::pow2;

verus! {

/// The sign bit of a single-precision bit pattern.
pub const SIGN_BIT: u32 = 0x8000_0000;

/// The bit pattern of positive infinity. A larger magnitude is not a number.
pub const INFINITY_BITS: u32 = 0x7F80_0000;

/// The number of fractions that an exponent has: two to the power of 23.
pub const FRACTIONS: u32 = 0x0080_0000;

/// The bit pattern of `1`.
pub const ONE_BITS: u32 = 0x3F80_0000;

/// The bit pattern of `0.5`.
pub const HALF_BITS: u32 = 0x3F00_0000;

/// An IEEE 754 single-precision number, held as its 32 bits: the sign, eight
/// bits of exponent and twenty-three of fraction.
///
/// The order of two numbers is read off their bits. Without the sign bit a
/// pattern is the larger as an integer the larger the magnitude that it
/// encodes, with infinity above all numbers and the patterns that encode no
/// number above infinity. So `rank` maps every pattern that is a number to
/// an integer such that one number is smaller than another exactly when its
/// rank is smaller. Both zeros have rank 0. That the ranks of the finite
/// numbers are in the order of their values is proved in
/// `lemma_rank_orders_values`.
#[derive(Clone, Copy, Debug)]
pub struct Scalar {
    pub bits: u32,
}

impl Scalar {
    /// The sign bit is set.
    pub open spec fn negative(self) -> bool {
        self.bits >= SIGN_BIT
    }

    /// The bits without the sign bit.
    pub open spec fn magnitude(self) -> int {
        if self.negative() {
            self.bits - SIGN_BIT
        } else {
            self.bits as int
        }
    }

    /// The pattern encodes no number.
    pub open spec fn nan(self) -> bool {
        self.magnitude() > INFINITY_BITS
    }

    /// The place of the number in the order of all numbers.
    pub open spec fn rank(self) -> int {
        if self.negative() {
            -self.magnitude()
        } else {
            self.magnitude()
        }
    }

    /// The number is neither infinite nor missing.
    pub open spec fn finite(self) -> bool {
        self.magnitude() < INFINITY_BITS
    }

    /// The eight bits of the exponent.
    pub open spec fn exponent(self) -> int {
        self.magnitude() / (FRACTIONS as int)
    }

    /// The twenty-three bits of the fraction.
    pub open spec fn fraction(self) -> int {
        self.magnitude() % (FRACTIONS as int)
    }

    /// The absolute value of a finite number, counted in the smallest
    /// positive number, two to the power of -149.
    ///
    /// Under the exponent 0 the numbers are the multiples of that unit.
    /// Under every other exponent the fraction has a leading one before
    /// it, and each exponent doubles the step.
    pub open spec fn size(self) -> int {
        if self.exponent() == 0 {
            self.fraction()
        } else {
            (FRACTIONS + self.fraction()) * pow2((self.exponent() - 1) as nat)
        }
    }

    /// The value of a finite number, counted in the smallest positive
    /// number.
    pub open spec fn value(self) -> int {
        if self.negative() {
            -self.size()
        } else {
            self.size()
        }
    }

    /// `self < other` as IEEE 754 defines it: false when either is not a number.
    pub open spec fn less(self, other: Scalar) -> bool {
        !self.nan() && !other.nan() && self.rank() < other.rank()
    }

    /// `self <= other` as IEEE 754 defines it: false when either is not a number.
    pub open spec fn at_most(self, other: Scalar) -> bool {
        !self.nan() && !other.nan() && self.rank() <= other.rank()
    }

    /// `self > 0`.
    pub open spec fn positive(self) -> bool {
        !self.nan() && self.rank() > 0
    }

    /// The number `0`.
    pub open spec fn spec_zero() -> Scalar {
        Scalar { bits: 0 }
    }

    /// The number `1`.
    pub open spec fn spec_one() -> Scalar {
        Scalar { bits: ONE_BITS }
    }

    /// The number with the sign bit flipped.
    pub open spec fn spec_neg(self) -> Scalar {
        Scalar {
            bits: if self.negative() {
                (self.bits - SIGN_BIT) as u32
            } else {
                (self.bits + SIGN_BIT) as u32
            },
        }
    }

    /// The number with this bit pattern.
    pub fn from_bits(bits: u32) -> (r: Scalar)
        ensures
            r.bits == bits,
    {
        Scalar { bits }
    }

    /// The bit pattern of the number.
    pub fn to_bits(self) -> (r: u32)
        ensures
            r == self.bits,
    {
        self.bits
    }

    /// The number `0`.
    pub fn zero() -> (r: Scalar)
        ensures
            r == Scalar::spec_zero(),
    {
        Scalar { bits: 0 }
    }

    /// The number `1`.
    pub fn one() -> (r: Scalar)
        ensures
            r == Scalar::spec_one(),
    {
        Scalar { bits: ONE_BITS }
    }

    /// Tells whether the pattern encodes no number.
    pub fn is_nan(self) -> (r: bool)
        ensures
            r == self.nan(),
    {
        let magnitude: u32 = if self.bits >= SIGN_BIT {
            self.bits - SIGN_BIT
        } else {
            self.bits
        };
        magnitude > INFINITY_BITS
    }

    /// The rank as a machine integer.
    pub fn key(self) -> (r: i64)
        ensures
            r == self.rank(),
    {
        if self.bits >= SIGN_BIT {
            let magnitude: u32 = self.bits - SIGN_BIT;
            let m: i64 = magnitude as i64;
            -m
        } else {
            self.bits as i64
        }
    }

    /// `self < other`.
    pub fn lt(self, other: Scalar) -> (r: bool)
        ensures
            r == self.less(other),
    {
        !self.is_nan() && !other.is_nan() && self.key() < other.key()
    }

    /// `self > other`.
    pub fn gt(self, other: Scalar) -> (r: bool)
        ensures
            r == other.less(self),
    {
        other.lt(self)
    }

    /// `self <= other`.
    pub fn le(self, other: Scalar) -> (r: bool)
        ensures
            r == self.at_most(other),
    {
        !self.is_nan() && !other.is_nan() && self.key() <= other.key()
    }

    /// `self >= other`.
    pub fn ge(self, other: Scalar) -> (r: bool)
        ensures
            r == other.at_most(self),
    {
        !self.is_nan() && !other.is_nan() && other.key() <= self.key()
    }

    /// `self > 0`.
    pub fn is_positive(self) -> (r: bool)
        ensures
            r == self.positive(),
            r == Scalar::spec_zero().less(self),
    {
        !self.is_nan() && self.key() > 0
    }

    /// `-self`: the same magnitude with the other sign.
    pub fn neg(self) -> (r: Scalar)
        ensures
            r == self.spec_neg(),
            r.magnitude() == self.magnitude(),
            r.negative() != self.negative(),
            r.nan() == self.nan(),
            r.rank() == -self.rank(),
    {
        if self.bits >= SIGN_BIT {
            Scalar { bits: self.bits - SIGN_BIT }
        } else {
            Scalar { bits: self.bits + SIGN_BIT }
        }
    }
}

/// Of two finite numbers the one with the larger bits behind the sign is
/// the larger in absolute value.
pub proof fn lemma_size_grows_with_magnitude(a: Scalar, b: Scalar)
    requires
        a.magnitude() < b.magnitude(),
        b.finite(),
    ensures
        a.size() < b.size(),
{
    let r = FRACTIONS as int;
    let (ea, fa) = (a.exponent(), a.fraction());
    let (eb, fb) = (b.exponent(), b.fraction());
    assert(a.magnitude() == ea * r + fa && 0 <= fa < r && 0 <= ea) by {
        assert(a.magnitude() == r * (a.magnitude() / r) + a.magnitude() % r) by (nonlinear_arith)
            requires
                r > 0,
        ;
    }
    assert(b.magnitude() == eb * r + fb && 0 <= fb < r && 0 <= eb) by {
        assert(b.magnitude() == r * (b.magnitude() / r) + b.magnitude() % r) by (nonlinear_arith)
            requires
                r > 0,
        ;
    }
    assert(ea <= eb) by (nonlinear_arith)
        requires
            ea * r + fa < eb * r + fb,
            0 <= fa < r,
            0 <= fb < r,
    ;
    if ea == eb {
        if ea > 0 {
            let p = pow2((ea - 1) as nat) as int;
            lemma_pow2_pos((ea - 1) as nat);
            assert((r + fa) * p < (r + fb) * p) by (nonlinear_arith)
                requires
                    fa < fb,
                    p > 0,
            ;
        }
    } else {
        let q = pow2((eb - 1) as nat) as int;
        lemma_pow2_pos((eb - 1) as nat);
        assert(r * q <= (r + fb) * q) by (nonlinear_arith)
            requires
                0 <= fb,
                q > 0,
        ;
        if ea == 0 {
            assert(r <= r * q) by (nonlinear_arith)
                requires
                    r > 0,
                    q >= 1,
            ;
        } else {
            let p = pow2((ea - 1) as nat) as int;
            lemma_pow2_pos((ea - 1) as nat);
            lemma_pow2_unfold(ea as nat);
            if ea < eb - 1 {
                lemma_pow2_strictly_increases(ea as nat, (eb - 1) as nat);
            }
            assert((r + fa) * p < r * (2 * p)) by (nonlinear_arith)
                requires
                    fa < r,
                    p > 0,
            ;
            assert(r * (2 * p) <= r * q) by (nonlinear_arith)
                requires
                    2 * p <= q,
                    r > 0,
            ;
        }
    }
}

/// The comparisons are those of the values: of two finite numbers one is
/// less than the other exactly when its value is smaller, and at most the
/// other exactly when its value is not larger.
pub proof fn lemma_rank_orders_values(a: Scalar, b: Scalar)
    requires
        a.finite(),
        b.finite(),
    ensures
        a.less(b) <==> a.value() < b.value(),
        a.at_most(b) <==> a.value() <= b.value(),
        a.positive() <==> a.value() > 0,
{
    let zero = Scalar { bits: 0 };
    assert(zero.size() == 0 && zero.magnitude() == 0);
    if a.magnitude() < b.magnitude() {
        lemma_size_grows_with_magnitude(a, b);
    }
    if b.magnitude() < a.magnitude() {
        lemma_size_grows_with_magnitude(b, a);
    }
    if 0 < a.magnitude() {
        lemma_size_grows_with_magnitude(zero, a);
    }
    if 0 < b.magnitude() {
        lemma_size_grows_with_magnitude(zero, b);
    }
}

/// The patterns of zero and one stand for zero and one: one is two to the
/// power of 149 times the smallest positive number.
pub proof fn lemma_zero_and_one()
    ensures
        Scalar::spec_zero().finite() && Scalar::spec_zero().value() == 0,
        Scalar::spec_one().finite() && Scalar::spec_one().value() == pow2(149),
        (Scalar { bits: 1 }).value() == 1,
{
    let one = Scalar::spec_one();
    assert(one.exponent() == 127 && one.fraction() == 0);
    assert(pow2(149) == pow2(23) * pow2(126)) by {
        vstd::arithmetic::power2::lemma_pow2_adds(23, 126);
    }
    assert(pow2(23) == 0x0080_0000) by {
        vstd::arithmetic::power2::lemma2_to64();
    }
}

/// A point, a direction or a colour: three numbers.
#[derive(Clone, Copy, Debug)]
pub struct Vec3 {
    pub x: Scalar,
    pub y: Scalar,
    pub z: Scalar,
}

impl Vec3 {
    /// The vector whose three components are `s`.
    pub open spec fn spec_splat(s: Scalar) -> Vec3 {
        Vec3 { x: s, y: s, z: s }
    }

    /// The vector whose components have these bit patterns.
    pub open spec fn spec_from_bits(x: u32, y: u32, z: u32) -> Vec3 {
        Vec3 { x: Scalar { bits: x }, y: Scalar { bits: y }, z: Scalar { bits: z } }
    }

    /// The vector with each component negated.
    pub open spec fn spec_neg(self) -> Vec3 {
        Vec3 { x: self.x.spec_neg(), y: self.y.spec_neg(), z: self.z.spec_neg() }
    }

    /// The vector `(x, y, z)`.
    pub fn new(x: Scalar, y: Scalar, z: Scalar) -> (r: Vec3)
        ensures
            r == (Vec3 { x, y, z }),
    {
        Vec3 { x, y, z }
    }

    /// The vector whose components have these bit patterns.
    pub fn from_bits(x: u32, y: u32, z: u32) -> (r: Vec3)
        ensures
            r == Vec3::spec_from_bits(x, y, z),
    {
        Vec3 { x: Scalar { bits: x }, y: Scalar { bits: y }, z: Scalar { bits: z } }
    }

    /// `(0, 0, 0)`.
    pub fn zero() -> (r: Vec3)
        ensures
            r == Vec3::spec_splat(Scalar::spec_zero()),
    {
        Vec3 { x: Scalar::zero(), y: Scalar::zero(), z: Scalar::zero() }
    }

    /// `(1, 1, 1)`.
    pub fn ones() -> (r: Vec3)
        ensures
            r == Vec3::spec_splat(Scalar::spec_one()),
    {
        Vec3 { x: Scalar::one(), y: Scalar::one(), z: Scalar::one() }
    }

    /// The opposite vector.
    pub fn neg(self) -> (r: Vec3)
        ensures
            r == self.spec_neg(),
    {
        Vec3 { x: self.x.neg(), y: self.y.neg(), z: self.z.neg() }
    }
}

} // verus!
