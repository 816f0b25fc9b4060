//! Numbers that the library carries but never computes with.

use vstd::prelude::*;
use vstd::arithmetic::power2::{
    pow2, lemma2_to64, lemma2_to64_rest, lemma_pow2_adds, lemma_pow2_pos,
    lemma_pow2_strictly_increases, lemma_pow2_unfold,
};

verus! {

/// Two to the power of 52: the weight of the exponent field in a bit pattern,
/// and the hidden leading bit of the significand.
pub const HIDDEN_BIT: u64 = 0x10_0000_0000_0000;

/// Two to the power of 53: every whole number below it has a bit pattern of
/// its own.
pub const EXACT_WHOLE_LIMIT: u64 = 0x20_0000_0000_0000;

/// The smallest positive number is two to the power of minus this.
pub const SMALLEST_EXPONENT: u64 = 1074;

/// Bit patterns at or above this one are infinite, not numbers, or negative.
pub const FIRST_NON_FINITE: u64 = 0x7FF0_0000_0000_0000;

/// An IEEE 754 binary64 number, held by its bit pattern.
///
/// What the library needs to know of such a number is whether it is finite
/// and greater than zero and which of two is the smaller, and both can be
/// read off the bit patterns: see `lemma_order_of_patterns`.
#[derive(Clone, Copy, Debug, PartialEq, Eq, Structural)]
pub struct Scalar {
    pub bits: u64,
}

impl Scalar {
    /// The pattern stands for a finite number that is not negative: zero or a
    /// number above it, with the sign bit clear.
    pub open spec fn is_finite(self) -> bool {
        self.bits < FIRST_NON_FINITE
    }

    /// The exponent field of the pattern of a number that is not negative.
    pub open spec fn exponent(self) -> int {
        self.bits as int / HIDDEN_BIT as int
    }

    /// The fraction field of the pattern.
    pub open spec fn fraction(self) -> int {
        self.bits as int % HIDDEN_BIT as int
    }

    /// The number that the pattern of a finite number that is not negative
    /// stands for, counted in units of the smallest positive number, which is
    /// two to the power of minus 1074. With the exponent field at zero the
    /// number is its fraction field in these units; else the fraction field
    /// has the hidden bit in front of it and every step of the exponent field
    /// doubles the number.
    pub open spec fn magnitude(self) -> nat {
        if self.exponent() == 0 {
            self.fraction() as nat
        } else {
            ((HIDDEN_BIT + self.fraction()) * pow2((self.exponent() - 1) as nat)) as nat
        }
    }

    /// The pattern stands for a number that is finite and greater than zero.
    pub open spec fn is_positive_finite(self) -> bool {
        self.is_finite() && self.magnitude() > 0
    }

    /// Both are finite numbers that are not negative and `self` is the
    /// smaller one.
    pub open spec fn below(self, other: Scalar) -> bool {
        &&& self.is_finite()
        &&& other.is_finite()
        &&& self.magnitude() < other.magnitude()
    }

    /// The pattern stands for the whole number `n`.
    pub open spec fn is_whole(self, n: nat) -> bool {
        self.is_finite() && self.magnitude() == n * pow2(SMALLEST_EXPONENT as nat)
    }

    /// The bit pattern of a whole number. Every whole number below 2^53 has
    /// one; of those from there on, which do not all have one, none is given.
    pub fn from_whole(n: u64) -> (s: Option<Scalar>)
        ensures
            s is Some <==> n < EXACT_WHOLE_LIMIT,
            s matches Some(w) ==> w.is_whole(n as nat),
    {
        if n == 0 {
            return Some(Scalar { bits: 0 });
        }
        if n >= EXACT_WHOLE_LIMIT {
            return None;
        }
        let mut significand: u64 = n;
        let mut shift: u64 = 0;
        proof {
            lemma2_to64();
            lemma2_to64_rest();
        }
        while significand < HIDDEN_BIT
            invariant
                1 <= n,
                1 <= significand < EXACT_WHOLE_LIMIT,
                significand == n * pow2(shift as nat),
                shift <= 52,
                pow2(52) == HIDDEN_BIT,
            decreases 52 - shift,
        {
            proof {
                let k = pow2(shift as nat) as int;
                lemma_pow2_unfold((shift + 1) as nat);
                assert(n * (2 * k) == 2 * (n * k)) by (nonlinear_arith);
                assert(n * k >= k) by (nonlinear_arith)
                    requires
                        n >= 1,
                        k >= 0,
                ;
            }
            significand = significand * 2;
            shift = shift + 1;
        }
        let exponent: u64 = SMALLEST_EXPONENT + 1 - shift;
        let w = Scalar { bits: exponent * HIDDEN_BIT + (significand - HIDDEN_BIT) };
        proof {
            assert(w.exponent() == exponent);
            assert(w.fraction() == significand - HIDDEN_BIT);
            let up = pow2(shift as nat) as int;
            let rest = pow2((exponent - 1) as nat) as int;
            lemma_pow2_adds(shift as nat, (exponent - 1) as nat);
            assert((n * up) * rest == n * (up * rest)) by (nonlinear_arith);
        }
        Some(w)
    }

    /// The number with the given bit pattern.
    pub fn from_bits(bits: u64) -> (s: Scalar)
        ensures
            s.bits == bits,
    {
        Scalar { bits }
    }

    /// The bit pattern of the number.
    pub fn to_bits(self) -> (bits: u64)
        ensures
            bits == self.bits,
    {
        self.bits
    }

    /// Tells whether the number is finite and greater than zero.
    pub fn positive_finite(self) -> (b: bool)
        ensures
            b == self.is_positive_finite(),
    {
        proof {
            if self.is_finite() {
                lemma_order_of_patterns(Scalar { bits: 0 }, self);
            }
        }
        0 < self.bits && self.bits < FIRST_NON_FINITE
    }

    /// Tells whether both are finite numbers that are not negative and `self`
    /// is the smaller one.
    pub fn less_than(self, other: Scalar) -> (b: bool)
        ensures
            b == self.below(other),
    {
        proof {
            if self.is_finite() && other.is_finite() {
                lemma_order_of_patterns(self, other);
            }
        }
        self.bits < FIRST_NON_FINITE && other.bits < FIRST_NON_FINITE && self.bits < other.bits
    }
}

/// A number is less than the weight of its hidden bit doubled once for every
/// step of its exponent field, and with an exponent field above zero at least
/// half of that.
proof fn lemma_magnitude_bounds(a: Scalar)
    requires
        a.is_finite(),
    ensures
        a.magnitude() < HIDDEN_BIT * pow2(a.exponent() as nat),
        a.exponent() >= 1 ==> a.magnitude() >= HIDDEN_BIT * pow2((a.exponent() - 1) as nat),
{
    let e = a.exponent();
    let f = a.fraction();
    if e == 0 {
        lemma2_to64();
    } else {
        let half = pow2((e - 1) as nat) as int;
        lemma_pow2_unfold(e as nat);
        lemma_pow2_pos((e - 1) as nat);
        assert((HIDDEN_BIT + f) * half < HIDDEN_BIT * (2 * half) && (HIDDEN_BIT + f) * half
            >= HIDDEN_BIT * half) by (nonlinear_arith)
            requires
                0 <= f < HIDDEN_BIT,
                half > 0,
        ;
    }
}

/// Of two finite numbers that are not negative, the one with the smaller bit
/// pattern is the smaller number.
proof fn lemma_smaller_pattern_smaller_number(a: Scalar, b: Scalar)
    requires
        a.is_finite(),
        b.is_finite(),
        a.bits < b.bits,
    ensures
        a.magnitude() < b.magnitude(),
{
    let ea = a.exponent();
    let eb = b.exponent();
    if ea == eb {
        if ea >= 1 {
            let p = pow2((ea - 1) as nat) as int;
            lemma_pow2_pos((ea - 1) as nat);
            assert((HIDDEN_BIT + a.fraction()) * p < (HIDDEN_BIT + b.fraction()) * p)
                by (nonlinear_arith)
                requires
                    a.fraction() < b.fraction(),
                    p > 0,
            ;
        }
    } else {
        lemma_magnitude_bounds(a);
        lemma_magnitude_bounds(b);
        if ea < eb - 1 {
            lemma_pow2_strictly_increases(ea as nat, (eb - 1) as nat);
        }
        let pa = pow2(ea as nat) as int;
        let pb = pow2((eb - 1) as nat) as int;
        assert(HIDDEN_BIT * pa <= HIDDEN_BIT * pb) by (nonlinear_arith)
            requires
                pa <= pb,
        ;
    }
}

/// The order of the bit patterns is the order of the numbers: of two finite
/// numbers that are not negative, one is less than the other exactly if its
/// bit pattern is, and they are equal exactly if their bit patterns are.
pub proof fn lemma_order_of_patterns(a: Scalar, b: Scalar)
    requires
        a.is_finite(),
        b.is_finite(),
    ensures
        a.bits < b.bits <==> a.magnitude() < b.magnitude(),
        a.bits == b.bits <==> a.magnitude() == b.magnitude(),
{
    if a.bits < b.bits {
        lemma_smaller_pattern_smaller_number(a, b);
    } else if b.bits < a.bits {
        lemma_smaller_pattern_smaller_number(b, a);
    }
}

/// The order of whole numbers is the order of their bit patterns.
pub proof fn lemma_whole_order(a: Scalar, n: nat, b: Scalar, m: nat)
    requires
        a.is_whole(n),
        b.is_whole(m),
        n < m,
    ensures
        a.bits < b.bits,
        a.magnitude() < b.magnitude(),
{
    let unit = pow2(SMALLEST_EXPONENT as nat) as int;
    lemma_pow2_pos(SMALLEST_EXPONENT as nat);
    assert(n * unit < m * unit) by (nonlinear_arith)
        requires
            n < m,
            unit > 0,
    ;
    lemma_order_of_patterns(a, b);
}

/// A whole number from one on is a finite number greater than zero.
pub proof fn lemma_whole_positive(a: Scalar, n: nat)
    requires
        a.is_whole(n),
        n >= 1,
    ensures
        a.is_positive_finite(),
{
    let unit = pow2(SMALLEST_EXPONENT as nat) as int;
    lemma_pow2_pos(SMALLEST_EXPONENT as nat);
    assert(n * unit > 0) by (nonlinear_arith)
        requires
            n >= 1,
            unit > 0,
    ;
}

/// A whole number has one bit pattern, and a bit pattern stands for one whole
/// number at most.
pub proof fn lemma_whole_unique(a: Scalar, n: nat, b: Scalar, m: nat)
    requires
        a.is_whole(n),
        b.is_whole(m),
    ensures
        a == b <==> n == m,
{
    let unit = pow2(SMALLEST_EXPONENT as nat) as int;
    lemma_pow2_pos(SMALLEST_EXPONENT as nat);
    lemma_order_of_patterns(a, b);
    assert(n * unit == m * unit <==> n == m) by (nonlinear_arith)
        requires
            unit > 0,
    ;
}

/// A pair of coordinates: (longitude, latitude) on the ellipsoid, (easting,
/// northing) in the plane.
#[derive(Clone, Copy, Debug, PartialEq, Eq, Structural)]
pub struct Point {
    pub x: Scalar,
    pub y: Scalar,
}

impl Point {
    /// The point with the given coordinates.
    pub fn new(x: Scalar, y: Scalar) -> (p: Point)
        ensures
            p.x == x,
            p.y == y,
    {
        Point { x, y }
    }
}

} // verus!
