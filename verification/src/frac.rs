//! An exact-fraction channel type for fractional intensities.
//!
//! A [`Frac`] denotes the rational number `num / den` with a positive
//! denominator. It is the channel type for colors whose components are
//! fractions of full intensity: the normalised range is the closed interval
//! [0, 1], `normalised` clamps into it, and `inverted` is one minus the
//! normalised value. All arithmetic is exact; nothing is rounded.

use vstd::prelude::*;

use crate::channel::Channel;

verus! {

/// The largest magnitude a numerator or denominator may take. Keeping both
/// within this bound lets every cross product of two well-formed fractions
/// be computed in `i128` without overflow.
pub const FRAC_BOUND: i128 = 0x4000_0000_0000_0000;

/// An exact fraction: the rational number `num / den`.
#[derive(Clone, Copy, Debug)]
pub struct Frac {
    /// The numerator. May be negative: arithmetic can leave the normalised
    /// range, and normalisation clamps back into it.
    pub num: i128,
    /// The denominator. Always positive in a well-formed fraction.
    pub den: i128,
}

/// The product of two values bounded by `m` and `n` is bounded by `m * n`.
proof fn lemma_mul_bound(a: int, b: int, m: int, n: int)
    by (nonlinear_arith)
    requires
        -m <= a <= m,
        -n <= b <= n,
    ensures
        -(m * n) <= a * b <= m * n,
{
}

/// The product of two positive values is positive.
proof fn lemma_mul_pos(a: int, b: int)
    by (nonlinear_arith)
    requires
        1 <= a,
        1 <= b,
    ensures
        1 <= a * b,
{
}

impl Frac {
    /// Build the fraction `num / den`.
    pub fn new(num: i128, den: i128) -> (r: Frac)
        requires
            -FRAC_BOUND <= num <= FRAC_BOUND,
            1 <= den <= FRAC_BOUND,
        ensures
            r.num == num,
            r.den == den,
            r.wf(),
    {
        Frac { num, den }
    }

    /// Whether the fraction denotes a value in the closed interval [0, 1].
    pub open spec fn in_unit(self) -> bool {
        0 <= self.num && self.num <= self.den
    }

    /// Whether two fractions denote the same rational value.
    pub open spec fn same_value_spec(self, other: Frac) -> bool {
        self.num * other.den == other.num * self.den
    }

    /// Decide whether two fractions denote the same rational value.
    pub fn same_value(self, other: Frac) -> (r: bool)
        requires
            self.wf(),
            other.wf(),
        ensures
            r == self.same_value_spec(other),
    {
        proof {
            lemma_mul_bound(self.num as int, other.den as int, FRAC_BOUND as int, FRAC_BOUND as int);
            lemma_mul_bound(other.num as int, self.den as int, FRAC_BOUND as int, FRAC_BOUND as int);
        }
        self.num * other.den == other.num * self.den
    }
}

impl Channel for Frac {
    /// Bounded fields and a positive denominator.
    open spec fn wf(self) -> bool {
        &&& 1 <= self.den <= FRAC_BOUND
        &&& -FRAC_BOUND <= self.num <= FRAC_BOUND
    }

    /// The rational order, by cross multiplication with the positive
    /// denominators.
    open spec fn le_spec(self, other: Self) -> bool {
        self.num * other.den <= other.num * self.den
    }

    open spec fn zero_spec() -> Self {
        Frac { num: 0, den: 1 }
    }

    open spec fn one_spec() -> Self {
        Frac { num: 1, den: 1 }
    }

    /// Clamp into [0, 1]: a value below zero becomes zero, one above one
    /// becomes one, anything inside is unchanged.
    open spec fn normalised_spec(self) -> Self {
        if self.num < 0 {
            Self::zero_spec()
        } else if self.num > self.den {
            Self::one_spec()
        } else {
            self
        }
    }

    /// One minus the normalised value, over the normalised value's own
    /// denominator.
    open spec fn inverted_spec(self) -> Self {
        let n = self.normalised_spec();
        Frac { num: (n.den - n.num) as i128, den: n.den }
    }

    open spec fn add_ok(self, other: Self) -> bool {
        &&& -FRAC_BOUND <= self.num * other.den + other.num * self.den <= FRAC_BOUND
        &&& self.den * other.den <= FRAC_BOUND
    }

    open spec fn add_spec(self, other: Self) -> Self {
        Frac {
            num: (self.num * other.den + other.num * self.den) as i128,
            den: (self.den * other.den) as i128,
        }
    }

    open spec fn sub_ok(self, other: Self) -> bool {
        &&& -FRAC_BOUND <= self.num * other.den - other.num * self.den <= FRAC_BOUND
        &&& self.den * other.den <= FRAC_BOUND
    }

    open spec fn sub_spec(self, other: Self) -> Self {
        Frac {
            num: (self.num * other.den - other.num * self.den) as i128,
            den: (self.den * other.den) as i128,
        }
    }

    open spec fn mul_ok(self, other: Self) -> bool {
        &&& -FRAC_BOUND <= self.num * other.num <= FRAC_BOUND
        &&& self.den * other.den <= FRAC_BOUND
    }

    open spec fn mul_spec(self, other: Self) -> Self {
        Frac { num: (self.num * other.num) as i128, den: (self.den * other.den) as i128 }
    }

    /// Division needs a divisor with a nonzero value, and the cross products
    /// must stay within the representation bound.
    open spec fn div_ok(self, other: Self) -> bool {
        &&& other.num != 0
        &&& -FRAC_BOUND <= self.num * other.den <= FRAC_BOUND
        &&& if other.num > 0 {
            self.den * other.num <= FRAC_BOUND
        } else {
            -(self.den * other.num) <= FRAC_BOUND
        }
    }

    /// Multiply by the reciprocal, keeping the denominator positive.
    open spec fn div_spec(self, other: Self) -> Self {
        if other.num > 0 {
            Frac { num: (self.num * other.den) as i128, den: (self.den * other.num) as i128 }
        } else {
            Frac {
                num: (-(self.num * other.den)) as i128,
                den: (-(self.den * other.num)) as i128,
            }
        }
    }

    proof fn lemma_le_refl(self) {
    }

    fn zero() -> (r: Self) {
        Frac { num: 0, den: 1 }
    }

    fn one() -> (r: Self) {
        Frac { num: 1, den: 1 }
    }

    fn le(self, other: Self) -> (r: bool) {
        proof {
            lemma_mul_bound(self.num as int, other.den as int, FRAC_BOUND as int, FRAC_BOUND as int);
            lemma_mul_bound(other.num as int, self.den as int, FRAC_BOUND as int, FRAC_BOUND as int);
        }
        self.num * other.den <= other.num * self.den
    }

    fn inverted(self) -> (r: Self) {
        let n = self.normalised();
        Frac { num: n.den - n.num, den: n.den }
    }

    fn normalised(self) -> (r: Self) {
        if self.num < 0 {
            Frac { num: 0, den: 1 }
        } else if self.num > self.den {
            Frac { num: 1, den: 1 }
        } else {
            self
        }
    }

    fn add(self, other: Self) -> (r: Self) {
        proof {
            lemma_mul_bound(self.num as int, other.den as int, FRAC_BOUND as int, FRAC_BOUND as int);
            lemma_mul_bound(other.num as int, self.den as int, FRAC_BOUND as int, FRAC_BOUND as int);
            lemma_mul_pos(self.den as int, other.den as int);
        }
        Frac { num: self.num * other.den + other.num * self.den, den: self.den * other.den }
    }

    fn sub(self, other: Self) -> (r: Self) {
        proof {
            lemma_mul_bound(self.num as int, other.den as int, FRAC_BOUND as int, FRAC_BOUND as int);
            lemma_mul_bound(other.num as int, self.den as int, FRAC_BOUND as int, FRAC_BOUND as int);
            lemma_mul_pos(self.den as int, other.den as int);
        }
        Frac { num: self.num * other.den - other.num * self.den, den: self.den * other.den }
    }

    fn mul(self, other: Self) -> (r: Self) {
        proof {
            lemma_mul_bound(self.num as int, other.num as int, FRAC_BOUND as int, FRAC_BOUND as int);
            lemma_mul_pos(self.den as int, other.den as int);
        }
        Frac { num: self.num * other.num, den: self.den * other.den }
    }

    fn div(self, other: Self) -> (r: Self) {
        proof {
            lemma_mul_bound(self.num as int, other.den as int, FRAC_BOUND as int, FRAC_BOUND as int);
            lemma_mul_bound(self.den as int, other.num as int, FRAC_BOUND as int, FRAC_BOUND as int);
            if other.num > 0 {
                lemma_mul_pos(self.den as int, other.num as int);
            } else {
                lemma_mul_pos(self.den as int, -(other.num as int));
                assert(self.den * (-(other.num as int)) == -(self.den * other.num)) by (nonlinear_arith);
            }
        }
        if other.num > 0 {
            Frac { num: self.num * other.den, den: self.den * other.num }
        } else {
            Frac { num: -(self.num * other.den), den: -(self.den * other.num) }
        }
    }
}

/// Normalisation clamps a fraction into [0, 1]: a value already inside is
/// unchanged, one below zero comes back as zero, one above one as one, and
/// lying inside [0, 1] is the same as lying between the zero and one channels
/// in the channel order.
pub proof fn lemma_normalised_in_unit(x: Frac)
    requires
        x.wf(),
    ensures
        x.normalised_spec().in_unit(),
        x.normalised_spec().wf(),
        x.in_unit() ==> x.normalised_spec() == x,
        x.num < 0 ==> x.normalised_spec() == Frac::zero_spec(),
        x.num > x.den ==> x.normalised_spec() == Frac::one_spec(),
        x.in_unit() <==> (Frac::zero_spec().le_spec(x) && x.le_spec(Frac::one_spec())),
{
}

/// Fraction addition is exact: adding a value and then subtracting it again
/// gives the first operand's value back, with nothing lost to rounding.
pub proof fn lemma_add_sub_inverse(a: Frac, b: Frac)
    requires
        a.wf(),
        b.wf(),
        a.add_ok(b),
        a.add_spec(b).sub_ok(b),
    ensures
        a.add_spec(b).sub_spec(b).same_value_spec(a),
{
    lemma_mul_pos(a.den as int, b.den as int);
    let s = a.add_spec(b);
    lemma_mul_pos(s.den as int, b.den as int);
    assert((s.num * b.den - b.num * s.den) * a.den == a.num * (s.den * b.den)) by (nonlinear_arith)
        requires
            s.num == a.num * b.den + b.num * a.den,
            s.den == a.den * b.den,
    ;
}

/// Fraction division is exact: the quotient times the divisor denotes the
/// dividend's value again, with nothing lost to rounding.
pub proof fn lemma_div_mul_inverse(a: Frac, b: Frac)
    requires
        a.wf(),
        b.wf(),
        a.div_ok(b),
        a.div_spec(b).mul_ok(b),
    ensures
        a.div_spec(b).mul_spec(b).same_value_spec(a),
{
    lemma_mul_bound(a.num as int, b.den as int, FRAC_BOUND as int, FRAC_BOUND as int);
    lemma_mul_bound(a.den as int, b.num as int, FRAC_BOUND as int, FRAC_BOUND as int);
    let q = a.div_spec(b);
    if b.num > 0 {
        lemma_mul_pos(a.den as int, b.num as int);
        lemma_mul_pos(q.den as int, b.den as int);
        assert((q.num * b.num) * a.den == a.num * (q.den * b.den)) by (nonlinear_arith)
            requires
                q.num == a.num * b.den,
                q.den == a.den * b.num,
        ;
    } else {
        lemma_mul_pos(a.den as int, -(b.num as int));
        assert(a.den * (-(b.num as int)) == -(a.den * b.num)) by (nonlinear_arith);
        lemma_mul_pos(q.den as int, b.den as int);
        assert((q.num * b.num) * a.den == a.num * (q.den * b.den)) by (nonlinear_arith)
            requires
                q.num == -(a.num * b.den),
                q.den == -(a.den * b.num),
        ;
    }
}

/// Inverting an already normalised fraction twice gives the original value
/// back, field for field.
pub proof fn lemma_inverted_involutive(x: Frac)
    requires
        x.wf(),
        x.normalised_spec() == x,
    ensures
        x.inverted_spec().inverted_spec() == x,
{
}

} // verus!
