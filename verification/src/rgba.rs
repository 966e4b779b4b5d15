//! A color with four channels: red, green, blue, and alpha.

use vstd::prelude::*;

use crate::channel::Channel;
use crate::channel::IntegralChannel;
use crate::clamp;
use crate::frac::Frac;
use crate::integral_to_frac;
use crate::rgb::Rgb;
use crate::Color;

verus! {

/// An Rgba color with 4 channels: red, green, blue, and alpha. The alpha
/// channel is independent of the other three.
#[derive(Clone, Copy)]
pub struct Rgba<T: Channel> {
    /// Red, green, and blue components.
    pub rgb: Rgb<T>,
    /// Alpha component.
    pub a: T,
}

impl<T: Channel> Rgba<T> {
    /// Every channel is well formed.
    pub open spec fn wf(self) -> bool {
        self.rgb.wf() && self.a.wf()
    }

    /// Creates a new color, with the red, blue, and green components set to
    /// zero (black color), and a fully opaque alpha channel.
    pub fn new() -> (c: Rgba<T>)
        ensures
            c.rgb.r == T::zero_spec(),
            c.rgb.g == T::zero_spec(),
            c.rgb.b == T::zero_spec(),
            c.a == T::one_spec(),
            c.wf(),
    {
        Rgb::new().rgba(T::one())
    }

    /// Construct an Rgba color piecewise from individual components.
    pub fn with_components(r: T, g: T, b: T, a: T) -> (c: Rgba<T>)
        ensures
            c.rgb.r == r,
            c.rgb.g == g,
            c.rgb.b == b,
            c.a == a,
    {
        Rgba { rgb: Rgb::with_components(r, g, b), a }
    }

    /// Construct an Rgba color from a 4-length slice of channels.
    pub fn from_slice(col: [T; 4]) -> (c: Rgba<T>)
        ensures
            c.rgb.r == col[0],
            c.rgb.g == col[1],
            c.rgb.b == col[2],
            c.a == col[3],
    {
        Rgba::with_components(col[0], col[1], col[2], col[3])
    }

    /// Returns the red channel value.
    pub fn r(&self) -> (v: T)
        ensures
            v == self.rgb.r,
    {
        self.rgb.r()
    }

    /// Returns the green channel value.
    pub fn g(&self) -> (v: T)
        ensures
            v == self.rgb.g,
    {
        self.rgb.g()
    }

    /// Returns the blue channel value.
    pub fn b(&self) -> (v: T)
        ensures
            v == self.rgb.b,
    {
        self.rgb.b()
    }

    /// Returns the alpha channel value.
    pub fn a(&self) -> (v: T)
        ensures
            v == self.a,
    {
        self.a
    }

    /// Set the red channel value.
    pub fn set_r(&mut self, r: T)
        ensures
            final(self).rgb.r == r,
            final(self).rgb.g == old(self).rgb.g,
            final(self).rgb.b == old(self).rgb.b,
            final(self).a == old(self).a,
    {
        self.rgb.set_r(r);
    }

    /// Set the green channel value.
    pub fn set_g(&mut self, g: T)
        ensures
            final(self).rgb.g == g,
            final(self).rgb.r == old(self).rgb.r,
            final(self).rgb.b == old(self).rgb.b,
            final(self).a == old(self).a,
    {
        self.rgb.set_g(g);
    }

    /// Set the blue channel value.
    pub fn set_b(&mut self, b: T)
        ensures
            final(self).rgb.b == b,
            final(self).rgb.r == old(self).rgb.r,
            final(self).rgb.g == old(self).rgb.g,
            final(self).a == old(self).a,
    {
        self.rgb.set_b(b);
    }

    /// Set the alpha channel value.
    pub fn set_a(&mut self, a: T)
        ensures
            final(self).a == a,
            final(self).rgb == old(self).rgb,
    {
        self.a = a;
    }

    /// Create an Rgb color from this color, ignoring the alpha.
    pub fn rgb(&self) -> (c: Rgb<T>)
        ensures
            c == self.rgb,
    {
        self.rgb
    }

    /// Return each component in a 4-element tuple. Useful for destructuring.
    pub fn components(&self) -> (t: (T, T, T, T))
        ensures
            t == (self.rgb.r, self.rgb.g, self.rgb.b, self.a),
    {
        (self.rgb.r, self.rgb.g, self.rgb.b, self.a)
    }

    /// Return each component in a 4-element slice.
    pub fn to_slice(&self) -> (col: [T; 4])
        ensures
            col[0] == self.rgb.r,
            col[1] == self.rgb.g,
            col[2] == self.rgb.b,
            col[3] == self.a,
    {
        [self.rgb.r, self.rgb.g, self.rgb.b, self.a]
    }

    /// Piecewise addition of each component, the alpha channel included. The
    /// result is not normalised: a channel may leave the normalised range.
    pub fn add(&self, other: &Rgba<T>) -> (c: Rgba<T>)
        requires
            self.wf(),
            other.wf(),
            self.rgb.r.add_ok(other.rgb.r),
            self.rgb.g.add_ok(other.rgb.g),
            self.rgb.b.add_ok(other.rgb.b),
            self.a.add_ok(other.a),
        ensures
            c.rgb.r == self.rgb.r.add_spec(other.rgb.r),
            c.rgb.g == self.rgb.g.add_spec(other.rgb.g),
            c.rgb.b == self.rgb.b.add_spec(other.rgb.b),
            c.a == self.a.add_spec(other.a),
            c.wf(),
    {
        self.rgb.add(&other.rgb).rgba(self.a.add(other.a))
    }

    /// Piecewise subtraction of each component, the alpha channel included.
    /// The result is not normalised: a channel may leave the normalised
    /// range.
    pub fn sub(&self, other: &Rgba<T>) -> (c: Rgba<T>)
        requires
            self.wf(),
            other.wf(),
            self.rgb.r.sub_ok(other.rgb.r),
            self.rgb.g.sub_ok(other.rgb.g),
            self.rgb.b.sub_ok(other.rgb.b),
            self.a.sub_ok(other.a),
        ensures
            c.rgb.r == self.rgb.r.sub_spec(other.rgb.r),
            c.rgb.g == self.rgb.g.sub_spec(other.rgb.g),
            c.rgb.b == self.rgb.b.sub_spec(other.rgb.b),
            c.a == self.a.sub_spec(other.a),
            c.wf(),
    {
        self.rgb.sub(&other.rgb).rgba(self.a.sub(other.a))
    }

    /// Piecewise multiplication of each component, the alpha channel
    /// included. The result is not normalised: a channel may leave the
    /// normalised range.
    pub fn mul(&self, other: &Rgba<T>) -> (c: Rgba<T>)
        requires
            self.wf(),
            other.wf(),
            self.rgb.r.mul_ok(other.rgb.r),
            self.rgb.g.mul_ok(other.rgb.g),
            self.rgb.b.mul_ok(other.rgb.b),
            self.a.mul_ok(other.a),
        ensures
            c.rgb.r == self.rgb.r.mul_spec(other.rgb.r),
            c.rgb.g == self.rgb.g.mul_spec(other.rgb.g),
            c.rgb.b == self.rgb.b.mul_spec(other.rgb.b),
            c.a == self.a.mul_spec(other.a),
            c.wf(),
    {
        self.rgb.mul(&other.rgb).rgba(self.a.mul(other.a))
    }

    /// Piecewise division of each component, the alpha channel included.
    /// Every channel of the divisor must have a nonzero value.
    pub fn div(&self, other: &Rgba<T>) -> (c: Rgba<T>)
        requires
            self.wf(),
            other.wf(),
            self.rgb.r.div_ok(other.rgb.r),
            self.rgb.g.div_ok(other.rgb.g),
            self.rgb.b.div_ok(other.rgb.b),
            self.a.div_ok(other.a),
        ensures
            c.rgb.r == self.rgb.r.div_spec(other.rgb.r),
            c.rgb.g == self.rgb.g.div_spec(other.rgb.g),
            c.rgb.b == self.rgb.b.div_spec(other.rgb.b),
            c.a == self.a.div_spec(other.a),
            c.wf(),
    {
        self.rgb.div(&other.rgb).rgba(self.a.div(other.a))
    }
}

impl Rgba<Frac> {
    /// Create an Rgba color from 4 unsigned integers. Each component is the
    /// exact fraction of the integral value over the width's maximum, so the
    /// whole integral range [0, MAX] scales onto [0, 1].
    pub fn from_integral_components<I: IntegralChannel>(r: I, g: I, b: I, a: I) -> (c: Rgba<Frac>)
        ensures
            c.rgb.r == (Frac { num: r.as_int() as i128, den: I::max_int() as i128 }),
            c.rgb.g == (Frac { num: g.as_int() as i128, den: I::max_int() as i128 }),
            c.rgb.b == (Frac { num: b.as_int() as i128, den: I::max_int() as i128 }),
            c.a == (Frac { num: a.as_int() as i128, den: I::max_int() as i128 }),
            c.wf(),
    {
        Rgba::with_components(
            integral_to_frac(r),
            integral_to_frac(g),
            integral_to_frac(b),
            integral_to_frac(a),
        )
    }

    /// Create an Rgba color from a slice of 4 unsigned integers, scaled the
    /// same way as `from_integral_components`.
    pub fn from_integral_slice<I: IntegralChannel>(col: [I; 4]) -> (c: Rgba<Frac>)
        ensures
            c.rgb.r == (Frac { num: col[0].as_int() as i128, den: I::max_int() as i128 }),
            c.rgb.g == (Frac { num: col[1].as_int() as i128, den: I::max_int() as i128 }),
            c.rgb.b == (Frac { num: col[2].as_int() as i128, den: I::max_int() as i128 }),
            c.a == (Frac { num: col[3].as_int() as i128, den: I::max_int() as i128 }),
            c.wf(),
    {
        Rgba::with_components(
            integral_to_frac(col[0]),
            integral_to_frac(col[1]),
            integral_to_frac(col[2]),
            integral_to_frac(col[3]),
        )
    }
}

impl<T: Channel> Color<T> for Rgba<T> {
    /// The four channels, in the order red, green, blue, alpha.
    open spec fn channels(self) -> Seq<T> {
        Seq::new(
            4,
            |i: int|
                if i == 0 {
                    self.rgb.r
                } else if i == 1 {
                    self.rgb.g
                } else if i == 2 {
                    self.rgb.b
                } else {
                    self.a
                },
        )
    }

    fn clamp_scalar(&self, min: T, max: T) -> (res: Self) {
        proof {
            assert(self.channels()[0].wf());
            assert(self.channels()[1].wf());
            assert(self.channels()[2].wf());
            assert(self.channels()[3].wf());
        }
        Rgba::with_components(
            clamp(self.rgb.r, min, max),
            clamp(self.rgb.g, min, max),
            clamp(self.rgb.b, min, max),
            clamp(self.a, min, max),
        )
    }

    fn clamp_color(&self, min: &Self, max: &Self) -> (res: Self) {
        proof {
            assert(self.channels()[0].wf());
            assert(self.channels()[1].wf());
            assert(self.channels()[2].wf());
            assert(self.channels()[3].wf());
            assert(min.channels()[0].wf());
            assert(min.channels()[1].wf());
            assert(min.channels()[2].wf());
            assert(min.channels()[3].wf());
            assert(max.channels()[0].wf());
            assert(max.channels()[1].wf());
            assert(max.channels()[2].wf());
            assert(max.channels()[3].wf());
            assert(min.channels()[0].le_spec(max.channels()[0]));
            assert(min.channels()[1].le_spec(max.channels()[1]));
            assert(min.channels()[2].le_spec(max.channels()[2]));
            assert(min.channels()[3].le_spec(max.channels()[3]));
        }
        Rgba::with_components(
            clamp(self.rgb.r, min.rgb.r, max.rgb.r),
            clamp(self.rgb.g, min.rgb.g, max.rgb.g),
            clamp(self.rgb.b, min.rgb.b, max.rgb.b),
            clamp(self.a, min.a, max.a),
        )
    }

    fn normalise(&self) -> (res: Self) {
        proof {
            assert(self.channels()[0].wf());
            assert(self.channels()[1].wf());
            assert(self.channels()[2].wf());
            assert(self.channels()[3].wf());
        }
        Rgba::with_components(
            self.rgb.r.normalised(),
            self.rgb.g.normalised(),
            self.rgb.b.normalised(),
            self.a.normalised(),
        )
    }

    fn invert(&self) -> (res: Self) {
        proof {
            assert(self.channels()[0].wf());
            assert(self.channels()[1].wf());
            assert(self.channels()[2].wf());
            assert(self.channels()[3].wf());
        }
        Rgba::with_components(
            self.rgb.r.inverted(),
            self.rgb.g.inverted(),
            self.rgb.b.inverted(),
            self.a.inverted(),
        )
    }

    fn luminance(&self) -> (res: T) {
        T::zero()
    }

    fn mix(&self, other: &Self) -> (res: Self) {
        proof {
            assert(self.channels()[0].wf());
            assert(self.channels()[1].wf());
            assert(self.channels()[2].wf());
            assert(self.channels()[3].wf());
            assert(other.channels()[0].wf());
            assert(other.channels()[1].wf());
            assert(other.channels()[2].wf());
            assert(other.channels()[3].wf());
            assert(self.channels()[0].add_ok(other.channels()[0]));
            assert(self.channels()[1].add_ok(other.channels()[1]));
            assert(self.channels()[2].add_ok(other.channels()[2]));
            assert(self.channels()[3].add_ok(other.channels()[3]));
        }
        self.add(other)
    }

    fn to_greyscale(&self) -> (res: Self) {
        *self
    }
}

impl<T: Channel> Default for Rgba<T> {
    /// Identical to `Rgba::new()`.
    fn default() -> (c: Rgba<T>)
        ensures
            c.rgb.r == T::zero_spec(),
            c.rgb.g == T::zero_spec(),
            c.rgb.b == T::zero_spec(),
            c.a == T::one_spec(),
            c.wf(),
    {
        Rgba::new()
    }
}

} // verus!
