//! A color with three channels: red, green and blue.

use vstd::prelude::*;

use crate::channel::Channel;
use crate::channel::IntegralChannel;
use crate::clamp;
use crate::frac::Frac;
use crate::integral_to_frac;
use crate::rgba::Rgba;
use crate::Color;

verus! {

/// An Rgb color with 3 channels: red, green and blue.
#[derive(Clone, Copy)]
pub struct Rgb<T: Channel> {
    /// Red component.
    pub r: T,
    /// Green component.
    pub g: T,
    /// Blue component.
    pub b: T,
}

impl<T: Channel> Rgb<T> {
    /// Every channel is well formed.
    pub open spec fn wf(self) -> bool {
        self.r.wf() && self.g.wf() && self.b.wf()
    }

    /// Construct an Rgb color piecewise from individual components.
    pub fn with_components(r: T, g: T, b: T) -> (c: Rgb<T>)
        ensures
            c.r == r,
            c.g == g,
            c.b == b,
    {
        Rgb { r, g, b }
    }

    /// Construct an Rgb color from a 3-length slice of channels.
    pub fn from_slice(col: [T; 3]) -> (c: Rgb<T>)
        ensures
            c.r == col[0],
            c.g == col[1],
            c.b == col[2],
    {
        Rgb::with_components(col[0], col[1], col[2])
    }

    /// Return each component in a 3-element slice.
    pub fn to_slice(&self) -> (col: [T; 3])
        ensures
            col[0] == self.r,
            col[1] == self.g,
            col[2] == self.b,
    {
        [self.r, self.g, self.b]
    }

    /// Creates a new color, with every component set to zero (black color).
    pub fn new() -> (c: Rgb<T>)
        ensures
            c.r == T::zero_spec(),
            c.g == T::zero_spec(),
            c.b == T::zero_spec(),
            c.wf(),
    {
        Rgb::with_components(T::zero(), T::zero(), T::zero())
    }

    /// Returns the red channel value.
    pub fn r(&self) -> (v: T)
        ensures
            v == self.r,
    {
        self.r
    }

    /// Returns the green channel value.
    pub fn g(&self) -> (v: T)
        ensures
            v == self.g,
    {
        self.g
    }

    /// Returns the blue channel value.
    pub fn b(&self) -> (v: T)
        ensures
            v == self.b,
    {
        self.b
    }

    /// Set the red channel value.
    pub fn set_r(&mut self, r: T)
        ensures
            final(self).r == r,
            final(self).g == old(self).g,
            final(self).b == old(self).b,
    {
        self.r = r;
    }

    /// Set the green channel value.
    pub fn set_g(&mut self, g: T)
        ensures
            final(self).g == g,
            final(self).r == old(self).r,
            final(self).b == old(self).b,
    {
        self.g = g;
    }

    /// Set the blue channel value.
    pub fn set_b(&mut self, b: T)
        ensures
            final(self).b == b,
            final(self).r == old(self).r,
            final(self).g == old(self).g,
    {
        self.b = b;
    }

    /// Create an Rgba color from this color, using the supplied alpha.
    pub fn rgba(&self, a: T) -> (c: Rgba<T>)
        ensures
            c.rgb == *self,
            c.a == a,
    {
        Rgba { rgb: *self, a }
    }

    /// Return each component in a 3-element tuple. Useful for destructuring.
    pub fn components(&self) -> (t: (T, T, T))
        ensures
            t == (self.r, self.g, self.b),
    {
        (self.r, self.g, self.b)
    }

    /// Piecewise addition of each component. The result is not normalised:
    /// a channel may leave the normalised range.
    pub fn add(&self, other: &Rgb<T>) -> (c: Rgb<T>)
        requires
            self.wf(),
            other.wf(),
            self.r.add_ok(other.r),
            self.g.add_ok(other.g),
            self.b.add_ok(other.b),
        ensures
            c.r == self.r.add_spec(other.r),
            c.g == self.g.add_spec(other.g),
            c.b == self.b.add_spec(other.b),
            c.wf(),
    {
        Rgb::with_components(self.r.add(other.r), self.g.add(other.g), self.b.add(other.b))
    }

    /// Piecewise subtraction of each component. The result is not
    /// normalised: a channel may leave the normalised range.
    pub fn sub(&self, other: &Rgb<T>) -> (c: Rgb<T>)
        requires
            self.wf(),
            other.wf(),
            self.r.sub_ok(other.r),
            self.g.sub_ok(other.g),
            self.b.sub_ok(other.b),
        ensures
            c.r == self.r.sub_spec(other.r),
            c.g == self.g.sub_spec(other.g),
            c.b == self.b.sub_spec(other.b),
            c.wf(),
    {
        Rgb::with_components(self.r.sub(other.r), self.g.sub(other.g), self.b.sub(other.b))
    }

    /// Piecewise multiplication of each component. The result is not
    /// normalised: a channel may leave the normalised range.
    pub fn mul(&self, other: &Rgb<T>) -> (c: Rgb<T>)
        requires
            self.wf(),
            other.wf(),
            self.r.mul_ok(other.r),
            self.g.mul_ok(other.g),
            self.b.mul_ok(other.b),
        ensures
            c.r == self.r.mul_spec(other.r),
            c.g == self.g.mul_spec(other.g),
            c.b == self.b.mul_spec(other.b),
            c.wf(),
    {
        Rgb::with_components(self.r.mul(other.r), self.g.mul(other.g), self.b.mul(other.b))
    }

    /// Piecewise division of each component. Every channel of the divisor
    /// must have a nonzero value.
    pub fn div(&self, other: &Rgb<T>) -> (c: Rgb<T>)
        requires
            self.wf(),
            other.wf(),
            self.r.div_ok(other.r),
            self.g.div_ok(other.g),
            self.b.div_ok(other.b),
        ensures
            c.r == self.r.div_spec(other.r),
            c.g == self.g.div_spec(other.g),
            c.b == self.b.div_spec(other.b),
            c.wf(),
    {
        Rgb::with_components(self.r.div(other.r), self.g.div(other.g), self.b.div(other.b))
    }
}

impl Rgb<Frac> {
    /// Create an Rgb color from 3 unsigned integers. Each component is the
    /// exact fraction of the integral value over the width's maximum, so the
    /// whole integral range [0, MAX] scales onto [0, 1].
    pub fn from_integral_components<I: IntegralChannel>(r: I, g: I, b: I) -> (c: Rgb<Frac>)
        ensures
            c.r == (Frac { num: r.as_int() as i128, den: I::max_int() as i128 }),
            c.g == (Frac { num: g.as_int() as i128, den: I::max_int() as i128 }),
            c.b == (Frac { num: b.as_int() as i128, den: I::max_int() as i128 }),
            c.wf(),
    {
        Rgb::with_components(integral_to_frac(r), integral_to_frac(g), integral_to_frac(b))
    }

    /// Create an Rgb color from a slice of 3 unsigned integers, scaled the
    /// same way as `from_integral_components`.
    pub fn from_integral_slice<I: IntegralChannel>(col: [I; 3]) -> (c: Rgb<Frac>)
        ensures
            c.r == (Frac { num: col[0].as_int() as i128, den: I::max_int() as i128 }),
            c.g == (Frac { num: col[1].as_int() as i128, den: I::max_int() as i128 }),
            c.b == (Frac { num: col[2].as_int() as i128, den: I::max_int() as i128 }),
            c.wf(),
    {
        Rgb::with_components(
            integral_to_frac(col[0]),
            integral_to_frac(col[1]),
            integral_to_frac(col[2]),
        )
    }
}

impl<T: Channel> Color<T> for Rgb<T> {
    /// The three channels, in the order red, green, blue.
    open spec fn channels(self) -> Seq<T> {
        Seq::new(
            3,
            |i: int|
                if i == 0 {
                    self.r
                } else if i == 1 {
                    self.g
                } else {
                    self.b
                },
        )
    }

    fn clamp_scalar(&self, min: T, max: T) -> (res: Self) {
        proof {
            assert(self.channels()[0].wf());
            assert(self.channels()[1].wf());
            assert(self.channels()[2].wf());
        }
        Rgb::with_components(
            clamp(self.r, min, max),
            clamp(self.g, min, max),
            clamp(self.b, min, max),
        )
    }

    fn clamp_color(&self, min: &Self, max: &Self) -> (res: Self) {
        proof {
            assert(self.channels()[0].wf());
            assert(self.channels()[1].wf());
            assert(self.channels()[2].wf());
            assert(min.channels()[0].wf());
            assert(min.channels()[1].wf());
            assert(min.channels()[2].wf());
            assert(max.channels()[0].wf());
            assert(max.channels()[1].wf());
            assert(max.channels()[2].wf());
            assert(min.channels()[0].le_spec(max.channels()[0]));
            assert(min.channels()[1].le_spec(max.channels()[1]));
            assert(min.channels()[2].le_spec(max.channels()[2]));
        }
        Rgb::with_components(
            clamp(self.r, min.r, max.r),
            clamp(self.g, min.g, max.g),
            clamp(self.b, min.b, max.b),
        )
    }

    fn normalise(&self) -> (res: Self) {
        proof {
            assert(self.channels()[0].wf());
            assert(self.channels()[1].wf());
            assert(self.channels()[2].wf());
        }
        Rgb::with_components(self.r.normalised(), self.g.normalised(), self.b.normalised())
    }

    fn invert(&self) -> (res: Self) {
        proof {
            assert(self.channels()[0].wf());
            assert(self.channels()[1].wf());
            assert(self.channels()[2].wf());
        }
        Rgb::with_components(self.r.inverted(), self.g.inverted(), self.b.inverted())
    }

    fn luminance(&self) -> (res: T) {
        T::zero()
    }

    fn mix(&self, other: &Self) -> (res: Self) {
        proof {
            assert(self.channels()[0].wf());
            assert(self.channels()[1].wf());
            assert(self.channels()[2].wf());
            assert(other.channels()[0].wf());
            assert(other.channels()[1].wf());
            assert(other.channels()[2].wf());
            assert(self.channels()[0].add_ok(other.channels()[0]));
            assert(self.channels()[1].add_ok(other.channels()[1]));
            assert(self.channels()[2].add_ok(other.channels()[2]));
        }
        self.add(other)
    }

    fn to_greyscale(&self) -> (res: Self) {
        *self
    }
}

impl<T: Channel> Default for Rgb<T> {
    /// Identical to `Rgb::new()`.
    fn default() -> (c: Rgb<T>)
        ensures
            c.r == T::zero_spec(),
            c.g == T::zero_spec(),
            c.b == T::zero_spec(),
            c.wf(),
    {
        Rgb::new()
    }
}

} // verus!
