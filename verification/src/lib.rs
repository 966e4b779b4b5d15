//! Generic Rgb and Rgba colors, and common functions for manipulating them.
//!
//! A color is a small value type whose components ("channels") all share one
//! numeric type. Channels come in two categories, each with its own
//! normalisation and inversion semantics:
//!
//! * fixed-range unsigned integers (`u8`, `u16`, `u32`, `u64`), whose whole
//!   representable range counts as normalised, and
//! * exact fractions ([`Frac`]), which stand for fractional intensities and
//!   are normalised into the closed interval [0, 1].
//!
//! Every whole-color operation decomposes into independent per-channel
//! operations; the [`Channel`] trait states the per-channel contract and the
//! [`Color`] trait states the whole-color contract.

use vstd::prelude::*;

mod channel;
mod frac;
mod rgb;
mod rgba;

pub use channel::Channel;
pub use channel::IntegralChannel;
pub use frac::Frac;
pub use rgb::Rgb;
pub use rgba::Rgba;

verus! {

/// Every channel of the sequence is well formed.
pub open spec fn all_wf<T: Channel>(s: Seq<T>) -> bool {
    forall|i: int| 0 <= i < s.len() ==> #[trigger] s[i].wf()
}

/// What `clamp` returns: the smaller of `x` and `max`, then the larger of
/// that and `min`.
pub open spec fn clamp_spec<T: Channel>(x: T, min: T, max: T) -> T {
    let y = if x.le_spec(max) { x } else { max };
    if min.le_spec(y) { y } else { min }
}

/// Clamp a value `x` between two other values. The minimum value must not
/// exceed the maximum value. The result always lies between the two bounds.
pub fn clamp<T: Channel>(x: T, min: T, max: T) -> (r: T)
    requires
        x.wf(),
        min.wf(),
        max.wf(),
        min.le_spec(max),
    ensures
        r == clamp_spec(x, min, max),
        r.wf(),
        min.le_spec(r),
        r.le_spec(max),
{
    proof {
        min.lemma_le_refl();
        max.lemma_le_refl();
    }
    let y = if x.le(max) { x } else { max };
    if min.le(y) {
        y
    } else {
        min
    }
}

/// Convert a fixed-range unsigned integer to an exact fraction, scaled from
/// [0, MAX] onto [0, 1]: the result is exactly `x / MAX`.
pub fn integral_to_frac<I: IntegralChannel>(x: I) -> (r: Frac)
    ensures
        r == (Frac { num: x.as_int() as i128, den: I::max_int() as i128 }),
        r.wf(),
{
    proof {
        x.lemma_scale_range();
    }
    Frac { num: x.to_i128(), den: I::max_i128() }
}

/// A generic color: a fixed-length tuple of channels of one type, with every
/// operation applied to each channel independently.
pub trait Color<T: Channel>: Sized {
    /// The channels of the color, in a fixed order.
    spec fn channels(self) -> Seq<T>;

    /// Clamp each component between two scalar values.
    fn clamp_scalar(&self, min: T, max: T) -> (r: Self)
        requires
            all_wf(self.channels()),
            min.wf(),
            max.wf(),
            min.le_spec(max),
        ensures
            r.channels().len() == self.channels().len(),
            forall|i: int|
                0 <= i < self.channels().len() ==> #[trigger] r.channels()[i] == clamp_spec(
                    self.channels()[i],
                    min,
                    max,
                ),
            all_wf(r.channels()),
            forall|i: int|
                0 <= i < r.channels().len() ==> min.le_spec(#[trigger] r.channels()[i])
                    && r.channels()[i].le_spec(max),
    ;

    /// Clamp each component piecewise between the corresponding channels of
    /// two other colors.
    fn clamp_color(&self, min: &Self, max: &Self) -> (r: Self)
        requires
            all_wf(self.channels()),
            all_wf(min.channels()),
            all_wf(max.channels()),
            min.channels().len() == self.channels().len(),
            max.channels().len() == self.channels().len(),
            forall|i: int|
                0 <= i < self.channels().len() ==> #[trigger] min.channels()[i].le_spec(
                    max.channels()[i],
                ),
        ensures
            r.channels().len() == self.channels().len(),
            forall|i: int|
                0 <= i < self.channels().len() ==> #[trigger] r.channels()[i] == clamp_spec(
                    self.channels()[i],
                    min.channels()[i],
                    max.channels()[i],
                ),
            all_wf(r.channels()),
            forall|i: int|
                0 <= i < r.channels().len() ==> min.channels()[i].le_spec(
                    #[trigger] r.channels()[i],
                ) && r.channels()[i].le_spec(max.channels()[i]),
    ;

    /// Normalise every channel independently. For fixed-range unsigned
    /// integer channels this changes nothing; for fraction channels it
    /// clamps each one into [0, 1].
    fn normalise(&self) -> (r: Self)
        requires
            all_wf(self.channels()),
        ensures
            r.channels().len() == self.channels().len(),
            forall|i: int|
                0 <= i < self.channels().len() ==> #[trigger] r.channels()[i]
                    == self.channels()[i].normalised_spec(),
            all_wf(r.channels()),
    ;

    /// Invert every channel independently.
    fn invert(&self) -> (r: Self)
        requires
            all_wf(self.channels()),
        ensures
            r.channels().len() == self.channels().len(),
            forall|i: int|
                0 <= i < self.channels().len() ==> #[trigger] r.channels()[i]
                    == self.channels()[i].inverted_spec(),
            all_wf(r.channels()),
    ;

    /// The relative brightness of the color. No luminance formula is chosen
    /// yet: this returns the zero channel unconditionally.
    fn luminance(&self) -> (r: T)
        ensures
            r == T::zero_spec(),
    ;

    /// Mix two colors under the additive color model: each channel of the
    /// result is the sum of the corresponding channels of the operands.
    fn mix(&self, other: &Self) -> (r: Self)
        requires
            all_wf(self.channels()),
            all_wf(other.channels()),
            other.channels().len() == self.channels().len(),
            forall|i: int|
                0 <= i < self.channels().len() ==> #[trigger] self.channels()[i].add_ok(
                    other.channels()[i],
                ),
        ensures
            r.channels().len() == self.channels().len(),
            forall|i: int|
                0 <= i < self.channels().len() ==> #[trigger] r.channels()[i]
                    == self.channels()[i].add_spec(other.channels()[i]),
            all_wf(r.channels()),
    ;

    /// Convert the color to greyscale. No luminance formula is chosen yet:
    /// this returns the color unchanged.
    fn to_greyscale(&self) -> (r: Self)
        ensures
            r == *self,
    ;
}

} // verus!
