//! The per-channel numeric contract, and its implementations for the
//! fixed-range unsigned integer widths.

use vstd::prelude::*;

verus! {

/// The numerical value of a single channel of a color.
///
/// A channel type supplies an order (used for clamping), the two distinguished
/// values zero (no intensity) and one (full intensity), normalisation,
/// inversion, and the four piecewise arithmetic operations. Each executable
/// operation is pinned to a specification-level counterpart, so whole-color
/// contracts can speak of channel results exactly.
///
/// For a fixed-range unsigned integer of width W, the whole representable
/// range [0, MAX_W] counts as normalised: `normalised` is the identity,
/// `one` is MAX_W, and `inverted` is `MAX_W - value`, which never underflows.
pub trait Channel: Sized + Copy {
    /// Well-formed channel values. Operations take and return only these.
    spec fn wf(self) -> bool;

    /// The order that clamping goes by.
    spec fn le_spec(self, other: Self) -> bool;

    /// The channel value for no intensity.
    spec fn zero_spec() -> Self;

    /// The channel value for full intensity.
    spec fn one_spec() -> Self;

    /// What `normalised` returns.
    spec fn normalised_spec(self) -> Self;

    /// What `inverted` returns.
    spec fn inverted_spec(self) -> Self;

    /// Whether `self + other` stays within the channel type.
    spec fn add_ok(self, other: Self) -> bool;

    /// What `add` returns.
    spec fn add_spec(self, other: Self) -> Self;

    /// Whether `self - other` stays within the channel type.
    spec fn sub_ok(self, other: Self) -> bool;

    /// What `sub` returns.
    spec fn sub_spec(self, other: Self) -> Self;

    /// Whether `self * other` stays within the channel type.
    spec fn mul_ok(self, other: Self) -> bool;

    /// What `mul` returns.
    spec fn mul_spec(self, other: Self) -> Self;

    /// Whether `self / other` is defined (the divisor is not zero, and the
    /// quotient stays within the channel type).
    spec fn div_ok(self, other: Self) -> bool;

    /// What `div` returns.
    spec fn div_spec(self, other: Self) -> Self;

    /// The order is reflexive.
    proof fn lemma_le_refl(self)
        requires
            self.wf(),
        ensures
            self.le_spec(self),
    ;

    /// The channel value for no intensity.
    fn zero() -> (r: Self)
        ensures
            r == Self::zero_spec(),
            r.wf(),
    ;

    /// The channel value for full intensity.
    fn one() -> (r: Self)
        ensures
            r == Self::one_spec(),
            r.wf(),
    ;

    /// Decide the order between two channel values.
    fn le(self, other: Self) -> (r: bool)
        requires
            self.wf(),
            other.wf(),
        ensures
            r == self.le_spec(other),
    ;

    /// Invert this channel: the value is replaced by its distance from full
    /// intensity, after normalisation.
    fn inverted(self) -> (r: Self)
        requires
            self.wf(),
        ensures
            r == self.inverted_spec(),
            r.wf(),
    ;

    /// Normalise the channel. For unsigned integers, this changes nothing.
    /// For fraction channels, this clamps the value between zero and one.
    fn normalised(self) -> (r: Self)
        requires
            self.wf(),
        ensures
            r == self.normalised_spec(),
            r.wf(),
    ;

    /// Piecewise addition.
    fn add(self, other: Self) -> (r: Self)
        requires
            self.wf(),
            other.wf(),
            self.add_ok(other),
        ensures
            r == self.add_spec(other),
            r.wf(),
    ;

    /// Piecewise subtraction.
    fn sub(self, other: Self) -> (r: Self)
        requires
            self.wf(),
            other.wf(),
            self.sub_ok(other),
        ensures
            r == self.sub_spec(other),
            r.wf(),
    ;

    /// Piecewise multiplication.
    fn mul(self, other: Self) -> (r: Self)
        requires
            self.wf(),
            other.wf(),
            self.mul_ok(other),
        ensures
            r == self.mul_spec(other),
            r.wf(),
    ;

    /// Piecewise division.
    fn div(self, other: Self) -> (r: Self)
        requires
            self.wf(),
            other.wf(),
            self.div_ok(other),
        ensures
            r == self.div_spec(other),
            r.wf(),
    ;
}

impl Channel for u8 {
    open spec fn wf(self) -> bool {
        true
    }

    open spec fn le_spec(self, other: Self) -> bool {
        self <= other
    }

    open spec fn zero_spec() -> Self {
        0u8
    }

    open spec fn one_spec() -> Self {
        255u8
    }

    open spec fn normalised_spec(self) -> Self {
        self
    }

    open spec fn inverted_spec(self) -> Self {
        (255 - self) as u8
    }

    open spec fn add_ok(self, other: Self) -> bool {
        self + other <= 255
    }

    open spec fn add_spec(self, other: Self) -> Self {
        (self + other) as u8
    }

    open spec fn sub_ok(self, other: Self) -> bool {
        other <= self
    }

    open spec fn sub_spec(self, other: Self) -> Self {
        (self - other) as u8
    }

    open spec fn mul_ok(self, other: Self) -> bool {
        self * other <= 255
    }

    open spec fn mul_spec(self, other: Self) -> Self {
        (self * other) as u8
    }

    open spec fn div_ok(self, other: Self) -> bool {
        other != 0
    }

    open spec fn div_spec(self, other: Self) -> Self {
        self / other
    }

    proof fn lemma_le_refl(self) {
    }

    fn zero() -> (r: Self) {
        0
    }

    fn one() -> (r: Self) {
        255
    }

    fn le(self, other: Self) -> (r: bool) {
        self <= other
    }

    fn inverted(self) -> (r: Self) {
        255 - self
    }

    fn normalised(self) -> (r: Self) {
        self
    }

    fn add(self, other: Self) -> (r: Self) {
        self + other
    }

    fn sub(self, other: Self) -> (r: Self) {
        self - other
    }

    fn mul(self, other: Self) -> (r: Self) {
        self * other
    }

    fn div(self, other: Self) -> (r: Self) {
        self / other
    }
}

impl Channel for u16 {
    open spec fn wf(self) -> bool {
        true
    }

    open spec fn le_spec(self, other: Self) -> bool {
        self <= other
    }

    open spec fn zero_spec() -> Self {
        0u16
    }

    open spec fn one_spec() -> Self {
        0xFFFFu16
    }

    open spec fn normalised_spec(self) -> Self {
        self
    }

    open spec fn inverted_spec(self) -> Self {
        (0xFFFF - self) as u16
    }

    open spec fn add_ok(self, other: Self) -> bool {
        self + other <= 0xFFFF
    }

    open spec fn add_spec(self, other: Self) -> Self {
        (self + other) as u16
    }

    open spec fn sub_ok(self, other: Self) -> bool {
        other <= self
    }

    open spec fn sub_spec(self, other: Self) -> Self {
        (self - other) as u16
    }

    open spec fn mul_ok(self, other: Self) -> bool {
        self * other <= 0xFFFF
    }

    open spec fn mul_spec(self, other: Self) -> Self {
        (self * other) as u16
    }

    open spec fn div_ok(self, other: Self) -> bool {
        other != 0
    }

    open spec fn div_spec(self, other: Self) -> Self {
        self / other
    }

    proof fn lemma_le_refl(self) {
    }

    fn zero() -> (r: Self) {
        0
    }

    fn one() -> (r: Self) {
        0xFFFF
    }

    fn le(self, other: Self) -> (r: bool) {
        self <= other
    }

    fn inverted(self) -> (r: Self) {
        0xFFFF - self
    }

    fn normalised(self) -> (r: Self) {
        self
    }

    fn add(self, other: Self) -> (r: Self) {
        self + other
    }

    fn sub(self, other: Self) -> (r: Self) {
        self - other
    }

    fn mul(self, other: Self) -> (r: Self) {
        self * other
    }

    fn div(self, other: Self) -> (r: Self) {
        self / other
    }
}

impl Channel for u32 {
    open spec fn wf(self) -> bool {
        true
    }

    open spec fn le_spec(self, other: Self) -> bool {
        self <= other
    }

    open spec fn zero_spec() -> Self {
        0u32
    }

    open spec fn one_spec() -> Self {
        0xFFFF_FFFFu32
    }

    open spec fn normalised_spec(self) -> Self {
        self
    }

    open spec fn inverted_spec(self) -> Self {
        (0xFFFF_FFFF - self) as u32
    }

    open spec fn add_ok(self, other: Self) -> bool {
        self + other <= 0xFFFF_FFFF
    }

    open spec fn add_spec(self, other: Self) -> Self {
        (self + other) as u32
    }

    open spec fn sub_ok(self, other: Self) -> bool {
        other <= self
    }

    open spec fn sub_spec(self, other: Self) -> Self {
        (self - other) as u32
    }

    open spec fn mul_ok(self, other: Self) -> bool {
        self * other <= 0xFFFF_FFFF
    }

    open spec fn mul_spec(self, other: Self) -> Self {
        (self * other) as u32
    }

    open spec fn div_ok(self, other: Self) -> bool {
        other != 0
    }

    open spec fn div_spec(self, other: Self) -> Self {
        self / other
    }

    proof fn lemma_le_refl(self) {
    }

    fn zero() -> (r: Self) {
        0
    }

    fn one() -> (r: Self) {
        0xFFFF_FFFF
    }

    fn le(self, other: Self) -> (r: bool) {
        self <= other
    }

    fn inverted(self) -> (r: Self) {
        0xFFFF_FFFF - self
    }

    fn normalised(self) -> (r: Self) {
        self
    }

    fn add(self, other: Self) -> (r: Self) {
        self + other
    }

    fn sub(self, other: Self) -> (r: Self) {
        self - other
    }

    fn mul(self, other: Self) -> (r: Self) {
        self * other
    }

    fn div(self, other: Self) -> (r: Self) {
        self / other
    }
}

impl Channel for u64 {
    open spec fn wf(self) -> bool {
        true
    }

    open spec fn le_spec(self, other: Self) -> bool {
        self <= other
    }

    open spec fn zero_spec() -> Self {
        0u64
    }

    open spec fn one_spec() -> Self {
        0xFFFF_FFFF_FFFF_FFFFu64
    }

    open spec fn normalised_spec(self) -> Self {
        self
    }

    open spec fn inverted_spec(self) -> Self {
        (0xFFFF_FFFF_FFFF_FFFF - self) as u64
    }

    open spec fn add_ok(self, other: Self) -> bool {
        self + other <= 0xFFFF_FFFF_FFFF_FFFF
    }

    open spec fn add_spec(self, other: Self) -> Self {
        (self + other) as u64
    }

    open spec fn sub_ok(self, other: Self) -> bool {
        other <= self
    }

    open spec fn sub_spec(self, other: Self) -> Self {
        (self - other) as u64
    }

    open spec fn mul_ok(self, other: Self) -> bool {
        self * other <= 0xFFFF_FFFF_FFFF_FFFF
    }

    open spec fn mul_spec(self, other: Self) -> Self {
        (self * other) as u64
    }

    open spec fn div_ok(self, other: Self) -> bool {
        other != 0
    }

    open spec fn div_spec(self, other: Self) -> Self {
        self / other
    }

    proof fn lemma_le_refl(self) {
    }

    fn zero() -> (r: Self) {
        0
    }

    fn one() -> (r: Self) {
        0xFFFF_FFFF_FFFF_FFFF
    }

    fn le(self, other: Self) -> (r: bool) {
        self <= other
    }

    fn inverted(self) -> (r: Self) {
        0xFFFF_FFFF_FFFF_FFFF - self
    }

    fn normalised(self) -> (r: Self) {
        self
    }

    fn add(self, other: Self) -> (r: Self) {
        self + other
    }

    fn sub(self, other: Self) -> (r: Self) {
        self - other
    }

    fn mul(self, other: Self) -> (r: Self) {
        self * other
    }

    fn div(self, other: Self) -> (r: Self) {
        self / other
    }
}

/// A fixed-range unsigned integer channel narrow enough for its values to be
/// carried exactly into a fraction of the width's full range.
pub trait IntegralChannel: Channel {
    /// The channel value as an integer.
    spec fn as_int(self) -> int;

    /// The width's maximum value.
    spec fn max_int() -> int;

    /// Values lie between zero and the maximum, and the maximum itself fits
    /// a fraction's denominator.
    proof fn lemma_scale_range(self)
        ensures
            0 <= self.as_int() <= Self::max_int(),
            1 <= Self::max_int() <= 0x4000_0000_0000_0000,
    ;

    /// The channel value, widened.
    fn to_i128(self) -> (r: i128)
        ensures
            r == self.as_int(),
    ;

    /// The width's maximum value, widened.
    fn max_i128() -> (r: i128)
        ensures
            r == Self::max_int(),
    ;
}

impl IntegralChannel for u8 {
    open spec fn as_int(self) -> int {
        self as int
    }

    open spec fn max_int() -> int {
        0xFF
    }

    proof fn lemma_scale_range(self) {
    }

    fn to_i128(self) -> (r: i128) {
        self as i128
    }

    fn max_i128() -> (r: i128) {
        0xFF
    }
}

impl IntegralChannel for u16 {
    open spec fn as_int(self) -> int {
        self as int
    }

    open spec fn max_int() -> int {
        0xFFFF
    }

    proof fn lemma_scale_range(self) {
    }

    fn to_i128(self) -> (r: i128) {
        self as i128
    }

    fn max_i128() -> (r: i128) {
        0xFFFF
    }
}

impl IntegralChannel for u32 {
    open spec fn as_int(self) -> int {
        self as int
    }

    open spec fn max_int() -> int {
        0xFFFF_FFFF
    }

    proof fn lemma_scale_range(self) {
    }

    fn to_i128(self) -> (r: i128) {
        self as i128
    }

    fn max_i128() -> (r: i128) {
        0xFFFF_FFFF
    }
}

/// Inverting a `u8` channel subtracts it from the width's maximum, and doing
/// so twice gives the original value back.
pub proof fn lemma_u8_invert(x: u8)
    ensures
        x.inverted_spec() == (255 - x) as u8,
        x.inverted_spec().inverted_spec() == x,
{
}

/// Inverting a `u16` channel subtracts it from the width's maximum, and doing
/// so twice gives the original value back.
pub proof fn lemma_u16_invert(x: u16)
    ensures
        x.inverted_spec() == (0xFFFF - x) as u16,
        x.inverted_spec().inverted_spec() == x,
{
}

/// Inverting a `u32` channel subtracts it from the width's maximum, and doing
/// so twice gives the original value back.
pub proof fn lemma_u32_invert(x: u32)
    ensures
        x.inverted_spec() == (0xFFFF_FFFF - x) as u32,
        x.inverted_spec().inverted_spec() == x,
{
}

/// Inverting a `u64` channel subtracts it from the width's maximum, and doing
/// so twice gives the original value back.
pub proof fn lemma_u64_invert(x: u64)
    ensures
        x.inverted_spec() == (0xFFFF_FFFF_FFFF_FFFF - x) as u64,
        x.inverted_spec().inverted_spec() == x,
{
}

} // verus!
