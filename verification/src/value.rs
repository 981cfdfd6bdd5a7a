use vstd::prelude::*;

verus! {

/// Mask of the sign bit of an IEEE-754 binary64 value.
pub const SIGN_MASK: u64 = 0x8000_0000_0000_0000;

/// Mask of the eleven exponent bits of an IEEE-754 binary64 value.
pub const EXPONENT_MASK: u64 = 0x7FF0_0000_0000_0000;

/// Mask of the fifty-two fraction bits of an IEEE-754 binary64 value.
pub const FRACTION_MASK: u64 = 0x000F_FFFF_FFFF_FFFF;

/// Mask of everything but the sign bit.
pub const MAGNITUDE_MASK: u64 = 0x7FFF_FFFF_FFFF_FFFF;

/// A double-precision reading, carried by its IEEE-754 binary64 bit
/// pattern (the value of `f64::to_bits`). Sensor values are read in this
/// form, so that every decision the library takes on them (is it finite,
/// is it within bounds, which one is smallest) is a decision on integers.
#[derive(Clone, Copy, Debug, PartialEq, Eq, Structural)]
pub struct Real {
    pub bits: u64,
}

impl Real {
    /// Neither infinite nor NaN: the exponent bits are not all set.
    pub open spec fn spec_finite(self) -> bool {
        self.bits & EXPONENT_MASK != EXPONENT_MASK
    }

    /// A NaN: all exponent bits set and a non-zero fraction.
    pub open spec fn spec_nan(self) -> bool {
        self.bits & EXPONENT_MASK == EXPONENT_MASK && self.bits & FRACTION_MASK != 0
    }

    /// The position of a non-NaN value on the real line, up to scale:
    /// IEEE-754 orders non-NaN doubles as sign and magnitude, so for two
    /// non-NaN values `a <= b` holds exactly when `a.order_key() <= b.order_key()`
    /// (both zeros have key 0; the infinities have the extreme keys).
    pub open spec fn order_key(self) -> int {
        if self.bits & SIGN_MASK == SIGN_MASK {
            -((self.bits & MAGNITUDE_MASK) as int)
        } else {
            (self.bits & MAGNITUDE_MASK) as int
        }
    }

    /// `self <= other` as doubles compare: false when either is NaN.
    pub open spec fn spec_le(self, other: Real) -> bool {
        !self.spec_nan() && !other.spec_nan() && self.order_key() <= other.order_key()
    }

    /// `self < other` as doubles compare: false when either is NaN.
    pub open spec fn spec_lt(self, other: Real) -> bool {
        !self.spec_nan() && !other.spec_nan() && self.order_key() < other.order_key()
    }

    /// `self == other` as doubles compare: false when either is NaN; the
    /// two zeros are equal.
    pub open spec fn spec_same_double(self, other: Real) -> bool {
        !self.spec_nan() && !other.spec_nan() && self.order_key() == other.order_key()
    }

    /// Either zero: all bits but the sign are clear.
    pub open spec fn spec_zero(self) -> bool {
        self.bits & MAGNITUDE_MASK == 0
    }

    /// Whether the value is `0.0` or `-0.0` (`x == 0.0`).
    pub fn is_zero(&self) -> (res: bool)
        ensures
            res == self.spec_zero(),
    {
        self.bits & MAGNITUDE_MASK == 0
    }

    /// Whether the value is finite (`f64::is_finite`).
    pub fn is_finite(&self) -> (res: bool)
        ensures
            res == self.spec_finite(),
    {
        self.bits & EXPONENT_MASK != EXPONENT_MASK
    }

    /// Whether the value is a NaN (`f64::is_nan`).
    pub fn is_nan(&self) -> (res: bool)
        ensures
            res == self.spec_nan(),
    {
        self.bits & EXPONENT_MASK == EXPONENT_MASK && self.bits & FRACTION_MASK != 0
    }

    /// The order key of the value as a machine integer.
    pub fn key(&self) -> (k: i64)
        ensures
            k == self.order_key(),
    {
        let bits = self.bits;
        let magnitude = bits & MAGNITUDE_MASK;
        assert(bits & 0x7FFF_FFFF_FFFF_FFFFu64 <= 0x7FFF_FFFF_FFFF_FFFFu64) by (bit_vector);
        if bits & SIGN_MASK == SIGN_MASK {
            -(magnitude as i64)
        } else {
            magnitude as i64
        }
    }

    /// `self <= other` as doubles compare.
    pub fn le(&self, other: &Real) -> (res: bool)
        ensures
            res == self.spec_le(*other),
    {
        !self.is_nan() && !other.is_nan() && self.key() <= other.key()
    }

    /// `self < other` as doubles compare.
    pub fn lt(&self, other: &Real) -> (res: bool)
        ensures
            res == self.spec_lt(*other),
    {
        !self.is_nan() && !other.is_nan() && self.key() < other.key()
    }
}

/// What a metric sample measures.
#[derive(Clone, Debug, PartialEq)]
pub enum MetricValue {
    /// A double reading.
    Real(Real),
    /// A whole number (a count, a status code, a flag), stored as the
    /// nearest double.
    Integer(u64),
    /// The arithmetic mean of these finite doubles, summed in order and
    /// divided by their number. Floating-point sums are evaluated where the
    /// sample is written, and `settle_mean_sample` then keeps the finite
    /// mean as a double or drops the sample when the sum overflowed.
    Mean(Vec<Real>),
}

/// The mathematical content of a [`MetricValue`].
pub enum MetricValueView {
    Real(Real),
    Integer(u64),
    Mean(Seq<Real>),
}

impl View for MetricValue {
    type V = MetricValueView;

    open spec fn view(&self) -> MetricValueView {
        match self {
            MetricValue::Real(r) => MetricValueView::Real(*r),
            MetricValue::Integer(n) => MetricValueView::Integer(*n),
            MetricValue::Mean(values) => MetricValueView::Mean(values@),
        }
    }
}

} // verus!
