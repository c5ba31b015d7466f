//! Fixed-point decimal amounts as plain values, with the arithmetic that
//! `rust_decimal` performs on them.
//!
//! A `Dec` holds exactly what a `rust_decimal::Decimal` holds: a sign flag, a
//! 96-bit magnitude and a scale of at most 28 decimal places. Its numeric
//! value is `(-1)^negative * magnitude / 10^scale`.
use vstd::prelude::*;

verus! {

/// Largest magnitude a decimal can hold (2^96 - 1).
pub const MAX_MAGNITUDE: u128 = 0xFFFF_FFFF_FFFF_FFFF_FFFF_FFFFu128;

/// Largest number of decimal places a decimal can hold.
pub const MAX_SCALE: u32 = 28u32;

/// A decimal number: sign, 96-bit magnitude and scale.
#[derive(Clone, Copy, Debug)]
pub struct Dec {
    negative: bool,
    magnitude: u128,
    scale: u32,
}

impl Dec {
    #[verifier::type_invariant]
    spec fn inv(self) -> bool {
        self.magnitude <= MAX_MAGNITUDE && self.scale <= MAX_SCALE
    }

    /// Whether the sign flag is set (a negative zero has it set too).
    pub closed spec fn sign_negative(self) -> bool {
        self.negative
    }

    /// The magnitude, without sign and scale.
    pub closed spec fn magnitude_of(self) -> nat {
        self.magnitude as nat
    }

    /// The number of decimal places.
    pub closed spec fn scale_of(self) -> nat {
        self.scale as nat
    }

    /// The signed mantissa: the value times `10^scale`.
    pub open spec fn mantissa_of(self) -> int {
        if self.sign_negative() {
            -(self.magnitude_of() as int)
        } else {
            self.magnitude_of() as int
        }
    }

    /// Whether the decimal is zero (of either sign).
    pub open spec fn spec_is_zero(self) -> bool {
        self.magnitude_of() == 0
    }

    /// Builds a decimal from its parts; `None` where the magnitude exceeds 96
    /// bits or the scale exceeds 28.
    pub fn from_parts(negative: bool, magnitude: u128, scale: u32) -> (r: Option<Dec>)
        ensures
            r is Some <==> (magnitude <= MAX_MAGNITUDE && scale <= MAX_SCALE),
            r matches Some(d) ==> d.sign_negative() == negative && d.magnitude_of() == magnitude
                && d.scale_of() == scale,
    {
        if magnitude <= MAX_MAGNITUDE && scale <= MAX_SCALE {
            Some(Dec { negative, magnitude, scale })
        } else {
            None
        }
    }

    /// Builds a decimal from a signed integer mantissa and a scale; `None`
    /// where the mantissa exceeds 96 bits or the scale exceeds 28.
    pub fn from_mantissa(mantissa: i128, scale: u32) -> (r: Option<Dec>)
        ensures
            r is Some <==> (-(MAX_MAGNITUDE as int) <= mantissa <= MAX_MAGNITUDE && scale
                <= MAX_SCALE),
            r matches Some(d) ==> d.mantissa_of() == mantissa && d.scale_of() == scale
                && d.sign_negative() == (mantissa < 0),
    {
        if mantissa < -(MAX_MAGNITUDE as i128) || mantissa > MAX_MAGNITUDE as i128 || scale
            > MAX_SCALE {
            None
        } else if mantissa < 0 {
            Some(Dec { negative: true, magnitude: (-mantissa) as u128, scale })
        } else {
            Some(Dec { negative: false, magnitude: mantissa as u128, scale })
        }
    }

    /// `Decimal::ZERO`: no sign, magnitude 0, scale 0.
    pub closed spec fn spec_zero() -> Dec {
        Dec { negative: false, magnitude: 0, scale: 0 }
    }

    /// `Decimal::ONE`: no sign, magnitude 1, scale 0.
    pub closed spec fn spec_one() -> Dec {
        Dec { negative: false, magnitude: 1, scale: 0 }
    }

    /// The decimal zero (`Decimal::ZERO`).
    pub fn zero() -> (r: Dec)
        ensures
            r == Dec::spec_zero(),
            r.mantissa_of() == 0,
            r.scale_of() == 0,
            !r.sign_negative(),
    {
        Dec { negative: false, magnitude: 0, scale: 0 }
    }

    /// The decimal one (`Decimal::ONE`).
    pub fn one() -> (r: Dec)
        ensures
            r == Dec::spec_one(),
            r.mantissa_of() == 1,
            r.scale_of() == 0,
            !r.sign_negative(),
    {
        Dec { negative: false, magnitude: 1, scale: 0 }
    }

    pub fn is_negative(&self) -> (r: bool)
        ensures
            r == self.sign_negative(),
    {
        self.negative
    }

    pub fn magnitude(&self) -> (r: u128)
        ensures
            r == self.magnitude_of(),
            r <= MAX_MAGNITUDE,
    {
        proof {
            use_type_invariant(self);
        }
        self.magnitude
    }

    pub fn scale(&self) -> (r: u32)
        ensures
            r == self.scale_of(),
            r <= MAX_SCALE,
    {
        proof {
            use_type_invariant(self);
        }
        self.scale
    }

    pub fn is_zero(&self) -> (r: bool)
        ensures
            r == self.spec_is_zero(),
    {
        self.magnitude == 0
    }

    /// The same magnitude and scale with the sign flag flipped.
    pub closed spec fn spec_neg(self) -> Dec {
        Dec { negative: !self.negative, ..self }
    }

    /// The same magnitude and scale with the sign flag cleared.
    pub closed spec fn spec_abs(self) -> Dec {
        Dec { negative: false, ..self }
    }

    /// Negating the absolute value gives a decimal with the sign flag set and
    /// the same magnitude and scale, whatever the sign was.
    pub proof fn lemma_negated_abs(self)
        ensures
            self.spec_abs().spec_neg().sign_negative(),
            self.spec_abs().spec_neg().magnitude_of() == self.magnitude_of(),
            self.spec_abs().spec_neg().scale_of() == self.scale_of(),
    {
    }

    /// The absolute value ignores the sign: `|-d| == |d|`.
    pub proof fn lemma_abs_ignores_sign(self)
        ensures
            self.spec_neg().spec_abs() == self.spec_abs(),
    {
    }

    /// The same magnitude and scale with the sign flag flipped, as
    /// `Neg for Decimal` does.
    pub fn neg(&self) -> (r: Dec)
        ensures
            r == self.spec_neg(),
            r.sign_negative() == !self.sign_negative(),
            r.magnitude_of() == self.magnitude_of(),
            r.scale_of() == self.scale_of(),
    {
        proof {
            use_type_invariant(self);
        }
        Dec { negative: !self.negative, magnitude: self.magnitude, scale: self.scale }
    }

    /// The same magnitude and scale with the sign flag cleared, as
    /// `Decimal::abs` does.
    pub fn abs(&self) -> (r: Dec)
        ensures
            r == self.spec_abs(),
            !r.sign_negative(),
            r.magnitude_of() == self.magnitude_of(),
            r.scale_of() == self.scale_of(),
    {
        proof {
            use_type_invariant(self);
        }
        Dec { negative: false, magnitude: self.magnitude, scale: self.scale }
    }

    /// `self + other`, or `None` where the sum overflows.
    pub fn checked_add(&self, other: &Dec) -> (r: Option<Dec>)
        ensures
            r == decimal_checked_add(*self, *other),
    {
        proof {
            use_type_invariant(self);
            use_type_invariant(other);
        }
        rust_decimal_checked_add(*self, *other)
    }

    /// `self - other`, or `None` where the difference overflows.
    pub fn checked_sub(&self, other: &Dec) -> (r: Option<Dec>)
        ensures
            r == decimal_checked_sub(*self, *other),
    {
        proof {
            use_type_invariant(self);
            use_type_invariant(other);
        }
        rust_decimal_checked_sub(*self, *other)
    }

    /// `self * other`, or `None` where the product overflows.
    pub fn checked_mul(&self, other: &Dec) -> (r: Option<Dec>)
        ensures
            r == decimal_checked_mul(*self, *other),
    {
        proof {
            use_type_invariant(self);
            use_type_invariant(other);
        }
        rust_decimal_checked_mul(*self, *other)
    }

    /// `self / other`, or `None` where `other` is zero or the quotient
    /// overflows.
    pub fn checked_div(&self, other: &Dec) -> (r: Option<Dec>)
        ensures
            r == decimal_checked_div(*self, *other),
            other.spec_is_zero() ==> r is None,
    {
        proof {
            use_type_invariant(self);
            use_type_invariant(other);
        }
        rust_decimal_checked_div(*self, *other)
    }
}

/// What `rust_decimal::Decimal::checked_add` returns for two decimals.
pub uninterp spec fn decimal_checked_add(a: Dec, b: Dec) -> Option<Dec>;

/// What `rust_decimal::Decimal::checked_sub` returns for two decimals.
pub uninterp spec fn decimal_checked_sub(a: Dec, b: Dec) -> Option<Dec>;

/// What `rust_decimal::Decimal::checked_mul` returns for two decimals.
pub uninterp spec fn decimal_checked_mul(a: Dec, b: Dec) -> Option<Dec>;

/// What `rust_decimal::Decimal::checked_div` returns for two decimals.
pub uninterp spec fn decimal_checked_div(a: Dec, b: Dec) -> Option<Dec>;

/// Calls `rust_decimal::Decimal::checked_add`. The contract claims only that
/// the result is a function of the two operands (named
/// `decimal_checked_add`); the operands are rebuilt with
/// `from_i128_with_scale`, which cannot panic on valid parts.
#[verifier::external_body]
fn rust_decimal_checked_add(a: Dec, b: Dec) -> (r: Option<Dec>)
    requires
        a.inv(),
        b.inv(),
    ensures
        r == decimal_checked_add(a, b),
{
    let mut x = rust_decimal::Decimal::from_i128_with_scale(a.magnitude as i128, a.scale);
    x.set_sign_negative(a.negative);
    let mut y = rust_decimal::Decimal::from_i128_with_scale(b.magnitude as i128, b.scale);
    y.set_sign_negative(b.negative);
    x.checked_add(y).map(
        |d| Dec { negative: d.is_sign_negative(), magnitude: d.mantissa().unsigned_abs(), scale: d.scale() },
    )
}

/// Calls `rust_decimal::Decimal::checked_sub`. The contract claims only that
/// the result is a function of the two operands (named
/// `decimal_checked_sub`).
#[verifier::external_body]
fn rust_decimal_checked_sub(a: Dec, b: Dec) -> (r: Option<Dec>)
    requires
        a.inv(),
        b.inv(),
    ensures
        r == decimal_checked_sub(a, b),
{
    let mut x = rust_decimal::Decimal::from_i128_with_scale(a.magnitude as i128, a.scale);
    x.set_sign_negative(a.negative);
    let mut y = rust_decimal::Decimal::from_i128_with_scale(b.magnitude as i128, b.scale);
    y.set_sign_negative(b.negative);
    x.checked_sub(y).map(
        |d| Dec { negative: d.is_sign_negative(), magnitude: d.mantissa().unsigned_abs(), scale: d.scale() },
    )
}

/// Calls `rust_decimal::Decimal::checked_mul`. The contract claims only that
/// the result is a function of the two operands (named
/// `decimal_checked_mul`).
#[verifier::external_body]
fn rust_decimal_checked_mul(a: Dec, b: Dec) -> (r: Option<Dec>)
    requires
        a.inv(),
        b.inv(),
    ensures
        r == decimal_checked_mul(a, b),
{
    let mut x = rust_decimal::Decimal::from_i128_with_scale(a.magnitude as i128, a.scale);
    x.set_sign_negative(a.negative);
    let mut y = rust_decimal::Decimal::from_i128_with_scale(b.magnitude as i128, b.scale);
    y.set_sign_negative(b.negative);
    x.checked_mul(y).map(
        |d| Dec { negative: d.is_sign_negative(), magnitude: d.mantissa().unsigned_abs(), scale: d.scale() },
    )
}

/// Calls `rust_decimal::Decimal::checked_div`. The contract claims that the
/// result is a function of the two operands (named `decimal_checked_div`)
/// and, as the crate's source shows (`div_impl` answers `DivByZero`), that a
/// zero divisor gives `None`.
#[verifier::external_body]
fn rust_decimal_checked_div(a: Dec, b: Dec) -> (r: Option<Dec>)
    requires
        a.inv(),
        b.inv(),
    ensures
        r == decimal_checked_div(a, b),
        b.magnitude == 0 ==> r is None,
{
    let mut x = rust_decimal::Decimal::from_i128_with_scale(a.magnitude as i128, a.scale);
    x.set_sign_negative(a.negative);
    let mut y = rust_decimal::Decimal::from_i128_with_scale(b.magnitude as i128, b.scale);
    y.set_sign_negative(b.negative);
    x.checked_div(y).map(
        |d| Dec { negative: d.is_sign_negative(), magnitude: d.mantissa().unsigned_abs(), scale: d.scale() },
    )
}

} // verus!
