//! Fixed-point decimal numbers.
//!
//! A [`Dec`] is a signed 96-bit mantissa together with a scale between 0
//! and 28: it denotes the value `mantissa / 10^scale`. All monetary
//! arithmetic of this crate runs through this type. The arithmetic itself
//! is performed by `rust_decimal`, behind a small set of trusted wrappers;
//! everything built on top of them is verified.
//!
//! Contracts measure every decimal on a common integer grid: the denoted
//! value times `10^28` (see [`Dec::val`]). On that grid the results of the
//! four arithmetic operations are named by uninterpreted functions, since
//! their rounding behaviour is `rust_decimal`'s own; the short facts that
//! the wrappers state beside those names (zero and identity cases, when an
//! operation is exact, when it cannot overflow, signs) are the ones the
//! crate's source plainly shows.

use vstd::prelude::*;

verus! {

use vstd::arithmetic::power::pow;
use vstd::arithmetic::mul::lemma_mul_nonzero;
use vstd::arithmetic::mul::lemma_mul_unary_negation;
use vstd::arithmetic::mul::lemma_mul_strictly_positive;
use vstd::arithmetic::mul::lemma_mul_nonnegative;
use vstd::arithmetic::power::lemma_pow_positive;

/// Largest mantissa magnitude that fits in 96 bits: `2^96 - 1`.
pub const MAX_MANTISSA: i128 = 79_228_162_514_264_337_593_543_950_335;

/// Largest number of fractional digits a decimal can carry.
pub const MAX_SCALE: u32 = 28;

/// `10^e`.
pub open spec fn pow10(e: nat) -> int {
    pow(10, e)
}

/// The magnitude of an integer.
pub open spec fn int_abs(x: int) -> int {
    if x < 0 {
        -x
    } else {
        x
    }
}

/// Bound on the scaled value of every well-formed decimal:
/// `(2^96 - 1) * 10^28`.
pub open spec fn max_abs_val() -> int {
    MAX_MANTISSA * pow10(28)
}

/// Whether the scaled value `x` is exactly representable by a mantissa
/// of at most 96 bits at scale `s`.
pub open spec fn fits_at_scale(x: int, s: u32) -> bool {
    -MAX_MANTISSA * pow10((MAX_SCALE - s) as nat) <= x <= MAX_MANTISSA * pow10(
        (MAX_SCALE - s) as nat,
    )
}

/// The larger of two scales.
pub open spec fn scale_max(a: u32, b: u32) -> u32 {
    if a >= b {
        a
    } else {
        b
    }
}

/// A fixed-point decimal: `mantissa / 10^scale`.
#[derive(Clone, Copy, Debug, PartialEq, Eq, Structural)]
pub struct Dec {
    mantissa: i128,
    scale: u32,
}

/// What `rust_decimal`'s checked addition returns for two decimals with
/// the given scaled values, `None` standing for overflow.
pub uninterp spec fn checked_add_val(a: int, b: int) -> Option<int>;

/// What `rust_decimal`'s checked subtraction returns, `None` standing
/// for overflow.
pub uninterp spec fn checked_sub_val(a: int, b: int) -> Option<int>;

/// What `rust_decimal`'s checked multiplication returns, `None` standing
/// for overflow.
pub uninterp spec fn checked_mul_val(a: int, b: int) -> Option<int>;

/// What `rust_decimal`'s checked division returns, `None` standing for a
/// zero divisor or overflow.
pub uninterp spec fn checked_div_val(a: int, b: int) -> Option<int>;

impl Dec {
    /// The denoted value, scaled by `10^28` so that it is an integer.
    pub closed spec fn val(self) -> int {
        self.mantissa * pow10((MAX_SCALE - self.scale) as nat)
    }

    /// The mantissa fits in 96 bits and the scale is at most 28.
    pub closed spec fn wf(self) -> bool {
        -MAX_MANTISSA <= self.mantissa <= MAX_MANTISSA && self.scale <= MAX_SCALE
    }

    /// The scale: how many of the mantissa's digits are fractional.
    pub closed spec fn spec_scale(self) -> u32 {
        self.scale
    }

    /// Builds the decimal `mantissa / 10^scale`.
    pub fn new(mantissa: i128, scale: u32) -> (r: Dec)
        requires
            -MAX_MANTISSA <= mantissa <= MAX_MANTISSA,
            scale <= MAX_SCALE,
        ensures
            r.wf(),
            r.val() == mantissa * pow10((MAX_SCALE - scale) as nat),
            r.spec_scale() == scale,
    {
        Dec { mantissa, scale }
    }

    /// Builds the decimal denoting the integer `i`.
    pub fn from_int(i: i64) -> (r: Dec)
        ensures
            r.wf(),
            r.val() == i * pow10(28),
            r.spec_scale() == 0,
    {
        Dec { mantissa: i as i128, scale: 0 }
    }

    /// The decimal zero.
    pub fn zero() -> (r: Dec)
        ensures
            r.wf(),
            r.val() == 0,
            r.spec_scale() == 0,
    {
        Dec { mantissa: 0, scale: 0 }
    }

    /// The raw mantissa, for callers that need the representation.
    pub fn mantissa(&self) -> i128 {
        self.mantissa
    }

    /// The raw scale, for callers that need the representation.
    pub fn scale(&self) -> u32 {
        self.scale
    }

    /// Whether the denoted value is zero.
    pub fn is_zero(&self) -> (r: bool)
        requires
            self.wf(),
        ensures
            r == (self.val() == 0),
    {
        proof {
            lemma_pow_positive(10, (MAX_SCALE - self.scale) as nat);
            lemma_mul_nonzero(self.mantissa as int, pow10((MAX_SCALE - self.scale) as nat));
        }
        self.mantissa == 0
    }

    /// The negation; exact, since negating flips only the sign bit.
    pub fn neg(&self) -> (r: Dec)
        requires
            self.wf(),
        ensures
            r.wf(),
            r.val() == -self.val(),
    {
        proof {
            lemma_mul_unary_negation(
                self.mantissa as int,
                pow10((MAX_SCALE - self.scale) as nat),
            );
        }
        Dec { mantissa: -self.mantissa, scale: self.scale }
    }

    /// The magnitude; exact, since it touches only the sign bit.
    pub fn abs(&self) -> (r: Dec)
        requires
            self.wf(),
        ensures
            r.wf(),
            r.val() == int_abs(self.val()),
    {
        proof {
            let p = pow10((MAX_SCALE - self.scale) as nat);
            lemma_pow_positive(10, (MAX_SCALE - self.scale) as nat);
            lemma_mul_unary_negation(self.mantissa as int, p);
            if self.mantissa < 0 {
                lemma_mul_strictly_positive(-(self.mantissa as int), p);
            } else {
                lemma_mul_nonnegative(self.mantissa as int, p);
            }
        }
        if self.mantissa < 0 {
            Dec { mantissa: -self.mantissa, scale: self.scale }
        } else {
            *self
        }
    }

    /// Checked addition.
    ///
    /// Relies on `rust_decimal::Decimal::checked_add`: the exact sum when
    /// it is representable at the operands' common scale, a correctly
    /// rounded sum while the integer part still fits in 96 bits, and
    /// `None` only beyond that; adding zero returns the other operand.
    #[verifier::external_body]
    pub fn checked_add(&self, other: &Dec) -> (r: Option<Dec>)
        requires
            self.wf(),
            other.wf(),
        ensures
            (match r {
                Some(d) => d.wf() && checked_add_val(self.val(), other.val()) == Some(d.val())
                    && (fits_at_scale(
                    self.val() + other.val(),
                    scale_max(self.spec_scale(), other.spec_scale()),
                ) ==> d.val() == self.val() + other.val()) && (other.val() == 0 ==> d.val()
                    == self.val()) && (self.val() == 0 ==> d.val() == other.val()),
                None => checked_add_val(self.val(), other.val()) is None && !(-max_abs_val()
                    <= self.val() + other.val() <= max_abs_val()),
            }),
    {
        let x = rust_decimal::Decimal::from_i128_with_scale(self.mantissa, self.scale);
        let y = rust_decimal::Decimal::from_i128_with_scale(other.mantissa, other.scale);
        match x.checked_add(y) {
            Some(d) => Some(Dec { mantissa: d.mantissa(), scale: d.scale() }),
            None => None,
        }
    }

    /// Checked subtraction.
    ///
    /// Relies on `rust_decimal::Decimal::checked_sub`, which behaves as
    /// `checked_add` of the negated right operand.
    #[verifier::external_body]
    pub fn checked_sub(&self, other: &Dec) -> (r: Option<Dec>)
        requires
            self.wf(),
            other.wf(),
        ensures
            (match r {
                Some(d) => d.wf() && checked_sub_val(self.val(), other.val()) == Some(d.val())
                    && (fits_at_scale(
                    self.val() - other.val(),
                    scale_max(self.spec_scale(), other.spec_scale()),
                ) ==> d.val() == self.val() - other.val()) && (other.val() == 0 ==> d.val()
                    == self.val()) && (self.val() == 0 ==> d.val() == -other.val()),
                None => checked_sub_val(self.val(), other.val()) is None && !(-max_abs_val()
                    <= self.val() - other.val() <= max_abs_val()),
            }),
    {
        let x = rust_decimal::Decimal::from_i128_with_scale(self.mantissa, self.scale);
        let y = rust_decimal::Decimal::from_i128_with_scale(other.mantissa, other.scale);
        match x.checked_sub(y) {
            Some(d) => Some(Dec { mantissa: d.mantissa(), scale: d.scale() }),
            None => None,
        }
    }

    /// Checked multiplication.
    ///
    /// Relies on `rust_decimal::Decimal::checked_mul`: the exact product
    /// when it is representable at the sum of the operands' scales, a
    /// correctly rounded product while the integer part still fits in 96
    /// bits, `None` only beyond that, zero whenever an operand is zero,
    /// and a sign that is the product of the operands' signs.
    #[verifier::external_body]
    pub fn checked_mul(&self, other: &Dec) -> (r: Option<Dec>)
        requires
            self.wf(),
            other.wf(),
        ensures
            (match r {
                Some(d) => d.wf() && checked_mul_val(self.val(), other.val()) == Some(d.val())
                    && (self.val() == 0 || other.val() == 0 ==> d.val() == 0) && (
                self.spec_scale() + other.spec_scale() <= MAX_SCALE && -MAX_MANTISSA * pow10(
                    (56 - self.spec_scale() - other.spec_scale()) as nat,
                ) <= self.val() * other.val() <= MAX_MANTISSA * pow10(
                    (56 - self.spec_scale() - other.spec_scale()) as nat,
                ) ==> d.val() * pow10(28) == self.val() * other.val()) && (self.val() >= 0
                    && other.val() >= 0 ==> d.val() >= 0),
                None => checked_mul_val(self.val(), other.val()) is None && !(-max_abs_val()
                    * pow10(28) <= self.val() * other.val() <= max_abs_val() * pow10(28)),
            }),
    {
        let x = rust_decimal::Decimal::from_i128_with_scale(self.mantissa, self.scale);
        let y = rust_decimal::Decimal::from_i128_with_scale(other.mantissa, other.scale);
        match x.checked_mul(y) {
            Some(d) => Some(Dec { mantissa: d.mantissa(), scale: d.scale() }),
            None => None,
        }
    }

    /// Checked division.
    ///
    /// Relies on `rust_decimal::Decimal::checked_div`: `None` for a zero
    /// divisor, a correctly rounded quotient while its integer part fits
    /// in 96 bits, `None` only beyond that, zero for a zero dividend, and
    /// a sign that is the product of the operands' signs.
    #[verifier::external_body]
    pub fn checked_div(&self, other: &Dec) -> (r: Option<Dec>)
        requires
            self.wf(),
            other.wf(),
        ensures
            (match r {
                Some(d) => d.wf() && checked_div_val(self.val(), other.val()) == Some(d.val())
                    && other.val() != 0 && (self.val() == 0 ==> d.val() == 0) && (self.val()
                    >= 0 && other.val() > 0 ==> d.val() >= 0),
                None => checked_div_val(self.val(), other.val()) is None && (other.val() != 0
                    ==> int_abs(self.val()) * pow10(28) > max_abs_val() * int_abs(other.val())),
            }),
    {
        let x = rust_decimal::Decimal::from_i128_with_scale(self.mantissa, self.scale);
        let y = rust_decimal::Decimal::from_i128_with_scale(other.mantissa, other.scale);
        match x.checked_div(y) {
            Some(d) => Some(Dec { mantissa: d.mantissa(), scale: d.scale() }),
            None => None,
        }
    }

    /// Whether this decimal denotes a smaller value than `other`.
    ///
    /// Relies on `rust_decimal::Decimal`'s `PartialOrd`, which compares
    /// decimals by their denoted values.
    #[verifier::external_body]
    pub fn lt(&self, other: &Dec) -> (r: bool)
        requires
            self.wf(),
            other.wf(),
        ensures
            r == (self.val() < other.val()),
    {
        let x = rust_decimal::Decimal::from_i128_with_scale(self.mantissa, self.scale);
        let y = rust_decimal::Decimal::from_i128_with_scale(other.mantissa, other.scale);
        x < y
    }

    /// Whether this decimal denotes a value at most that of `other`.
    pub fn le(&self, other: &Dec) -> (r: bool)
        requires
            self.wf(),
            other.wf(),
        ensures
            r == (self.val() <= other.val()),
    {
        !other.lt(self)
    }

    /// Whether the two decimals denote the same value, regardless of
    /// their scales.
    pub fn eq_value(&self, other: &Dec) -> (r: bool)
        requires
            self.wf(),
            other.wf(),
        ensures
            r == (self.val() == other.val()),
    {
        !self.lt(other) && !other.lt(self)
    }
}

} // verus!
