//! The error taxonomy.
//!
//! Two tiers: [`CurrencyConverterError`] for failures of a single currency
//! conversion, and [`PricingError`] wrapping them with the pipeline stage
//! at which they arose.

use vstd::prelude::*;

verus! {

/// A failure of a currency conversion.
#[derive(Debug, Clone, PartialEq)]
pub enum CurrencyConverterError {
    /// The named currency code has no stored exchange rate.
    RateNotFound(String),
    /// The source currency's rate, used as a divisor, is exactly zero.
    DivisionByZero,
    /// An intermediate result left the representable decimal range.
    Overflow,
}

/// A failure of the pricing pipeline.
#[derive(Debug, Clone, PartialEq)]
pub enum PricingError {
    /// A conversion failed while resolving buy/sell rates or a markup
    /// amount.
    RateCalculationFailed(CurrencyConverterError),
    /// The markup parameters are invalid: a commission percentage of 100
    /// or more.
    InvalidMarkupCalculation(String),
    /// A conversion failed while applying a fixed adjustment, or an
    /// adjustment left the representable decimal range.
    AdjustmentFailed(CurrencyConverterError),
}

/// The mathematical description of a conversion failure, used by
/// contracts: it carries the missing code as a character sequence rather
/// than an owned string.
pub enum ConvFailure {
    /// No rate is stored under this code.
    Missing(Seq<char>),
    /// The source rate is zero.
    ZeroRate,
    /// The arithmetic left the representable decimal range.
    Overflow,
}

/// Whether the executable error `e` reports exactly the abstract failure
/// `f`.
pub open spec fn conv_err_matches(e: CurrencyConverterError, f: ConvFailure) -> bool {
    match f {
        ConvFailure::Missing(code) => e matches CurrencyConverterError::RateNotFound(c) && c@
            == code,
        ConvFailure::ZeroRate => e == CurrencyConverterError::DivisionByZero,
        ConvFailure::Overflow => e == CurrencyConverterError::Overflow,
    }
}

} // verus!
