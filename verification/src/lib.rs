//! A pricing library: sell prices computed from a buy price via
//! currency conversion, a markup strategy, and an ordered list of
//! price adjustments (tax, discount, fixed fee), with the arithmetic
//! carried out in 96-bit fixed-point decimals.

pub mod adjustment;
pub mod currency;
pub mod decimal;
pub mod error;
pub mod markup;
pub mod pricing;

pub use adjustment::AdjustmentKind;
pub use adjustment::AppliedAdjustment;
pub use adjustment::PriceAdjustment;
pub use currency::Currency;
pub use currency::CurrencyConverter;
pub use decimal::Dec;
pub use error::CurrencyConverterError;
pub use error::PricingError;
pub use markup::MarkupType;
pub use pricing::PricingDetail;
