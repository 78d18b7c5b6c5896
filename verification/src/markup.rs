//! Markup strategies: how a buy price is increased before sale.

use vstd::prelude::*;

verus! {

use crate::currency::Currency;
use crate::decimal::Dec;

/// How the buy price is marked up before conversion to the sell
/// currency.
#[derive(Debug, Clone, PartialEq)]
pub enum MarkupType {
    /// A flat add-on of `value`, denominated in `currency`; it is
    /// converted into the buy currency when the markup is applied.
    Amount { value: Dec, currency: Currency },
    /// A percentage of the buy price: `10` means one tenth of the buy
    /// price is added.
    Percentage(Dec),
    /// A commission: the buy price is `(100 - pct)%` of the marked-up
    /// price. Invalid when `pct >= 100`.
    Commission(Dec),
}

impl MarkupType {
    /// Every decimal the markup carries is well-formed.
    pub open spec fn wf(self) -> bool {
        match self {
            MarkupType::Amount { value, .. } => value.wf(),
            MarkupType::Percentage(p) => p.wf(),
            MarkupType::Commission(p) => p.wf(),
        }
    }
}

} // verus!
