//! Post-markup price adjustments and their audit records.

use vstd::prelude::*;

verus! {

use crate::currency::Currency;
use crate::decimal::Dec;

/// A requested change to the running sell price: a percentage tax, a
/// percentage discount, or a fixed fee in some currency. Adjustments are
/// pure requests; they carry no state about prior adjustments.
#[derive(Debug, Clone)]
pub enum PriceAdjustment {
    /// A tax, as a percentage of the running sell price.
    Tax { name: String, percentage: Dec },
    /// A discount, as a percentage of the running sell price.
    Discount { name: String, percentage: Dec },
    /// A fixed fee of `amount`, denominated in `currency`; it is
    /// converted into the sell currency when applied.
    Fixed { name: String, amount: Dec, currency: Currency },
}

impl PriceAdjustment {
    /// Every decimal the adjustment carries is well-formed.
    pub open spec fn wf(self) -> bool {
        match self {
            PriceAdjustment::Tax { percentage, .. } => percentage.wf(),
            PriceAdjustment::Discount { percentage, .. } => percentage.wf(),
            PriceAdjustment::Fixed { amount, .. } => amount.wf(),
        }
    }
}

/// The category of an applied adjustment.
#[derive(Debug, Clone, PartialEq, Eq, Structural)]
pub enum AdjustmentKind {
    Tax,
    Discount,
    Fixed,
}

/// The resolved record of one adjustment after execution: what was
/// requested and the signed amount that was applied, expressed in the
/// sell currency (positive for taxes and fixed fees, negative for
/// discounts). Created only by the adjustment application; immutable
/// once appended.
#[derive(Debug, Clone)]
pub struct AppliedAdjustment {
    /// Which kind of adjustment this record resolves.
    pub kind: AdjustmentKind,
    /// The requested adjustment's label.
    pub name: String,
    /// The percentage, for taxes and discounts.
    pub percentage: Option<Dec>,
    /// The currency the request was denominated in: the sell currency
    /// for taxes and discounts, the fee's own currency for fixed fees.
    pub original_currency: Option<Currency>,
    /// The fee's amount before conversion, for fixed fees.
    pub original_amount: Option<Dec>,
    /// The signed change of the running sell price, in the sell
    /// currency.
    pub applied_amount: Dec,
}

impl AppliedAdjustment {
    /// Every decimal the record carries is well-formed.
    pub open spec fn wf(self) -> bool {
        self.applied_amount.wf() && (match self.percentage {
            Some(p) => p.wf(),
            None => true,
        }) && (match self.original_amount {
            Some(a) => a.wf(),
            None => true,
        })
    }
}

} // verus!
