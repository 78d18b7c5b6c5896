//! The pricing pipeline.
//!
//! A [`PricingDetail`] carries a buy price and the buy and sell
//! currencies, applies an optional markup (mutating itself, using a
//! [`CurrencyConverter`]), then applies an ordered list of adjustments,
//! producing a final sell price and an audit trail of applied
//! adjustments.
//!
//! Every step of the computation is described by spec functions over the
//! scaled decimal values (see [`crate::decimal`]): the contracts of
//! [`PricingDetail::apply_markup`] and
//! [`PricingDetail::apply_adjustments`] pin down, case by case, exactly
//! which fields are written and which error is returned.

use vstd::prelude::*;

verus! {

use crate::adjustment::{AdjustmentKind, AppliedAdjustment, PriceAdjustment};
use crate::currency::{Currency, CurrencyConverter};
use crate::decimal::{
    Dec,
    checked_add_val,
    checked_div_val,
    checked_mul_val,
    checked_sub_val,
    pow10,
};
use crate::error::{ConvFailure, CurrencyConverterError, PricingError, conv_err_matches};
use crate::markup::MarkupType;

/// The scaled value of the decimal `100`.
pub open spec fn hundred_val() -> int {
    100 * pow10(28)
}

/// Whether an optional decimal, if present, is well-formed.
pub open spec fn opt_dec_wf(o: Option<Dec>) -> bool {
    match o {
        Some(d) => d.wf(),
        None => true,
    }
}

/// Why resolving a markup into the buy currency failed.
pub enum MarkupFailure {
    /// A conversion of the markup amount failed.
    Conversion(ConvFailure),
    /// The commission percentage is 100 or more.
    InvalidCommission,
}

/// The markup resolved into the buy currency, as a scaled value: zero
/// without a markup; a flat amount converted from its own currency;
/// `buy * (pct / 100)` for a percentage; `buy * (pct / (100 - pct))` for
/// a commission below 100.
pub open spec fn spec_markup_in_buy(
    markup: Option<MarkupType>,
    buy: int,
    buy_code: Seq<char>,
    conv: &CurrencyConverter,
) -> Result<int, MarkupFailure> {
    match markup {
        None => Ok(0),
        Some(MarkupType::Amount { value, currency }) => match conv.spec_convert(
            value.val(),
            currency.spec_code(),
            buy_code,
        ) {
            Ok(v) => Ok(v),
            Err(f) => Err(MarkupFailure::Conversion(f)),
        },
        Some(MarkupType::Percentage(p)) => match checked_div_val(p.val(), hundred_val()) {
            None => Err(MarkupFailure::Conversion(ConvFailure::Overflow)),
            Some(q) => match checked_mul_val(buy, q) {
                None => Err(MarkupFailure::Conversion(ConvFailure::Overflow)),
                Some(m) => Ok(m),
            },
        },
        Some(MarkupType::Commission(p)) => if p.val() >= hundred_val() {
            Err(MarkupFailure::InvalidCommission)
        } else {
            match checked_sub_val(hundred_val(), p.val()) {
                None => Err(MarkupFailure::Conversion(ConvFailure::Overflow)),
                Some(den) => match checked_div_val(p.val(), den) {
                    None => Err(MarkupFailure::Conversion(ConvFailure::Overflow)),
                    Some(q) => match checked_mul_val(buy, q) {
                        None => Err(MarkupFailure::Conversion(ConvFailure::Overflow)),
                        Some(m) => Ok(m),
                    },
                },
            }
        },
    }
}

/// Everything the markup application decides, in the order it decides
/// it: rate lookups, the zero check, the exchange-rate division, markup
/// resolution, and the three final products.
pub enum MarkupResolution {
    /// The named code has no stored rate; nothing is written.
    MissingRate(Seq<char>),
    /// The buy currency's rate is zero; nothing is written.
    ZeroBuyRate,
    /// The exchange-rate division overflowed; nothing is written.
    RateOverflow,
    /// The commission is 100 or more; the rate fields are written.
    BadCommission,
    /// Markup resolution failed; the rate fields are written.
    MarkupFailed(ConvFailure),
    /// The post-markup arithmetic overflowed; the rate fields are
    /// written.
    ArithmeticOverflow,
    /// Success: the exchange rate, the markup in the buy currency, the
    /// marked-up buy price, the initial sell price, and the markup in
    /// the sell currency, all as scaled values.
    Done { exch: int, markup_buy: int, converted_buy: int, sell: int, markup_sell: int },
}

/// What applying the markup to a pricing with the given buy price and
/// currency codes yields.
pub open spec fn spec_resolve_markup(
    markup: Option<MarkupType>,
    buy: int,
    buy_code: Seq<char>,
    sell_code: Seq<char>,
    conv: &CurrencyConverter,
) -> MarkupResolution {
    match conv.spec_rate(buy_code) {
        None => MarkupResolution::MissingRate(buy_code),
        Some(buy_rate) => match conv.spec_rate(sell_code) {
            None => MarkupResolution::MissingRate(sell_code),
            Some(sell_rate) => if buy_rate == 0 {
                MarkupResolution::ZeroBuyRate
            } else {
                match checked_div_val(sell_rate, buy_rate) {
                    None => MarkupResolution::RateOverflow,
                    Some(exch) => match spec_markup_in_buy(markup, buy, buy_code, conv) {
                        Err(MarkupFailure::InvalidCommission) => MarkupResolution::BadCommission,
                        Err(MarkupFailure::Conversion(f)) => MarkupResolution::MarkupFailed(f),
                        Ok(markup_buy) => match checked_add_val(buy, markup_buy) {
                            None => MarkupResolution::ArithmeticOverflow,
                            Some(converted_buy) => match checked_mul_val(converted_buy, exch) {
                                None => MarkupResolution::ArithmeticOverflow,
                                Some(sell) => match checked_mul_val(markup_buy, exch) {
                                    None => MarkupResolution::ArithmeticOverflow,
                                    Some(markup_sell) => MarkupResolution::Done {
                                        exch,
                                        markup_buy,
                                        converted_buy,
                                        sell,
                                        markup_sell,
                                    },
                                },
                            },
                        },
                    },
                }
            },
        },
    }
}

/// What one adjustment does to the running sell price: the new price and
/// the signed recorded amount, or the conversion failure that stops it.
pub open spec fn spec_apply_adjustment(
    price: int,
    adj: PriceAdjustment,
    sell_code: Seq<char>,
    conv: &CurrencyConverter,
) -> Result<(int, int), ConvFailure> {
    match adj {
        PriceAdjustment::Tax { percentage, .. } => match checked_div_val(
            percentage.val(),
            hundred_val(),
        ) {
            None => Err(ConvFailure::Overflow),
            Some(q) => match checked_mul_val(price, q) {
                None => Err(ConvFailure::Overflow),
                Some(a) => match checked_add_val(price, a) {
                    None => Err(ConvFailure::Overflow),
                    Some(np) => Ok((np, a)),
                },
            },
        },
        PriceAdjustment::Discount { percentage, .. } => match checked_div_val(
            percentage.val(),
            hundred_val(),
        ) {
            None => Err(ConvFailure::Overflow),
            Some(q) => match checked_mul_val(price, q) {
                None => Err(ConvFailure::Overflow),
                Some(a) => match checked_sub_val(price, a) {
                    None => Err(ConvFailure::Overflow),
                    Some(np) => Ok((np, -a)),
                },
            },
        },
        PriceAdjustment::Fixed { amount, currency, .. } => match conv.spec_convert(
            amount.val(),
            currency.spec_code(),
            sell_code,
        ) {
            Err(f) => Err(f),
            Ok(c) => match checked_add_val(price, c) {
                None => Err(ConvFailure::Overflow),
                Some(np) => Ok((np, c)),
            },
        },
    }
}

/// The sequential run of a whole adjustment list over a starting sell
/// price: the final price and the recorded amounts in order, or the
/// first failure. Each adjustment acts on the price left by the previous
/// one, so the order of the list matters.
pub open spec fn spec_apply_adjustments(
    adjs: Seq<PriceAdjustment>,
    price: int,
    sell_code: Seq<char>,
    conv: &CurrencyConverter,
) -> Result<(int, Seq<int>), ConvFailure>
    decreases adjs.len(),
{
    if adjs.len() == 0 {
        Ok((price, Seq::empty()))
    } else {
        match spec_apply_adjustment(price, adjs[0], sell_code, conv) {
            Err(f) => Err(f),
            Ok((np, a)) => match spec_apply_adjustments(adjs.drop_first(), np, sell_code, conv) {
                Err(f) => Err(f),
                Ok((fp, rest)) => Ok((fp, seq![a] + rest)),
            },
        }
    }
}

/// Whether the audit record `rec` is exactly what applying `adj` with
/// the signed amount `amount` against `sell_currency` must produce.
pub open spec fn record_matches(
    rec: AppliedAdjustment,
    adj: PriceAdjustment,
    amount: int,
    sell_currency: Currency,
) -> bool {
    rec.applied_amount.wf() && rec.applied_amount.val() == amount && (match adj {
        PriceAdjustment::Tax { name, percentage } => rec.kind == AdjustmentKind::Tax && rec.name@
            == name@ && rec.percentage == Some(percentage) && rec.original_currency == Some(
            sell_currency,
        ) && rec.original_amount is None,
        PriceAdjustment::Discount { name, percentage } => rec.kind == AdjustmentKind::Discount
            && rec.name@ == name@ && rec.percentage == Some(percentage) && rec.original_currency
            == Some(sell_currency) && rec.original_amount is None,
        PriceAdjustment::Fixed { name, amount: a, currency } => rec.kind == AdjustmentKind::Fixed
            && rec.name@ == name@ && rec.percentage is None && rec.original_currency == Some(
            currency,
        ) && rec.original_amount == Some(a),
    })
}

/// Whether `post` carries the three committed rate fields: the two
/// looked-up rates and their quotient, as well-formed decimals.
pub open spec fn rate_fields_set(post: PricingDetail, buy_rate: int, sell_rate: int, exch: int) -> bool {
    match (post.buy_currency_rate, post.sell_currency_rate, post.exchange_rate) {
        (Some(b), Some(s), Some(e)) => b.wf() && s.wf() && e.wf() && b.val() == buy_rate
            && s.val() == sell_rate && e.val() == exch,
        _ => false,
    }
}

/// Whether `post` carries the rate fields that a markup application
/// against `conv` commits for `pre`'s currencies.
pub open spec fn committed_rates(
    pre: PricingDetail,
    post: PricingDetail,
    conv: &CurrencyConverter,
) -> bool {
    match (
        conv.spec_rate(pre.buy_currency.spec_code()),
        conv.spec_rate(pre.sell_currency.spec_code()),
    ) {
        (Some(br), Some(sr)) => match checked_div_val(sr, br) {
            Some(exch) => rate_fields_set(post, br, sr, exch),
            None => false,
        },
        _ => false,
    }
}

/// Whether every field of `post` except the three rate fields is the
/// one `pre` had.
pub open spec fn markup_core_unchanged(pre: PricingDetail, post: PricingDetail) -> bool {
    post.buy_price == pre.buy_price && post.sell_price == pre.sell_price && post.buy_currency
        == pre.buy_currency && post.sell_currency == pre.sell_currency && post.markup
        == pre.markup && post.markup_value_in_buy_currency == pre.markup_value_in_buy_currency
        && post.markup_value_in_sell_currency == pre.markup_value_in_sell_currency
        && post.converted_buy_price == pre.converted_buy_price && post.applied_adjustments
        == pre.applied_adjustments
}

/// The whole contract of a markup application: given what
/// [`spec_resolve_markup`] decides for `pre`, which error `r` is, which
/// fields `post` carries and which it leaves as they were.
///
/// Rate resolution failures leave the pricing untouched; once the rates
/// resolve they are committed even when the markup step then fails; a
/// commission of 100 or more fails exactly with
/// `InvalidMarkupCalculation`; on success the four markup fields and the
/// sell price are written.
pub open spec fn markup_post(
    pre: PricingDetail,
    post: PricingDetail,
    conv: &CurrencyConverter,
    r: Result<(), PricingError>,
) -> bool {
    match spec_resolve_markup(
        pre.markup,
        pre.buy_price.val(),
        pre.buy_currency.spec_code(),
        pre.sell_currency.spec_code(),
        conv,
    ) {
        MarkupResolution::MissingRate(code) => post == pre && (r matches Err(
            PricingError::RateCalculationFailed(CurrencyConverterError::RateNotFound(c)),
        ) && c@ == code),
        MarkupResolution::ZeroBuyRate => post == pre && r == Err::<(), PricingError>(
            PricingError::RateCalculationFailed(CurrencyConverterError::DivisionByZero),
        ),
        MarkupResolution::RateOverflow => post == pre && r == Err::<(), PricingError>(
            PricingError::RateCalculationFailed(CurrencyConverterError::Overflow),
        ),
        MarkupResolution::BadCommission => committed_rates(pre, post, conv)
            && markup_core_unchanged(pre, post) && (r matches Err(
            PricingError::InvalidMarkupCalculation(_),
        )),
        MarkupResolution::MarkupFailed(f) => committed_rates(pre, post, conv)
            && markup_core_unchanged(pre, post) && (r matches Err(
            PricingError::RateCalculationFailed(e),
        ) && conv_err_matches(e, f)),
        MarkupResolution::ArithmeticOverflow => committed_rates(pre, post, conv)
            && markup_core_unchanged(pre, post) && r == Err::<(), PricingError>(
            PricingError::RateCalculationFailed(CurrencyConverterError::Overflow),
        ),
        MarkupResolution::Done { exch, markup_buy, converted_buy, sell, markup_sell } => r
            is Ok && committed_rates(pre, post, conv) && (match post.markup_value_in_buy_currency {
            Some(d) => d.wf() && d.val() == markup_buy,
            None => false,
        }) && (match post.converted_buy_price {
            Some(d) => d.wf() && d.val() == converted_buy,
            None => false,
        }) && post.sell_price.wf() && post.sell_price.val() == sell && (match post
            .markup_value_in_sell_currency {
            Some(d) => d.wf() && d.val() == markup_sell,
            None => false,
        }) && post.buy_price == pre.buy_price && post.buy_currency == pre.buy_currency
            && post.sell_currency == pre.sell_currency && post.markup == pre.markup
            && post.applied_adjustments == pre.applied_adjustments,
    }
}

/// The recorded amounts of a run of audit records, in order.
pub open spec fn amounts_of(recs: Seq<AppliedAdjustment>) -> Seq<int> {
    recs.map_values(|rec: AppliedAdjustment| rec.applied_amount.val())
}

/// Whether every field of `post` except the sell price and the audit
/// trail is the one `pre` had.
pub open spec fn adjustments_rest_unchanged(pre: PricingDetail, post: PricingDetail) -> bool {
    post.buy_price == pre.buy_price && post.buy_currency == pre.buy_currency
        && post.sell_currency == pre.sell_currency && post.markup == pre.markup
        && post.markup_value_in_buy_currency == pre.markup_value_in_buy_currency
        && post.markup_value_in_sell_currency == pre.markup_value_in_sell_currency
        && post.converted_buy_price == pre.converted_buy_price && post.buy_currency_rate
        == pre.buy_currency_rate && post.sell_currency_rate == pre.sell_currency_rate
        && post.exchange_rate == pre.exchange_rate
}

/// The whole contract of an adjustment application: the run of
/// [`spec_apply_adjustments`] over `pre`'s sell price decides the final
/// sell price and every audit record; on the first failure nothing is
/// committed and the audit trail is left cleared.
pub open spec fn adjustments_post(
    pre: PricingDetail,
    post: PricingDetail,
    adjs: Seq<PriceAdjustment>,
    conv: &CurrencyConverter,
    r: Result<(), PricingError>,
) -> bool {
    adjustments_rest_unchanged(pre, post) && (match spec_apply_adjustments(
        adjs,
        pre.sell_price.val(),
        pre.sell_currency.spec_code(),
        conv,
    ) {
        Ok((fp, amts)) => r is Ok && post.sell_price.wf() && post.sell_price.val() == fp
            && post.applied_adjustments@.len() == adjs.len() && (forall|i: int|
            0 <= i < adjs.len() ==> record_matches(
                #[trigger] post.applied_adjustments@[i],
                adjs[i],
                amts[i],
                pre.sell_currency,
            )),
        Err(f) => (r matches Err(PricingError::AdjustmentFailed(e)) && conv_err_matches(e, f))
            && post.sell_price == pre.sell_price && post.applied_adjustments@ == Seq::<
            AppliedAdjustment,
        >::empty(),
    })
}

/// Applies one adjustment to the running sell price: the new price and
/// the audit record, or the conversion failure that stops it.
///
/// The contract also carries the sign of what is recorded: from a
/// nonnegative running price and a nonnegative percentage, a tax records
/// a nonnegative amount and a discount a nonpositive one; a fixed fee
/// with a nonnegative amount and nonnegative rates records a nonnegative
/// amount. (The amounts are not strictly signed: a small enough
/// percentage of a small enough price rounds to zero.)
pub fn apply_one_adjustment(
    price: Dec,
    adj: &PriceAdjustment,
    sell_currency: &Currency,
    converter: &CurrencyConverter,
) -> (r: Result<(Dec, AppliedAdjustment), CurrencyConverterError>)
    requires
        price.wf(),
        adj.wf(),
        converter.wf(),
    ensures
        (match r {
            Ok(p) => p.0.wf() && p.1.wf() && spec_apply_adjustment(
                price.val(),
                *adj,
                sell_currency.spec_code(),
                converter,
            ) == Ok::<(int, int), ConvFailure>((p.0.val(), p.1.applied_amount.val()))
                && record_matches(p.1, *adj, p.1.applied_amount.val(), *sell_currency),
            Err(e) => (match spec_apply_adjustment(
                price.val(),
                *adj,
                sell_currency.spec_code(),
                converter,
            ) {
                Ok(_) => false,
                Err(f) => conv_err_matches(e, f),
            }),
        }),
        (price.val() >= 0 && (adj matches PriceAdjustment::Tax { percentage, .. }
            && percentage.val() >= 0)) ==> (match r {
            Ok(p) => p.1.applied_amount.val() >= 0,
            Err(_) => true,
        }),
        (price.val() >= 0 && (adj matches PriceAdjustment::Discount { percentage, .. }
            && percentage.val() >= 0)) ==> (match r {
            Ok(p) => p.1.applied_amount.val() <= 0,
            Err(_) => true,
        }),
        (adj matches PriceAdjustment::Fixed { amount, currency, .. } && amount.val() >= 0
            && converter.rate_nonneg(currency.spec_code()) && converter.rate_nonneg(
            sell_currency.spec_code(),
        )) ==> (match r {
            Ok(p) => p.1.applied_amount.val() >= 0,
            Err(_) => true,
        }),
{
    proof {
        vstd::arithmetic::power::lemma_pow_positive(10, 28);
    }
    match adj {
        PriceAdjustment::Tax { name, percentage } => {
            let hundred = Dec::from_int(100);
            let q = match percentage.checked_div(&hundred) {
                Some(d) => d,
                None => {
                    return Err(CurrencyConverterError::Overflow);
                },
            };
            let amt = match price.checked_mul(&q) {
                Some(d) => d,
                None => {
                    return Err(CurrencyConverterError::Overflow);
                },
            };
            let np = match price.checked_add(&amt) {
                Some(d) => d,
                None => {
                    return Err(CurrencyConverterError::Overflow);
                },
            };
            let rec = AppliedAdjustment {
                kind: AdjustmentKind::Tax,
                name: name.clone(),
                percentage: Some(*percentage),
                original_currency: Some(sell_currency.clone()),
                original_amount: None,
                applied_amount: amt,
            };
            Ok((np, rec))
        },
        PriceAdjustment::Discount { name, percentage } => {
            let hundred = Dec::from_int(100);
            let q = match percentage.checked_div(&hundred) {
                Some(d) => d,
                None => {
                    return Err(CurrencyConverterError::Overflow);
                },
            };
            let amt = match price.checked_mul(&q) {
                Some(d) => d,
                None => {
                    return Err(CurrencyConverterError::Overflow);
                },
            };
            let np = match price.checked_sub(&amt) {
                Some(d) => d,
                None => {
                    return Err(CurrencyConverterError::Overflow);
                },
            };
            let rec = AppliedAdjustment {
                kind: AdjustmentKind::Discount,
                name: name.clone(),
                percentage: Some(*percentage),
                original_currency: Some(sell_currency.clone()),
                original_amount: None,
                applied_amount: amt.neg(),
            };
            Ok((np, rec))
        },
        PriceAdjustment::Fixed { name, amount, currency } => {
            let converted = match converter.convert(*amount, currency, sell_currency) {
                Ok(d) => d,
                Err(e) => {
                    return Err(e);
                },
            };
            let np = match price.checked_add(&converted) {
                Some(d) => d,
                None => {
                    return Err(CurrencyConverterError::Overflow);
                },
            };
            let rec = AppliedAdjustment {
                kind: AdjustmentKind::Fixed,
                name: name.clone(),
                percentage: None,
                original_currency: Some(currency.clone()),
                original_amount: Some(*amount),
                applied_amount: converted,
            };
            Ok((np, rec))
        },
    }
}

/// The full pricing state of one product: the buy price, the final sell
/// price, both currencies, the markup strategy, every intermediate of
/// the markup computation, and the audit trail of applied adjustments.
///
/// The optional fields are `None` until [`PricingDetail::apply_markup`]
/// runs and populates them; `applied_adjustments` is empty until
/// [`PricingDetail::apply_adjustments`] runs and is fully replaced on
/// each call.
#[derive(Debug, Clone)]
pub struct PricingDetail {
    /// The original price, in the buy currency.
    pub buy_price: Dec,
    /// The final price after markup and adjustments, in the sell
    /// currency.
    pub sell_price: Dec,
    /// The currency the product is bought in.
    pub buy_currency: Currency,
    /// The currency the product is sold in.
    pub sell_currency: Currency,
    /// The markup to apply, if any.
    pub markup: Option<MarkupType>,
    /// The markup resolved into the buy currency.
    pub markup_value_in_buy_currency: Option<Dec>,
    /// The markup expressed in the sell currency.
    pub markup_value_in_sell_currency: Option<Dec>,
    /// The buy price plus the markup, still in the buy currency.
    pub converted_buy_price: Option<Dec>,
    /// The buy currency's stored rate against the common base.
    pub buy_currency_rate: Option<Dec>,
    /// The sell currency's stored rate against the common base.
    pub sell_currency_rate: Option<Dec>,
    /// `sell_currency_rate / buy_currency_rate`: the effective rate from
    /// buy to sell currency.
    pub exchange_rate: Option<Dec>,
    /// The audit trail left by the last adjustment application.
    pub applied_adjustments: Vec<AppliedAdjustment>,
}

impl PricingDetail {
    /// Every decimal the pricing carries is well-formed.
    pub open spec fn wf(self) -> bool {
        self.buy_price.wf() && self.sell_price.wf() && (match self.markup {
            Some(m) => m.wf(),
            None => true,
        }) && opt_dec_wf(self.markup_value_in_buy_currency) && opt_dec_wf(
            self.markup_value_in_sell_currency,
        ) && opt_dec_wf(self.converted_buy_price) && opt_dec_wf(self.buy_currency_rate)
            && opt_dec_wf(self.sell_currency_rate) && opt_dec_wf(self.exchange_rate) && (forall|
            i: int,
        |
            0 <= i < self.applied_adjustments@.len() ==> (
            #[trigger] self.applied_adjustments@[i]).wf())
    }

    /// Builds a pricing with the given buy price and currencies: the
    /// sell price starts at zero, no markup is set, every derived field
    /// is `None` and the audit trail is empty.
    pub fn new(buy_price: Dec, buy_currency: Currency, sell_currency: Currency) -> (r:
        PricingDetail)
        requires
            buy_price.wf(),
        ensures
            r.wf(),
            r.buy_price == buy_price,
            r.sell_price.val() == 0,
            r.buy_currency == buy_currency,
            r.sell_currency == sell_currency,
            r.markup is None,
            r.markup_value_in_buy_currency is None,
            r.markup_value_in_sell_currency is None,
            r.converted_buy_price is None,
            r.buy_currency_rate is None,
            r.sell_currency_rate is None,
            r.exchange_rate is None,
            r.applied_adjustments@ == Seq::<AppliedAdjustment>::empty(),
    {
        PricingDetail {
            buy_price,
            sell_price: Dec::zero(),
            buy_currency,
            sell_currency,
            markup: None,
            markup_value_in_buy_currency: None,
            markup_value_in_sell_currency: None,
            converted_buy_price: None,
            buy_currency_rate: None,
            sell_currency_rate: None,
            exchange_rate: None,
            applied_adjustments: Vec::new(),
        }
    }

    /// Resolves the buy and sell rates, commits them together with
    /// their quotient, resolves the markup into the buy currency, and
    /// writes the marked-up sell price.
    ///
    /// Must be called before [`PricingDetail::apply_adjustments`]. The
    /// exact field and error behaviour, case by case, is
    /// [`markup_post`].
    pub fn apply_markup(&mut self, converter: &CurrencyConverter) -> (r: Result<
        (),
        PricingError,
    >)
        requires
            old(self).wf(),
            converter.wf(),
        ensures
            final(self).wf(),
            markup_post(*old(self), *final(self), converter, r),
    {
        let buy_rate = match converter.get_exchange_rate(&self.buy_currency) {
            Some(d) => d,
            None => {
                return Err(
                    PricingError::RateCalculationFailed(
                        CurrencyConverterError::RateNotFound(
                            self.buy_currency.get_code().to_owned(),
                        ),
                    ),
                );
            },
        };
        let sell_rate = match converter.get_exchange_rate(&self.sell_currency) {
            Some(d) => d,
            None => {
                return Err(
                    PricingError::RateCalculationFailed(
                        CurrencyConverterError::RateNotFound(
                            self.sell_currency.get_code().to_owned(),
                        ),
                    ),
                );
            },
        };
        if buy_rate.is_zero() {
            return Err(
                PricingError::RateCalculationFailed(CurrencyConverterError::DivisionByZero),
            );
        }
        let exchange_rate = match sell_rate.checked_div(&buy_rate) {
            Some(d) => d,
            None => {
                return Err(
                    PricingError::RateCalculationFailed(CurrencyConverterError::Overflow),
                );
            },
        };
        self.buy_currency_rate = Some(buy_rate);
        self.sell_currency_rate = Some(sell_rate);
        self.exchange_rate = Some(exchange_rate);
        let markup_in_buy = match &self.markup {
            Some(MarkupType::Amount { value, currency }) => {
                match converter.convert(*value, currency, &self.buy_currency) {
                    Ok(d) => d,
                    Err(e) => {
                        return Err(PricingError::RateCalculationFailed(e));
                    },
                }
            },
            Some(MarkupType::Percentage(pct)) => {
                let hundred = Dec::from_int(100);
                let q = match pct.checked_div(&hundred) {
                    Some(d) => d,
                    None => {
                        return Err(
                            PricingError::RateCalculationFailed(CurrencyConverterError::Overflow),
                        );
                    },
                };
                match self.buy_price.checked_mul(&q) {
                    Some(d) => d,
                    None => {
                        return Err(
                            PricingError::RateCalculationFailed(CurrencyConverterError::Overflow),
                        );
                    },
                }
            },
            Some(MarkupType::Commission(pct)) => {
                let hundred = Dec::from_int(100);
                if !pct.lt(&hundred) {
                    return Err(
                        PricingError::InvalidMarkupCalculation(
                            "commission percentage must be less than 100".to_owned(),
                        ),
                    );
                }
                let denominator = match hundred.checked_sub(pct) {
                    Some(d) => d,
                    None => {
                        return Err(
                            PricingError::RateCalculationFailed(CurrencyConverterError::Overflow),
                        );
                    },
                };
                let q = match pct.checked_div(&denominator) {
                    Some(d) => d,
                    None => {
                        return Err(
                            PricingError::RateCalculationFailed(CurrencyConverterError::Overflow),
                        );
                    },
                };
                match self.buy_price.checked_mul(&q) {
                    Some(d) => d,
                    None => {
                        return Err(
                            PricingError::RateCalculationFailed(CurrencyConverterError::Overflow),
                        );
                    },
                }
            },
            None => Dec::zero(),
        };
        let converted_buy = match self.buy_price.checked_add(&markup_in_buy) {
            Some(d) => d,
            None => {
                return Err(
                    PricingError::RateCalculationFailed(CurrencyConverterError::Overflow),
                );
            },
        };
        let initial_sell = match converted_buy.checked_mul(&exchange_rate) {
            Some(d) => d,
            None => {
                return Err(
                    PricingError::RateCalculationFailed(CurrencyConverterError::Overflow),
                );
            },
        };
        let markup_in_sell = match markup_in_buy.checked_mul(&exchange_rate) {
            Some(d) => d,
            None => {
                return Err(
                    PricingError::RateCalculationFailed(CurrencyConverterError::Overflow),
                );
            },
        };
        self.markup_value_in_buy_currency = Some(markup_in_buy);
        self.converted_buy_price = Some(converted_buy);
        self.sell_price = initial_sell;
        self.markup_value_in_sell_currency = Some(markup_in_sell);
        Ok(())
    }

    /// Applies the ordered list of adjustments to the sell price, each
    /// one acting on the running price left by the previous one, and
    /// replaces the audit trail with the records of this run.
    ///
    /// Everything is computed first and committed only on full success;
    /// on the first failure the sell price is left as it was and the
    /// audit trail is left cleared. The exact behaviour is
    /// [`adjustments_post`].
    #[verifier::loop_isolation(false)]
    pub fn apply_adjustments(
        &mut self,
        adjustments: &[PriceAdjustment],
        converter: &CurrencyConverter,
    ) -> (r: Result<(), PricingError>)
        requires
            old(self).wf(),
            converter.wf(),
            forall|i: int|
                0 <= i < adjustments@.len() ==> (#[trigger] adjustments@[i]).wf(),
        ensures
            final(self).wf(),
            adjustments_post(*old(self), *final(self), adjustments@, converter, r),
    {
        let ghost adjs = adjustments@;
        let ghost start = self.sell_price.val();
        let ghost sc = self.sell_currency.spec_code();
        let mut current = self.sell_price;
        let mut recs: Vec<AppliedAdjustment> = Vec::new();
        let n = adjustments.len();
        let mut i: usize = 0;
        proof {
            assert(adjs.subrange(0, n as int) =~= adjs);
            assert(amounts_of(recs@) =~= Seq::<int>::empty());
            let run0 = spec_apply_adjustments(adjs, start, sc, converter);
            if run0 is Ok {
                let pr = run0->Ok_0;
                assert(amounts_of(recs@) + pr.1 =~= pr.1);
            }
        }
        while i < n
            invariant
                *self == *old(self),
                i <= n,
                n == adjs.len(),
                current.wf(),
                recs@.len() == i,
                forall|j: int|
                    0 <= j < i ==> record_matches(
                        #[trigger] recs@[j],
                        adjs[j],
                        recs@[j].applied_amount.val(),
                        old(self).sell_currency,
                    ),
                spec_apply_adjustments(adjs, start, sc, converter) == (match spec_apply_adjustments(
                    adjs.subrange(i as int, n as int),
                    current.val(),
                    sc,
                    converter,
                ) {
                    Ok((fp, rest)) => Ok::<(int, Seq<int>), ConvFailure>(
                        (fp, amounts_of(recs@) + rest),
                    ),
                    Err(f) => Err::<(int, Seq<int>), ConvFailure>(f),
                }),
            decreases n - i,
        {
            let ghost suffix = adjs.subrange(i as int, n as int);
            proof {
                assert(suffix[0] == adjs[i as int]);
                assert(suffix.drop_first() =~= adjs.subrange(i as int + 1, n as int));
            }
            match apply_one_adjustment(current, &adjustments[i], &self.sell_currency, converter) {
                Ok(pair) => {
                    let (np, rec) = pair;
                    proof {
                        let ghost a = rec.applied_amount.val();
                        let run_next = spec_apply_adjustments(
                            adjs.subrange(i as int + 1, n as int),
                            np.val(),
                            sc,
                            converter,
                        );
                        if run_next is Ok {
                            let pr = run_next->Ok_0;
                            assert(amounts_of(recs@.push(rec)) =~= amounts_of(recs@).push(a));
                            assert((amounts_of(recs@) + (seq![a] + pr.1)) =~= (amounts_of(
                                recs@.push(rec),
                            ) + pr.1));
                        }
                    }
                    current = np;
                    recs.push(rec);
                },
                Err(e) => {
                    self.applied_adjustments = Vec::new();
                    return Err(PricingError::AdjustmentFailed(e));
                },
            }
            i += 1;
        }
        proof {
            assert(adjs.subrange(n as int, n as int) =~= Seq::<PriceAdjustment>::empty());
            assert(amounts_of(recs@) + Seq::<int>::empty() =~= amounts_of(recs@));
        }
        self.sell_price = current;
        self.applied_adjustments = recs;
        Ok(())
    }

    /// The whole pipeline: applies the markup, then the adjustments,
    /// propagating the first failure and skipping the second step
    /// entirely when the first fails.
    pub fn calculate_final_price(
        &mut self,
        converter: &CurrencyConverter,
        adjustments: &[PriceAdjustment],
    ) -> (r: Result<(), PricingError>)
        requires
            old(self).wf(),
            converter.wf(),
            forall|i: int|
                0 <= i < adjustments@.len() ==> (#[trigger] adjustments@[i]).wf(),
        ensures
            final(self).wf(),
            ({
                let pre = *old(self);
                let post = *final(self);
                match spec_resolve_markup(
                    pre.markup,
                    pre.buy_price.val(),
                    pre.buy_currency.spec_code(),
                    pre.sell_currency.spec_code(),
                    converter,
                ) {
                    MarkupResolution::Done {
                        exch,
                        markup_buy,
                        converted_buy,
                        sell,
                        markup_sell,
                    } => {
                        committed_rates(pre, post, converter) && (match post
                            .markup_value_in_buy_currency {
                            Some(d) => d.wf() && d.val() == markup_buy,
                            None => false,
                        }) && (match post.converted_buy_price {
                            Some(d) => d.wf() && d.val() == converted_buy,
                            None => false,
                        }) && (match post.markup_value_in_sell_currency {
                            Some(d) => d.wf() && d.val() == markup_sell,
                            None => false,
                        }) && post.buy_price == pre.buy_price && post.buy_currency
                            == pre.buy_currency && post.sell_currency == pre.sell_currency
                            && post.markup == pre.markup && (match spec_apply_adjustments(
                            adjustments@,
                            sell,
                            pre.sell_currency.spec_code(),
                            converter,
                        ) {
                            Ok((fp, amts)) => r is Ok && post.sell_price.wf()
                                && post.sell_price.val() == fp && post.applied_adjustments@.len()
                                == adjustments@.len() && (forall|i: int|
                                0 <= i < adjustments@.len() ==> record_matches(
                                    #[trigger] post.applied_adjustments@[i],
                                    adjustments@[i],
                                    amts[i],
                                    pre.sell_currency,
                                )),
                            Err(f) => (r matches Err(PricingError::AdjustmentFailed(e))
                                && conv_err_matches(e, f)) && post.sell_price.wf()
                                && post.sell_price.val() == sell && post.applied_adjustments@
                                == Seq::<AppliedAdjustment>::empty(),
                        })
                    },
                    _ => markup_post(pre, post, converter, r),
                }
            }),
    {
        match self.apply_markup(converter) {
            Ok(u) => u,
            Err(e) => {
                return Err(e);
            },
        };
        match self.apply_adjustments(adjustments, converter) {
            Ok(u) => Ok(u),
            Err(e) => Err(e),
        }
    }
}

/// Re-applying the same adjustment list with the same converter from
/// the same starting sell price is idempotent: two adjustment
/// applications whose starting states agree on the sell price's value
/// and the sell currency's code succeed or fail together, and on
/// success leave the same final sell price and audit trails of the same
/// length — one record per adjustment, never doubled — recording the
/// same amounts. In particular the outcome never depends on whatever
/// audit trail the starting states already carried, since each
/// application replaces it.
pub proof fn lemma_reapplication_idempotent(
    first: PricingDetail,
    after_first: PricingDetail,
    second: PricingDetail,
    after_second: PricingDetail,
    adjs: Seq<PriceAdjustment>,
    conv: &CurrencyConverter,
    r1: Result<(), PricingError>,
    r2: Result<(), PricingError>,
)
    requires
        adjustments_post(first, after_first, adjs, conv, r1),
        adjustments_post(second, after_second, adjs, conv, r2),
        second.sell_price.val() == first.sell_price.val(),
        second.sell_currency.spec_code() == first.sell_currency.spec_code(),
    ensures
        r1 is Ok <==> r2 is Ok,
        r1 is Ok ==> after_second.sell_price.val() == after_first.sell_price.val(),
        r1 is Ok ==> after_first.applied_adjustments@.len() == adjs.len()
            && after_second.applied_adjustments@.len() == adjs.len(),
        r1 is Ok ==> (forall|i: int|
            0 <= i < adjs.len() ==> (#[trigger] after_second.applied_adjustments@[i])
                .applied_amount.val() == after_first.applied_adjustments@[i]
                .applied_amount.val()),
{
    let run = spec_apply_adjustments(
        adjs,
        first.sell_price.val(),
        first.sell_currency.spec_code(),
        conv,
    );
    assert(spec_apply_adjustments(
        adjs,
        second.sell_price.val(),
        second.sell_currency.spec_code(),
        conv,
    ) == run);
}

/// A successful run of an adjustment list records exactly one amount per
/// adjustment.
pub proof fn lemma_adjustments_run_length(
    adjs: Seq<PriceAdjustment>,
    price: int,
    sell_code: Seq<char>,
    conv: &CurrencyConverter,
)
    ensures
        spec_apply_adjustments(adjs, price, sell_code, conv) matches Ok(pr) ==> pr.1.len()
            == adjs.len(),
    decreases adjs.len(),
{
    if adjs.len() > 0 {
        match spec_apply_adjustment(price, adjs[0], sell_code, conv) {
            Ok(step) => {
                lemma_adjustments_run_length(adjs.drop_first(), step.0, sell_code, conv);
            },
            Err(_) => {},
        }
    }
}

} // verus!
