use pricing_kit::AdjustmentKind;
use pricing_kit::Currency;
use pricing_kit::CurrencyConverter;
use pricing_kit::CurrencyConverterError;
use pricing_kit::Dec;
use pricing_kit::MarkupType;
use pricing_kit::PriceAdjustment;
use pricing_kit::PricingDetail;
use pricing_kit::PricingError;

fn setup() -> (Currency, Currency, CurrencyConverter) {
    let usd = Currency::new("USD", "US Dollar");
    let idr = Currency::new("IDR", "Indonesian Rupiah");

    let mut converter = CurrencyConverter::new();
    converter.add_exchange_rate(&usd, Dec::new(10, 1));
    converter.add_exchange_rate(&idr, Dec::new(165000, 1));
    (usd, idr, converter)
}

#[test]
fn test_apply_tax_and_discount_adjustments() {
    let (usd, idr, converter) = setup();

    let mut pricing = PricingDetail::new(Dec::new(10000, 1), usd.clone(), idr.clone());
    pricing.markup = Some(MarkupType::Percentage(Dec::new(100, 1)));
    pricing.apply_markup(&converter).unwrap();

    let adjustments = vec![
        PriceAdjustment::Tax {
            name: "Tax 11%".into(),
            percentage: Dec::new(110, 1),
        },
        PriceAdjustment::Discount {
            name: "Discount 5%".into(),
            percentage: Dec::new(50, 1),
        },
    ];

    pricing.apply_adjustments(&adjustments, &converter).unwrap();

    // Sell price before adjustments: 1100 USD * 16500 = 18,150,000 IDR.
    // Tax 11%: +1,996,500 -> 20,146,500. Discount 5%: -1,007,325 ->
    // 19,139,175.
    let expected_price = Dec::new(191391750, 1);
    let tolerance = Dec::new(1, 2);

    let diff = pricing.sell_price.checked_sub(&expected_price).unwrap().abs();
    assert!(
        diff.lt(&tolerance),
        "Expected final price {:?}, got {:?}",
        expected_price,
        pricing.sell_price
    );

    assert_eq!(pricing.applied_adjustments.len(), 2);

    let tax = &pricing.applied_adjustments[0];
    assert_eq!(tax.kind, AdjustmentKind::Tax);
    assert_eq!(tax.name, "Tax 11%");
    assert!(Dec::new(0, 0).lt(&tax.applied_amount));

    let discount = &pricing.applied_adjustments[1];
    assert_eq!(discount.kind, AdjustmentKind::Discount);
    assert_eq!(discount.name, "Discount 5%");
    assert!(discount.applied_amount.lt(&Dec::new(0, 0)));
}

#[test]
fn test_adjustment_order_sensitivity() {
    // [Tax 11%, Discount 5%] over 18,150,000 gives 19,139,175.
    let (usd, idr, converter) = setup();
    let start = Dec::new(18150000, 0);

    let tax = PriceAdjustment::Tax {
        name: "Tax 11%".into(),
        percentage: Dec::new(110, 1),
    };
    let discount = PriceAdjustment::Discount {
        name: "Discount 5%".into(),
        percentage: Dec::new(50, 1),
    };
    let fee = PriceAdjustment::Fixed {
        name: "Admin Fee".into(),
        amount: Dec::new(1000, 0),
        currency: idr.clone(),
    };

    let mut pricing = PricingDetail::new(Dec::new(10000, 1), usd.clone(), idr.clone());
    pricing.sell_price = start;
    pricing
        .apply_adjustments(&[tax.clone(), discount.clone()], &converter)
        .unwrap();
    assert!(pricing.sell_price.eq_value(&Dec::new(19139175, 0)));

    // A fixed fee does not commute with a percentage tax: taxing after
    // the fee also taxes the fee.
    let mut fee_then_tax = PricingDetail::new(Dec::new(10000, 1), usd.clone(), idr.clone());
    fee_then_tax.sell_price = start;
    fee_then_tax
        .apply_adjustments(&[fee.clone(), tax.clone()], &converter)
        .unwrap();

    let mut tax_then_fee = PricingDetail::new(Dec::new(10000, 1), usd.clone(), idr.clone());
    tax_then_fee.sell_price = start;
    tax_then_fee
        .apply_adjustments(&[tax.clone(), fee.clone()], &converter)
        .unwrap();

    assert!(!fee_then_tax.sell_price.eq_value(&tax_then_fee.sell_price));
    // (18,150,000 + 1000) * 1.11 = 20,147,610.
    assert!(fee_then_tax.sell_price.eq_value(&Dec::new(20147610, 0)));
    // 18,150,000 * 1.11 + 1000 = 20,147,500.
    assert!(tax_then_fee.sell_price.eq_value(&Dec::new(20147500, 0)));
}

#[test]
fn test_adjustment_sign_contract() {
    // Discounts record negative amounts; taxes and fixed fees with
    // positive inputs record positive ones.
    let (usd, idr, converter) = setup();

    let mut pricing = PricingDetail::new(Dec::new(10000, 1), usd.clone(), idr.clone());
    pricing.sell_price = Dec::new(1000000, 0);
    let adjustments = vec![
        PriceAdjustment::Tax {
            name: "Tax".into(),
            percentage: Dec::new(11, 0),
        },
        PriceAdjustment::Fixed {
            name: "Fee".into(),
            amount: Dec::new(2, 0),
            currency: usd.clone(),
        },
        PriceAdjustment::Discount {
            name: "Promo".into(),
            percentage: Dec::new(5, 0),
        },
    ];
    pricing.apply_adjustments(&adjustments, &converter).unwrap();

    let zero = Dec::new(0, 0);
    assert!(zero.lt(&pricing.applied_adjustments[0].applied_amount));
    assert!(zero.lt(&pricing.applied_adjustments[1].applied_amount));
    assert!(pricing.applied_adjustments[2].applied_amount.lt(&zero));
    // The fixed fee of 2 USD was converted: 2 * 16500 = 33,000 IDR.
    assert!(pricing.applied_adjustments[1]
        .applied_amount
        .eq_value(&Dec::new(33000, 0)));
}

#[test]
fn test_reapplication_replaces_adjustments() {
    // Re-applying the same list from the same starting sell price gives
    // the same final price and the same records, not doubled ones.
    let (usd, idr, converter) = setup();

    let mut pricing = PricingDetail::new(Dec::new(10000, 1), usd.clone(), idr.clone());
    pricing.markup = Some(MarkupType::Percentage(Dec::new(100, 1)));
    pricing.apply_markup(&converter).unwrap();
    let start = pricing.sell_price;

    let adjustments = vec![
        PriceAdjustment::Tax {
            name: "Tax 11%".into(),
            percentage: Dec::new(110, 1),
        },
        PriceAdjustment::Discount {
            name: "Discount 5%".into(),
            percentage: Dec::new(50, 1),
        },
    ];

    pricing.apply_adjustments(&adjustments, &converter).unwrap();
    let first_price = pricing.sell_price;
    let first_amounts: Vec<Dec> = pricing
        .applied_adjustments
        .iter()
        .map(|a| a.applied_amount)
        .collect();

    pricing.sell_price = start;
    pricing.apply_adjustments(&adjustments, &converter).unwrap();

    assert!(pricing.sell_price.eq_value(&first_price));
    assert_eq!(pricing.applied_adjustments.len(), 2);
    for (rec, first) in pricing.applied_adjustments.iter().zip(first_amounts.iter()) {
        assert!(rec.applied_amount.eq_value(first));
    }
}

#[test]
fn test_fixed_adjustment_unknown_currency_fails() {
    // A fixed fee in a currency without a stored rate fails with
    // AdjustmentFailed(RateNotFound), and nothing is committed.
    let (usd, idr, converter) = setup();
    let eur = Currency::new("EUR", "Euro");

    let mut pricing = PricingDetail::new(Dec::new(10000, 1), usd.clone(), idr.clone());
    pricing.sell_price = Dec::new(1000, 0);
    let before = pricing.sell_price;
    let adjustments = vec![
        PriceAdjustment::Tax {
            name: "Tax".into(),
            percentage: Dec::new(11, 0),
        },
        PriceAdjustment::Fixed {
            name: "Fee".into(),
            amount: Dec::new(2, 0),
            currency: eur.clone(),
        },
    ];
    match pricing.apply_adjustments(&adjustments, &converter) {
        Err(PricingError::AdjustmentFailed(CurrencyConverterError::RateNotFound(code))) => {
            assert_eq!(code, "EUR")
        }
        other => panic!("expected AdjustmentFailed, got {:?}", other),
    }
    assert!(pricing.sell_price.eq_value(&before));
    assert_eq!(pricing.applied_adjustments.len(), 0);
}
