use pricing_kit::Currency;
use pricing_kit::CurrencyConverter;
use pricing_kit::CurrencyConverterError;
use pricing_kit::Dec;
use pricing_kit::decimal::MAX_MANTISSA;

#[test]
fn test_identity_conversion_without_rates() {
    // convert(x, C, C) == x even when C has no stored rate.
    let converter = CurrencyConverter::new();
    let usd = Currency::new("USD", "US Dollar");

    let amount = Dec::new(123456, 2);
    let out = converter.convert(amount, &usd, &usd).unwrap();
    assert!(out.eq_value(&amount));
    assert_eq!(out.mantissa(), amount.mantissa());
    assert_eq!(out.scale(), amount.scale());
}

#[test]
fn test_identity_conversion_with_zero_rate() {
    // The identity short-circuit wins even over a zero rate.
    let mut converter = CurrencyConverter::new();
    let usd = Currency::new("USD", "US Dollar");
    converter.add_exchange_rate(&usd, Dec::new(0, 0));

    let amount = Dec::new(5, 0);
    assert!(converter.convert(amount, &usd, &usd).unwrap().eq_value(&amount));
}

#[test]
fn test_exact_conversion() {
    let mut converter = CurrencyConverter::new();
    let usd = Currency::new("USD", "US Dollar");
    let idr = Currency::new("IDR", "Indonesian Rupiah");
    converter.add_exchange_rate(&usd, Dec::new(10, 1));
    converter.add_exchange_rate(&idr, Dec::new(165000, 1));

    let out = converter.convert(Dec::new(1000, 1), &usd, &idr).unwrap();
    assert!(out.eq_value(&Dec::new(1650000, 0)));
}

#[test]
fn test_conversion_round_trip() {
    let mut converter = CurrencyConverter::new();
    let usd = Currency::new("USD", "US Dollar");
    let idr = Currency::new("IDR", "Indonesian Rupiah");
    let gbp = Currency::new("GBP", "Pound Sterling");
    converter.add_exchange_rate(&usd, Dec::new(10, 1));
    converter.add_exchange_rate(&idr, Dec::new(165000, 1));
    converter.add_exchange_rate(&gbp, Dec::new(3, 0));

    // An exact round trip.
    let x = Dec::new(100, 0);
    let there = converter.convert(x, &usd, &idr).unwrap();
    let back = converter.convert(there, &idr, &usd).unwrap();
    assert!(back.eq_value(&x));

    // A rounding round trip: within decimal rounding tolerance.
    let y = Dec::new(10, 0);
    let there = converter.convert(y, &gbp, &idr).unwrap();
    let back = converter.convert(there, &idr, &gbp).unwrap();
    let diff = back.checked_sub(&y).unwrap().abs();
    assert!(diff.lt(&Dec::new(1, 10)));
}

#[test]
fn test_rate_not_found_names_missing_code() {
    let mut converter = CurrencyConverter::new();
    let usd = Currency::new("USD", "US Dollar");
    let idr = Currency::new("IDR", "Indonesian Rupiah");
    converter.add_exchange_rate(&usd, Dec::new(10, 1));

    // `to` missing: its code is reported.
    match converter.convert(Dec::new(1, 0), &usd, &idr) {
        Err(CurrencyConverterError::RateNotFound(code)) => assert_eq!(code, "IDR"),
        other => panic!("expected RateNotFound, got {:?}", other),
    }

    // `from` missing: its code is reported.
    match converter.convert(Dec::new(1, 0), &idr, &usd) {
        Err(CurrencyConverterError::RateNotFound(code)) => assert_eq!(code, "IDR"),
        other => panic!("expected RateNotFound, got {:?}", other),
    }

    // Both missing: the `from` code is reported first.
    let eur = Currency::new("EUR", "Euro");
    let gbp = Currency::new("GBP", "Pound Sterling");
    match converter.convert(Dec::new(1, 0), &eur, &gbp) {
        Err(CurrencyConverterError::RateNotFound(code)) => assert_eq!(code, "EUR"),
        other => panic!("expected RateNotFound, got {:?}", other),
    }
}

#[test]
fn test_zero_rate_division_by_zero() {
    let mut converter = CurrencyConverter::new();
    let usd = Currency::new("USD", "US Dollar");
    let idr = Currency::new("IDR", "Indonesian Rupiah");
    converter.add_exchange_rate(&usd, Dec::new(0, 2));
    converter.add_exchange_rate(&idr, Dec::new(165000, 1));

    // A zero source rate fails, even for a zero amount.
    match converter.convert(Dec::new(0, 0), &usd, &idr) {
        Err(CurrencyConverterError::DivisionByZero) => {}
        other => panic!("expected DivisionByZero, got {:?}", other),
    }
    match converter.convert(Dec::new(100, 0), &usd, &idr) {
        Err(CurrencyConverterError::DivisionByZero) => {}
        other => panic!("expected DivisionByZero, got {:?}", other),
    }
    // A zero target rate is fine: everything maps to zero.
    let out = converter.convert(Dec::new(100, 0), &idr, &usd).unwrap();
    assert!(out.eq_value(&Dec::new(0, 0)));
}

#[test]
fn test_conversion_overflow() {
    // Dividing the largest representable value by a tiny rate leaves
    // the representable range.
    let mut converter = CurrencyConverter::new();
    let usd = Currency::new("USD", "US Dollar");
    let idr = Currency::new("IDR", "Indonesian Rupiah");
    converter.add_exchange_rate(&usd, Dec::new(1, 28));
    converter.add_exchange_rate(&idr, Dec::new(10, 1));

    match converter.convert(Dec::new(MAX_MANTISSA, 0), &usd, &idr) {
        Err(CurrencyConverterError::Overflow) => {}
        other => panic!("expected Overflow, got {:?}", other),
    }
}

#[test]
fn test_rate_overwrite() {
    // Inserting a rate under an existing code overwrites it.
    let mut converter = CurrencyConverter::new();
    let usd = Currency::new("USD", "US Dollar");
    converter.add_exchange_rate(&usd, Dec::new(10, 1));
    converter.add_exchange_rate(&usd, Dec::new(20, 1));

    assert!(converter
        .get_exchange_rate(&usd)
        .unwrap()
        .eq_value(&Dec::new(2, 0)));
}

#[test]
fn test_currency_accessors() {
    let usd = Currency::new("USD", "US Dollar");
    assert_eq!(usd.get_code(), "USD");
    assert_eq!(usd.get_name(), "US Dollar");

    // Equality is by code alone; the name is metadata.
    let other = Currency::new("USD", "American Dollar");
    assert!(usd == other);
    let idr = Currency::new("IDR", "Indonesian Rupiah");
    assert!(usd != idr);
}
