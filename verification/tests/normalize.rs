use cattle_prices::numeric::Decimal;
use cattle_prices::numeric::normalize;

fn as_f64(d: Decimal) -> f64 {
    let m = d.mantissa as f64 / 10f64.powi(d.scale as i32);
    if d.neg {
        -m
    } else {
        m
    }
}

#[test]
fn thousands_and_comma() {
    let r = normalize("1.234,56");
    assert!(r.parsed);
    assert_eq!(r.value, Decimal { neg: false, mantissa: 123456, scale: 2 });
    assert_eq!(as_f64(r.value), 1234.56);
}

#[test]
fn zero_with_fraction() {
    let r = normalize("0,00");
    assert!(r.parsed);
    assert_eq!(r.value, Decimal { neg: false, mantissa: 0, scale: 2 });
    assert_eq!(as_f64(r.value), 0.0);
}

#[test]
fn non_numeric_reports_failure_and_yields_zero() {
    let r = normalize("abc");
    assert!(!r.parsed);
    assert_eq!(as_f64(r.value), 0.0);
}

#[test]
fn whitespace_insensitive() {
    let r = normalize("  12,5 ");
    assert!(r.parsed);
    assert_eq!(r.value, Decimal { neg: false, mantissa: 125, scale: 1 });
    assert_eq!(as_f64(r.value), 12.5);
}

#[test]
fn empty_text_fails() {
    let r = normalize("");
    assert!(!r.parsed);
    assert_eq!(as_f64(r.value), 0.0);
}

#[test]
fn negative_price() {
    let r = normalize("-5,25");
    assert!(r.parsed);
    assert_eq!(r.value, Decimal { neg: true, mantissa: 525, scale: 2 });
    assert_eq!(as_f64(r.value), -5.25);
}

#[test]
fn plus_sign_and_integer() {
    let r = normalize("+7");
    assert!(r.parsed);
    assert_eq!(r.value, Decimal { neg: false, mantissa: 7, scale: 0 });
}

#[test]
fn every_dot_is_stripped() {
    // The separator rewrite removes every dot before parsing, as the
    // thousands-stripping rule does on real inputs like "1.234.567,89".
    let r = normalize("1.234.567,89");
    assert!(r.parsed);
    assert_eq!(r.value, Decimal { neg: false, mantissa: 123456789, scale: 2 });
}

#[test]
fn two_commas_fail() {
    let r = normalize("1,2,3");
    assert!(!r.parsed);
    assert_eq!(as_f64(r.value), 0.0);
}

#[test]
fn huge_mantissa_fails() {
    let r = normalize("99999999999999999999");
    assert!(!r.parsed);
    assert_eq!(as_f64(r.value), 0.0);
}

#[test]
fn bare_comma_fails() {
    let r = normalize(",");
    assert!(!r.parsed);
}

#[test]
fn fraction_only() {
    let r = normalize(",5");
    assert!(r.parsed);
    assert_eq!(r.value, Decimal { neg: false, mantissa: 5, scale: 1 });
}
