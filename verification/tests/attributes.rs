use citationberg::{Boolean, IntegerError, NonNegativeInteger};
use std::cmp::Ordering;

#[test]
fn boolean_reads_true_in_any_ascii_case() {
    assert!(*Boolean::parse("true"));
    assert!(*Boolean::parse("TRUE"));
    assert!(*Boolean::parse("True"));
    assert!(*Boolean::parse("tRuE"));
}

#[test]
fn boolean_reads_everything_else_as_false() {
    assert!(!*Boolean::parse("false"));
    assert!(!*Boolean::parse(""));
    assert!(!*Boolean::parse(" true"));
    assert!(!*Boolean::parse("true "));
    assert!(!*Boolean::parse("yes"));
    assert!(!*Boolean::parse("1"));
    assert!(!*Boolean::parse("truee"));
    assert!(!*Boolean::parse("tru"));
}

#[test]
fn boolean_not_flips_and_is_involutive() {
    let t = Boolean::new(true);
    assert!(!*!t);
    assert!(*!!t);
    assert_eq!(!!t, t);
    assert_eq!(!Boolean::new(false), t);
}

#[test]
fn boolean_default_is_false() {
    assert!(!*Boolean::default());
    assert!(!Boolean::default().get());
}

#[test]
fn integer_reads_plain_digits() {
    assert_eq!(NonNegativeInteger::parse("5").map(|n| *n), Ok(5));
    assert_eq!(NonNegativeInteger::parse("0").map(|n| *n), Ok(0));
    assert_eq!(NonNegativeInteger::parse("007").map(|n| *n), Ok(7));
    assert_eq!(NonNegativeInteger::parse("+12").map(|n| *n), Ok(12));
    assert_eq!(NonNegativeInteger::parse("4294967295").map(|n| *n), Ok(4294967295));
}

#[test]
fn integer_ignores_surrounding_white_space() {
    assert_eq!(NonNegativeInteger::parse(" 42 ").map(|n| *n), Ok(42));
    assert_eq!(NonNegativeInteger::parse("\t\n3\r").map(|n| *n), Ok(3));
    assert_eq!(NonNegativeInteger::parse("\u{3000}8\u{A0}").map(|n| *n), Ok(8));
    assert_eq!(NonNegativeInteger::parse("1 2"), Err(IntegerError::InvalidDigit));
}

#[test]
fn integer_errors() {
    assert_eq!(NonNegativeInteger::parse(""), Err(IntegerError::Empty));
    assert_eq!(NonNegativeInteger::parse("   "), Err(IntegerError::Empty));
    assert_eq!(NonNegativeInteger::parse("+"), Err(IntegerError::InvalidDigit));
    assert_eq!(NonNegativeInteger::parse("-"), Err(IntegerError::InvalidDigit));
    assert_eq!(NonNegativeInteger::parse("-1"), Err(IntegerError::InvalidDigit));
    assert_eq!(NonNegativeInteger::parse("12a"), Err(IntegerError::InvalidDigit));
    assert_eq!(NonNegativeInteger::parse("++1"), Err(IntegerError::InvalidDigit));
    assert_eq!(NonNegativeInteger::parse("4294967296"), Err(IntegerError::Overflow));
    assert_eq!(NonNegativeInteger::parse("99999999999x"), Err(IntegerError::Overflow));
    assert_eq!(NonNegativeInteger::parse("x99999999999"), Err(IntegerError::InvalidDigit));
}

#[test]
fn integer_agrees_with_std() {
    for text in ["1", " 17", "+0", "-0", "", "+", "4294967295", "4294967296", "1.5", "٣"] {
        let ours = NonNegativeInteger::parse(text).map(|n| *n).ok();
        let std = text.trim().parse::<u32>().ok();
        assert_eq!(ours, std, "{text:?}");
    }
}

#[test]
fn integer_round_trips_decimal() {
    for n in [0u32, 1, 9, 10, 99, 100, 12345, 4294967295] {
        assert_eq!(NonNegativeInteger::parse(&n.to_string()).map(|v| *v), Ok(n));
    }
}

#[test]
fn integer_default_and_order() {
    assert_eq!(*NonNegativeInteger::default(), 0);
    assert!(NonNegativeInteger::new(3) < NonNegativeInteger::new(4));
    assert_eq!(NonNegativeInteger::new(9).get(), 9);
}

#[test]
fn integer_order_follows_value() {
    let a = NonNegativeInteger::new(3);
    let b = NonNegativeInteger::new(10);
    assert_eq!(a.partial_cmp(&b), Some(Ordering::Less));
    assert_eq!(b.partial_cmp(&a), Some(Ordering::Greater));
    assert_eq!(a.partial_cmp(&NonNegativeInteger::new(3)), Some(Ordering::Equal));
    assert_eq!(a.cmp(&b), Ordering::Less);
    assert!(a <= b && b >= a && a != b);
    assert_eq!(NonNegativeInteger::parse(" 3").unwrap(), a);
}
