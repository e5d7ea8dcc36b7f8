use lisp_character::decimal::{push_decimal, push_decimal_digits};
use lisp_character::error::{ExpectedType, LispError};
use lisp_character::lisp::LispObject;

fn decimal_of(n: i64) -> String {
    let mut s = String::new();
    push_decimal(&mut s, n);
    s
}

#[test]
fn range_error_message_embeds_the_value() {
    assert_eq!(LispError::RangeError(300).message(), "not a unibyte character: 300");
    assert_eq!(LispError::RangeError(256).message(), "not a unibyte character: 256");
    assert_eq!(LispError::RangeError(4194303).message(), "not a unibyte character: 4194303");
}

#[test]
fn wrong_type_message_names_the_predicate() {
    let e = LispError::WrongType(ExpectedType::Character, LispObject::Integer(-1));
    assert_eq!(e.message(), "wrong type argument: characterp");
    let e = LispError::WrongType(ExpectedType::NumberOrMarker, LispObject::Nil);
    assert_eq!(e.message(), "wrong type argument: number-or-marker-p");
}

#[test]
fn expected_types_are_named_after_their_predicates() {
    assert_eq!(ExpectedType::Character.name(), "characterp");
    assert_eq!(ExpectedType::Integer.name(), "integerp");
    assert_eq!(ExpectedType::NonNegativeInteger.name(), "natnump");
    assert_eq!(ExpectedType::Float.name(), "floatp");
    assert_eq!(ExpectedType::Marker.name(), "markerp");
    assert_eq!(ExpectedType::Number.name(), "numberp");
    assert_eq!(ExpectedType::IntegerOrMarker.name(), "integer-or-marker-p");
    assert_eq!(ExpectedType::NumberOrMarker.name(), "number-or-marker-p");
}

#[test]
fn decimal_of_small_numbers() {
    assert_eq!(decimal_of(0), "0");
    assert_eq!(decimal_of(7), "7");
    assert_eq!(decimal_of(9), "9");
    assert_eq!(decimal_of(10), "10");
    assert_eq!(decimal_of(99), "99");
    assert_eq!(decimal_of(100), "100");
    assert_eq!(decimal_of(300), "300");
    assert_eq!(decimal_of(1234567890), "1234567890");
}

#[test]
fn decimal_of_negative_numbers() {
    assert_eq!(decimal_of(-1), "-1");
    assert_eq!(decimal_of(-10), "-10");
    assert_eq!(decimal_of(-300), "-300");
}

#[test]
fn decimal_at_the_ends_of_the_range() {
    assert_eq!(decimal_of(i64::MAX), "9223372036854775807");
    assert_eq!(decimal_of(i64::MIN), "-9223372036854775808");
    let mut s = String::new();
    push_decimal_digits(&mut s, u64::MAX);
    assert_eq!(s, "18446744073709551615");
}

#[test]
fn decimal_agrees_with_the_standard_formatting() {
    for n in -2000i64..=2000 {
        assert_eq!(decimal_of(n), format!("{}", n));
    }
    for k in 0..63u32 {
        let n = 1i64 << k;
        assert_eq!(decimal_of(n), format!("{}", n));
        assert_eq!(decimal_of(-n), format!("{}", -n));
        assert_eq!(decimal_of(n - 1), format!("{}", n - 1));
    }
}

#[test]
fn push_decimal_appends_to_what_is_there() {
    let mut s = String::from("x = ");
    push_decimal(&mut s, -45);
    assert_eq!(s, "x = -45");
    push_decimal_digits(&mut s, 6);
    assert_eq!(s, "x = -456");
}
