use lisp_character::error::{ExpectedType, LispError};
use lisp_character::lisp::{
    make_number, EmacsInt, LispObject, MarkerHandle, StringHandle, CHECK_TYPE, FLOATP, INTEGERP,
    MARKERP, NATNUMP, NUMBERP, XFASTINT,
};

fn samples() -> Vec<LispObject> {
    vec![
        LispObject::Nil,
        LispObject::T,
        LispObject::Integer(0),
        LispObject::Integer(42),
        LispObject::Integer(-42),
        LispObject::Float(2.5f64.to_bits()),
        LispObject::Marker(MarkerHandle(3)),
        LispObject::Str(StringHandle(3)),
    ]
}

#[test]
fn from_bool_gives_t_or_nil() {
    assert_eq!(LispObject::from_bool(true), LispObject::T);
    assert_eq!(LispObject::from_bool(false), LispObject::Nil);
    assert_eq!(LispObject::constant_t(), LispObject::T);
    assert_eq!(LispObject::constant_nil(), LispObject::Nil);
}

#[test]
fn make_number_boxes_the_integer() {
    let values: [EmacsInt; 7] = [0, 1, -1, 255, 4194303, i64::MIN, i64::MAX];
    for n in values {
        assert_eq!(make_number(n), LispObject::Integer(n));
    }
}

#[test]
fn xfastint_unboxes_what_make_number_boxed() {
    for n in [0i64, 1, 65, 255, 256, 4194303, i64::MAX] {
        assert_eq!(XFASTINT(make_number(n)), n);
    }
}

#[test]
fn tag_predicates_tell_the_kinds_apart() {
    let integer = [false, false, true, true, true, false, false, false];
    let natnum = [false, false, true, true, false, false, false, false];
    let float = [false, false, false, false, false, true, false, false];
    let marker = [false, false, false, false, false, false, true, false];
    let number = [false, false, true, true, true, true, false, false];
    for (i, v) in samples().into_iter().enumerate() {
        assert_eq!(INTEGERP(v), integer[i]);
        assert_eq!(NATNUMP(v), natnum[i]);
        assert_eq!(FLOATP(v), float[i]);
        assert_eq!(MARKERP(v), marker[i]);
        assert_eq!(NUMBERP(v), number[i]);
    }
}

#[test]
fn check_type_passes_when_the_test_held() {
    for v in samples() {
        assert_eq!(CHECK_TYPE(true, ExpectedType::Character, v), Ok(()));
    }
}

#[test]
fn check_type_fails_with_the_expected_type_and_the_value() {
    for v in samples() {
        assert_eq!(
            CHECK_TYPE(false, ExpectedType::Character, v),
            Err(LispError::WrongType(ExpectedType::Character, v))
        );
        assert_eq!(
            CHECK_TYPE(false, ExpectedType::NumberOrMarker, v),
            Err(LispError::WrongType(ExpectedType::NumberOrMarker, v))
        );
    }
}
