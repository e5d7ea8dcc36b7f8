//! The predicates on numbers and markers, as Lisp sees them: each takes a
//! value and returns `t` or `nil`.
use vstd::prelude::*;
use crate::lisp::{
    is_float, is_integer, is_marker, is_non_negative_integer, is_number, LispObject, FLOATP,
    INTEGERP, MARKERP, NATNUMP, NUMBERP,
};

verus! {

/// Whether `v` is an integer or a marker: something that can name a position.
pub open spec fn is_integer_or_marker(v: LispObject) -> bool {
    is_integer(v) || is_marker(v)
}

/// Whether `v` is a number or a marker.
pub open spec fn is_number_or_marker(v: LispObject) -> bool {
    is_number(v) || is_marker(v)
}

/// Return t if `object` is a floating point number.
pub fn Ffloatp(object: LispObject) -> (r: LispObject)
    ensures
        r == LispObject::from_bool(is_float(object)),
{
    LispObject::from_bool(FLOATP(object))
}

/// Return t if `object` is an integer.
pub fn Fintegerp(object: LispObject) -> (r: LispObject)
    ensures
        r == LispObject::from_bool(is_integer(object)),
{
    LispObject::from_bool(INTEGERP(object))
}

/// Return t if `object` is an integer or a marker (editor pointer).
pub fn Finteger_or_marker_p(object: LispObject) -> (r: LispObject)
    ensures
        r == LispObject::from_bool(is_integer_or_marker(object)),
{
    LispObject::from_bool(MARKERP(object) || INTEGERP(object))
}

/// Return t if `object` is a non-negative integer.
pub fn Fnatnump(object: LispObject) -> (r: LispObject)
    ensures
        r == LispObject::from_bool(is_non_negative_integer(object)),
{
    LispObject::from_bool(NATNUMP(object))
}

/// Return t if `object` is a number (floating point or integer).
pub fn Fnumberp(object: LispObject) -> (r: LispObject)
    ensures
        r == LispObject::from_bool(is_number(object)),
{
    LispObject::from_bool(NUMBERP(object))
}

/// Return t if `object` is a number or a marker (editor pointer).
pub fn Fnumber_or_marker_p(object: LispObject) -> (r: LispObject)
    ensures
        r == LispObject::from_bool(is_number_or_marker(object)),
{
    LispObject::from_bool(NUMBERP(object) || MARKERP(object))
}

} // verus!
