//! The tagged value that the rest of the library classifies.
//!
//! A [`LispObject`] carries a type tag and a payload.  The tag is the enum's
//! variant; the payload of an integer is the integer itself, and the payload
//! of an object that lives on the heap is a handle that names it.  Values are
//! immutable and passed by value.
use vstd::prelude::*;
use crate::error::{ExpectedType, LispError};

verus! {

/// The integer type of the payload of a Lisp integer.
pub type EmacsInt = i64;

/// Names a marker: a live reference to a position in a buffer.
#[derive(Clone, Copy, Debug, PartialEq, Eq, Hash, Structural)]
pub struct MarkerHandle(pub u64);

/// Names a string held in the string storage.
#[derive(Clone, Copy, Debug, PartialEq, Eq, Hash, Structural)]
pub struct StringHandle(pub u64);

/// A Lisp value: a type tag together with its payload.
#[derive(Clone, Copy, Debug, PartialEq, Eq, Hash, Structural)]
pub enum LispObject {
    /// The symbol `nil`, which also stands for falsehood.
    Nil,
    /// The symbol `t`, which stands for truth.
    T,
    /// An integer of either sign.
    Integer(EmacsInt),
    /// A floating-point number, held as the bit pattern of its IEEE 754
    /// double-precision encoding.
    Float(u64),
    /// A marker.
    Marker(MarkerHandle),
    /// A string.
    Str(StringHandle),
}

/// Whether `v` carries the integer tag, whatever the sign of its payload.
pub open spec fn is_integer(v: LispObject) -> bool {
    v is Integer
}

/// Whether `v` is an integer whose payload is zero or more.
pub open spec fn is_non_negative_integer(v: LispObject) -> bool {
    v matches LispObject::Integer(n) && n >= 0
}

/// Whether `v` carries the floating-point tag.
pub open spec fn is_float(v: LispObject) -> bool {
    v is Float
}

/// Whether `v` carries the marker tag.
pub open spec fn is_marker(v: LispObject) -> bool {
    v is Marker
}

/// Whether `v` is a number: an integer or a floating-point number.
pub open spec fn is_number(v: LispObject) -> bool {
    is_integer(v) || is_float(v)
}

impl LispObject {
    /// The Lisp value that stands for the truth value `b`: `t` for true and
    /// `nil` for false.
    pub open spec fn spec_from_bool(b: bool) -> LispObject {
        if b {
            LispObject::T
        } else {
            LispObject::Nil
        }
    }

    /// The symbol `t`.
    pub fn constant_t() -> (r: LispObject)
        ensures
            r == LispObject::T,
    {
        LispObject::T
    }

    /// The symbol `nil`.
    pub fn constant_nil() -> (r: LispObject)
        ensures
            r == LispObject::Nil,
    {
        LispObject::Nil
    }

    /// Turns a truth value into the Lisp value that stands for it.
    #[verifier::when_used_as_spec(spec_from_bool)]
    pub fn from_bool(b: bool) -> (r: LispObject)
        ensures
            r == LispObject::spec_from_bool(b),
    {
        if b {
            LispObject::constant_t()
        } else {
            LispObject::constant_nil()
        }
    }
}

/// Boxes the integer `n` as a Lisp integer.
pub fn make_number(n: EmacsInt) -> (r: LispObject)
    ensures
        r == LispObject::Integer(n),
{
    LispObject::Integer(n)
}

/// True iff `x` is an integer.
pub fn INTEGERP(x: LispObject) -> (r: bool)
    ensures
        r == is_integer(x),
{
    match x {
        LispObject::Integer(_) => true,
        _ => false,
    }
}

/// True iff `x` is an integer that is not negative.
pub fn NATNUMP(x: LispObject) -> (r: bool)
    ensures
        r == is_non_negative_integer(x),
{
    match x {
        LispObject::Integer(n) => n >= 0,
        _ => false,
    }
}

/// True iff `x` is a floating-point number.
pub fn FLOATP(x: LispObject) -> (r: bool)
    ensures
        r == is_float(x),
{
    match x {
        LispObject::Float(_) => true,
        _ => false,
    }
}

/// True iff `x` is a marker.
pub fn MARKERP(x: LispObject) -> (r: bool)
    ensures
        r == is_marker(x),
{
    match x {
        LispObject::Marker(_) => true,
        _ => false,
    }
}

/// True iff `x` is an integer or a floating-point number.
pub fn NUMBERP(x: LispObject) -> (r: bool)
    ensures
        r == is_number(x),
{
    INTEGERP(x) || FLOATP(x)
}

/// The payload of an integer that is known not to be negative.
pub fn XFASTINT(a: LispObject) -> (n: EmacsInt)
    requires
        is_non_negative_integer(a),
    ensures
        a == LispObject::Integer(n),
        n >= 0,
{
    match a {
        LispObject::Integer(n) => n,
        _ => 0,
    }
}

/// Passes when `ok` holds, and otherwise fails with a wrong-type error that
/// names the type that was expected and carries the offending value `x`.
pub fn CHECK_TYPE(ok: bool, predicate: ExpectedType, x: LispObject) -> (r: Result<(), LispError>)
    ensures
        ok ==> r == Ok::<(), LispError>(()),
        !ok ==> r == Err::<(), LispError>(LispError::WrongType(predicate, x)),
{
    if ok {
        Ok(())
    } else {
        Err(LispError::WrongType(predicate, x))
    }
}

} // verus!
