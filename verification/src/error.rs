//! The errors that classification and conversion report.
use vstd::prelude::*;
use vstd::string::*;
use crate::decimal::{decimal, push_decimal};
use crate::lisp::{EmacsInt, LispObject};

verus! {

/// The kind of value that an operation asked for, named in a wrong-type
/// error.
#[derive(Clone, Copy, Debug, PartialEq, Eq, Hash, Structural)]
pub enum ExpectedType {
    /// A character: an integer from zero to the maximum character code.
    Character,
    /// An integer of either sign.
    Integer,
    /// An integer that is not negative.
    NonNegativeInteger,
    /// A floating-point number.
    Float,
    /// A marker.
    Marker,
    /// An integer or a floating-point number.
    Number,
    /// An integer or a marker.
    IntegerOrMarker,
    /// A number or a marker.
    NumberOrMarker,
}

/// Why an operation failed.
#[derive(Clone, Copy, Debug, PartialEq, Eq, Hash, Structural)]
pub enum LispError {
    /// The argument is not of the kind that the operation asked for.  Carries
    /// the expected kind and the offending value.
    WrongType(ExpectedType, LispObject),
    /// The argument is a character, but not a unibyte character: its code is
    /// 256 or more.  Carries the offending code.
    RangeError(EmacsInt),
}

impl ExpectedType {
    /// The name of the Lisp predicate that tests for this kind of value.
    pub open spec fn spec_name(self) -> Seq<char> {
        match self {
            ExpectedType::Character => "characterp"@,
            ExpectedType::Integer => "integerp"@,
            ExpectedType::NonNegativeInteger => "natnump"@,
            ExpectedType::Float => "floatp"@,
            ExpectedType::Marker => "markerp"@,
            ExpectedType::Number => "numberp"@,
            ExpectedType::IntegerOrMarker => "integer-or-marker-p"@,
            ExpectedType::NumberOrMarker => "number-or-marker-p"@,
        }
    }

    /// The name of the Lisp predicate that tests for this kind of value.
    pub fn name(self) -> (s: &'static str)
        ensures
            s@ == self.spec_name(),
    {
        match self {
            ExpectedType::Character => "characterp",
            ExpectedType::Integer => "integerp",
            ExpectedType::NonNegativeInteger => "natnump",
            ExpectedType::Float => "floatp",
            ExpectedType::Marker => "markerp",
            ExpectedType::Number => "numberp",
            ExpectedType::IntegerOrMarker => "integer-or-marker-p",
            ExpectedType::NumberOrMarker => "number-or-marker-p",
        }
    }
}

impl LispError {
    /// The text of the error.  A wrong-type error names the predicate that
    /// the value failed; a range error embeds the offending code in decimal.
    pub open spec fn spec_message(self) -> Seq<char> {
        match self {
            LispError::WrongType(expected, _) => "wrong type argument: "@ + expected.spec_name(),
            LispError::RangeError(value) => "not a unibyte character: "@ + decimal(value as int),
        }
    }

    /// The text of the error, for display.
    pub fn message(&self) -> (s: String)
        ensures
            s@ == self.spec_message(),
    {
        match self {
            LispError::WrongType(expected, _) => {
                let mut s = String::from_str("wrong type argument: ");
                s.append(expected.name());
                s
            },
            LispError::RangeError(value) => {
                let mut s = String::from_str("not a unibyte character: ");
                push_decimal(&mut s, *value);
                s
            },
        }
    }
}

} // verus!
