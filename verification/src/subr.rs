//! The primitives as the Lisp command layer sees them: each has a symbol
//! name, a least and a greatest number of arguments, and a doc string, and is
//! applied to a list of arguments whose length the caller has checked.
use vstd::prelude::*;
use crate::character::{
    characterp, convert_multibyte_char_to_unibyte, convert_unibyte_char_to_multibyte,
    is_character, max_char, multibyte_char_to_unibyte, unibyte_char_to_multibyte, MAX_CHAR,
};
use crate::error::LispError;
use crate::lisp::{is_float, is_integer, is_non_negative_integer, is_number, LispObject};
use crate::numbers::{
    is_integer_or_marker, is_number_or_marker, Ffloatp, Finteger_or_marker_p, Fintegerp,
    Fnatnump, Fnumber_or_marker_p, Fnumberp,
};

verus! {

/// A primitive of this library.
#[derive(Clone, Copy, Debug, PartialEq, Eq, Hash, Structural)]
pub enum Primitive {
    /// `max-char`
    MaxChar,
    /// `characterp`
    Characterp,
    /// `unibyte-char-to-multibyte`
    UnibyteCharToMultibyte,
    /// `multibyte-char-to-unibyte`
    MultibyteCharToUnibyte,
    /// `floatp`
    Floatp,
    /// `integerp`
    Integerp,
    /// `integer-or-marker-p`
    IntegerOrMarkerP,
    /// `natnump`
    Natnump,
    /// `numberp`
    Numberp,
    /// `number-or-marker-p`
    NumberOrMarkerP,
}

impl Primitive {
    /// The symbol that names the primitive in Lisp.
    pub open spec fn spec_symbol_name(self) -> Seq<char> {
        match self {
            Primitive::MaxChar => "max-char"@,
            Primitive::Characterp => "characterp"@,
            Primitive::UnibyteCharToMultibyte => "unibyte-char-to-multibyte"@,
            Primitive::MultibyteCharToUnibyte => "multibyte-char-to-unibyte"@,
            Primitive::Floatp => "floatp"@,
            Primitive::Integerp => "integerp"@,
            Primitive::IntegerOrMarkerP => "integer-or-marker-p"@,
            Primitive::Natnump => "natnump"@,
            Primitive::Numberp => "numberp"@,
            Primitive::NumberOrMarkerP => "number-or-marker-p"@,
        }
    }

    /// The least number of arguments that the primitive takes.
    pub open spec fn spec_min_args(self) -> nat {
        match self {
            Primitive::MaxChar => 0,
            _ => 1,
        }
    }

    /// The greatest number of arguments that the primitive takes.  Only
    /// `characterp` takes an optional argument, which it ignores.
    pub open spec fn spec_max_args(self) -> nat {
        match self {
            Primitive::MaxChar => 0,
            Primitive::Characterp => 2,
            _ => 1,
        }
    }

    /// Whether the primitive can be applied to `n` arguments.
    pub open spec fn accepts(self, n: nat) -> bool {
        self.spec_min_args() <= n <= self.spec_max_args()
    }

    /// The doc string of the primitive.
    pub open spec fn spec_doc(self) -> Seq<char> {
        match self {
            Primitive::MaxChar => "Return the character of the maximum code."@,
            Primitive::Characterp =>
                "Return non-nil if OBJECT is a character.\nIn Emacs Lisp, characters are represented by character codes, which\nare non-negative integers.  The function `max-char' returns the\nmaximum character code.\nusage: (characterp OBJECT)"@,
            Primitive::UnibyteCharToMultibyte => "Convert the byte CH to multibyte character."@,
            Primitive::MultibyteCharToUnibyte =>
                "Convert the multibyte character CH to a byte.\nIf the multibyte character does not represent a byte, return -1."@,
            Primitive::Floatp => "Return t if OBJECT is a floating point number.\n\n(fn OBJECT)"@,
            Primitive::Integerp => "Return t if OBJECT is an integer.\n\n(fn OBJECT)"@,
            Primitive::IntegerOrMarkerP =>
                "Return t if OBJECT is an integer or a marker (editor pointer).\n\n(fn OBJECT)"@,
            Primitive::Natnump => "Return t if OBJECT is a non-negative integer.\n\n(fn OBJECT)"@,
            Primitive::Numberp =>
                "Return t if OBJECT is a number (floating point or integer).\n\n(fn OBJECT)"@,
            Primitive::NumberOrMarkerP =>
                "Return t if OBJECT is a number or a marker (editor pointer).\n\n(fn OBJECT)"@,
        }
    }

    /// What applying the primitive to `args` gives.  The arguments beyond the
    /// first have no effect.
    pub open spec fn spec_call(self, args: Seq<LispObject>) -> Result<LispObject, LispError> {
        match self {
            Primitive::MaxChar => Ok(LispObject::Integer(MAX_CHAR)),
            Primitive::Characterp => Ok(LispObject::from_bool(is_character(args[0]))),
            Primitive::UnibyteCharToMultibyte => convert_unibyte_char_to_multibyte(args[0]),
            Primitive::MultibyteCharToUnibyte => convert_multibyte_char_to_unibyte(args[0]),
            Primitive::Floatp => Ok(LispObject::from_bool(is_float(args[0]))),
            Primitive::Integerp => Ok(LispObject::from_bool(is_integer(args[0]))),
            Primitive::IntegerOrMarkerP => Ok(LispObject::from_bool(is_integer_or_marker(args[0]))),
            Primitive::Natnump => Ok(LispObject::from_bool(is_non_negative_integer(args[0]))),
            Primitive::Numberp => Ok(LispObject::from_bool(is_number(args[0]))),
            Primitive::NumberOrMarkerP => Ok(LispObject::from_bool(is_number_or_marker(args[0]))),
        }
    }

    /// The symbol that names the primitive in Lisp.
    pub fn symbol_name(self) -> (s: &'static str)
        ensures
            s@ == self.spec_symbol_name(),
    {
        match self {
            Primitive::MaxChar => "max-char",
            Primitive::Characterp => "characterp",
            Primitive::UnibyteCharToMultibyte => "unibyte-char-to-multibyte",
            Primitive::MultibyteCharToUnibyte => "multibyte-char-to-unibyte",
            Primitive::Floatp => "floatp",
            Primitive::Integerp => "integerp",
            Primitive::IntegerOrMarkerP => "integer-or-marker-p",
            Primitive::Natnump => "natnump",
            Primitive::Numberp => "numberp",
            Primitive::NumberOrMarkerP => "number-or-marker-p",
        }
    }

    /// The least number of arguments that the primitive takes.
    pub fn min_args(self) -> (n: usize)
        ensures
            n == self.spec_min_args(),
    {
        match self {
            Primitive::MaxChar => 0,
            _ => 1,
        }
    }

    /// The greatest number of arguments that the primitive takes.
    pub fn max_args(self) -> (n: usize)
        ensures
            n == self.spec_max_args(),
    {
        match self {
            Primitive::MaxChar => 0,
            Primitive::Characterp => 2,
            _ => 1,
        }
    }

    /// The doc string of the primitive.
    pub fn doc(self) -> (s: &'static str)
        ensures
            s@ == self.spec_doc(),
    {
        match self {
            Primitive::MaxChar => "Return the character of the maximum code.",
            Primitive::Characterp =>
                "Return non-nil if OBJECT is a character.\nIn Emacs Lisp, characters are represented by character codes, which\nare non-negative integers.  The function `max-char' returns the\nmaximum character code.\nusage: (characterp OBJECT)",
            Primitive::UnibyteCharToMultibyte => "Convert the byte CH to multibyte character.",
            Primitive::MultibyteCharToUnibyte =>
                "Convert the multibyte character CH to a byte.\nIf the multibyte character does not represent a byte, return -1.",
            Primitive::Floatp => "Return t if OBJECT is a floating point number.\n\n(fn OBJECT)",
            Primitive::Integerp => "Return t if OBJECT is an integer.\n\n(fn OBJECT)",
            Primitive::IntegerOrMarkerP =>
                "Return t if OBJECT is an integer or a marker (editor pointer).\n\n(fn OBJECT)",
            Primitive::Natnump => "Return t if OBJECT is a non-negative integer.\n\n(fn OBJECT)",
            Primitive::Numberp =>
                "Return t if OBJECT is a number (floating point or integer).\n\n(fn OBJECT)",
            Primitive::NumberOrMarkerP =>
                "Return t if OBJECT is a number or a marker (editor pointer).\n\n(fn OBJECT)",
        }
    }

    /// Applies the primitive to `args`.  The caller has checked the number
    /// of arguments against [`Primitive::min_args`] and
    /// [`Primitive::max_args`].
    pub fn call(self, args: &[LispObject]) -> (r: Result<LispObject, LispError>)
        requires
            self.accepts(args@.len()),
        ensures
            r == self.spec_call(args@),
    {
        match self {
            Primitive::MaxChar => Ok(max_char()),
            Primitive::Characterp => {
                let ignore = if args.len() > 1 {
                    args[1]
                } else {
                    LispObject::constant_nil()
                };
                Ok(characterp(args[0], ignore))
            },
            Primitive::UnibyteCharToMultibyte => unibyte_char_to_multibyte(args[0]),
            Primitive::MultibyteCharToUnibyte => multibyte_char_to_unibyte(args[0]),
            Primitive::Floatp => Ok(Ffloatp(args[0])),
            Primitive::Integerp => Ok(Fintegerp(args[0])),
            Primitive::IntegerOrMarkerP => Ok(Finteger_or_marker_p(args[0])),
            Primitive::Natnump => Ok(Fnatnump(args[0])),
            Primitive::Numberp => Ok(Fnumberp(args[0])),
            Primitive::NumberOrMarkerP => Ok(Fnumber_or_marker_p(args[0])),
        }
    }

    /// Checks the number of arguments and applies the primitive to them.
    /// Gives `None`, and applies nothing, when the primitive does not take
    /// that many arguments.
    pub fn funcall(self, args: &[LispObject]) -> (r: Option<Result<LispObject, LispError>>)
        ensures
            self.accepts(args@.len()) ==> r == Some(self.spec_call(args@)),
            !self.accepts(args@.len()) ==> r.is_none(),
    {
        if self.min_args() <= args.len() && args.len() <= self.max_args() {
            Some(self.call(args))
        } else {
            None
        }
    }
}

} // verus!
