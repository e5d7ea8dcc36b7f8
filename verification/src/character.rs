//! Characters: which values are characters, and how a character passes
//! between its unibyte form (a raw byte, 0 to 255) and its multibyte form (a
//! character code, 0 to [`MAX_CHAR`]).
//!
//! The multibyte form of an ASCII byte is the byte itself.  The multibyte
//! form of a byte from 128 to 255 is one of the 128 codes at the top of the
//! character space, which stand for raw eight-bit bytes.
use vstd::prelude::*;
use vstd::arithmetic::power2::{lemma2_to64, pow2};
use crate::error::{ExpectedType, LispError};
use crate::lisp::{make_number, CHECK_TYPE, EmacsInt, LispObject, NATNUMP, XFASTINT};

verus! {

/// The number of bits that hold any character code.
pub const CHARACTERBITS: u32 = 22;

/// Maximum character code: two to the power of [`CHARACTERBITS`], less one.
pub const MAX_CHAR: EmacsInt = 0x3FFFFF;

/// The greatest code of a character that does not stand for a raw eight-bit
/// byte.  The codes above it, up to [`MAX_CHAR`], stand for the bytes from
/// 128 to 255.
pub const MAX_5_BYTE_CHAR: EmacsInt = 0x3FFF7F;

/// What is added to a byte from 128 to 255 to give the code of the character
/// that stands for it.
pub const BYTE8_OFFSET: EmacsInt = 0x3FFF00;

/// The maximum character code, as the number of character bits defines it.
pub open spec fn max_character_code() -> int {
    pow2(CHARACTERBITS as nat) - 1
}

/// Whether `v` is a character: an integer that is not negative and does not
/// exceed [`MAX_CHAR`].
pub open spec fn is_character(v: LispObject) -> bool {
    v matches LispObject::Integer(n) && 0 <= n <= MAX_CHAR
}

/// The code of `v` if `v` is a character, and otherwise the wrong-type error
/// that expects a character and carries `v`.
pub open spec fn require_character(v: LispObject) -> Result<EmacsInt, LispError> {
    if is_character(v) {
        Ok(v->Integer_0)
    } else {
        Err(LispError::WrongType(ExpectedType::Character, v))
    }
}

/// Whether `c` is the code of an ASCII character.
pub open spec fn is_ascii_char(c: int) -> bool {
    0 <= c < 0x80
}

/// Whether `c` is the code of a character that stands for a raw eight-bit
/// byte.
pub open spec fn is_byte8_char(c: int) -> bool {
    MAX_5_BYTE_CHAR < c <= MAX_CHAR
}

/// The multibyte form of the byte `byte`: the byte itself if it is ASCII, and
/// otherwise the character that stands for the raw byte.
pub open spec fn unibyte_to_multibyte(byte: int) -> int {
    if is_ascii_char(byte) {
        byte
    } else {
        byte + BYTE8_OFFSET
    }
}

/// The byte whose multibyte form is the character `c`, or -1 if there is no
/// such byte.
pub open spec fn char_to_byte_safe(c: int) -> int {
    if is_ascii_char(c) {
        c
    } else if is_byte8_char(c) {
        c - BYTE8_OFFSET
    } else {
        -1
    }
}

/// What converting the unibyte character `ch` to multibyte gives.
///
/// A value that is not a character is a wrong-type error; a character of 256
/// or more is a range error; a byte gives its multibyte form, as an integer.
pub open spec fn convert_unibyte_char_to_multibyte(ch: LispObject) -> Result<
    LispObject,
    LispError,
> {
    match require_character(ch) {
        Err(e) => Err(e),
        Ok(c) => if c >= 0x100 {
            Err(LispError::RangeError(c))
        } else {
            Ok(LispObject::Integer(unibyte_to_multibyte(c as int) as EmacsInt))
        },
    }
}

/// What converting the multibyte character `ch` to unibyte gives.
///
/// A value that is not a character is a wrong-type error; a character below
/// 256 is returned as it is; any other character gives the byte that it
/// stands for, or -1 if it stands for none.
pub open spec fn convert_multibyte_char_to_unibyte(ch: LispObject) -> Result<
    LispObject,
    LispError,
> {
    match require_character(ch) {
        Err(e) => Err(e),
        Ok(c) => if c < 256 {
            Ok(ch)
        } else {
            Ok(LispObject::Integer(char_to_byte_safe(c as int) as EmacsInt))
        },
    }
}

/// The maximum character code is two to the power of the number of character
/// bits, less one.
pub proof fn lemma_max_char()
    ensures
        MAX_CHAR == max_character_code(),
        MAX_CHAR == pow2(CHARACTERBITS as nat) - 1,
{
    lemma2_to64();
}

/// Return the character of the maximum code.
pub fn max_char() -> (r: LispObject)
    ensures
        r == LispObject::Integer(MAX_CHAR),
        r == LispObject::Integer(max_character_code() as EmacsInt),
{
    proof {
        lemma_max_char();
    }
    make_number(MAX_CHAR)
}

/// True iff `x` is a character.
pub fn CHARACTERP(x: LispObject) -> (r: bool)
    ensures
        r == is_character(x),
{
    NATNUMP(x) && XFASTINT(x) <= MAX_CHAR
}

/// Checks that `x` is a character and gives its code.  Fails with a
/// wrong-type error that expects a character and carries `x` if it is not.
pub fn CHECK_CHARACTER(x: LispObject) -> (r: Result<EmacsInt, LispError>)
    ensures
        r == require_character(x),
{
    match CHECK_TYPE(CHARACTERP(x), ExpectedType::Character, x) {
        Ok(()) => Ok(XFASTINT(x)),
        Err(e) => Err(e),
    }
}

/// The multibyte form of the byte `byte`.
pub fn UNIBYTE_TO_CHAR(byte: EmacsInt) -> (c: EmacsInt)
    requires
        0 <= byte < 256,
    ensures
        c == unibyte_to_multibyte(byte as int),
{
    if byte < 0x80 {
        byte
    } else {
        byte + BYTE8_OFFSET
    }
}

/// The byte that the character `c` stands for, or -1 if it stands for none.
/// A code outside the character space stands for none.
pub fn CHAR_TO_BYTE_SAFE(c: EmacsInt) -> (byte: EmacsInt)
    ensures
        byte == char_to_byte_safe(c as int),
{
    if MAX_5_BYTE_CHAR < c && c <= MAX_CHAR {
        c - BYTE8_OFFSET
    } else if 0 <= c && c < 0x80 {
        c
    } else {
        -1
    }
}

/// If `c` is not ASCII, make it multibyte.  The argument is a byte: it must
/// be below 256.
pub fn MAKE_CHAR_MULTIBYTE(c: EmacsInt) -> (r: EmacsInt)
    requires
        0 <= c < 256,
    ensures
        r == unibyte_to_multibyte(c as int),
{
    UNIBYTE_TO_CHAR(c)
}

/// Return non-nil if `object` is a character.
///
/// Characters are represented by character codes, which are non-negative
/// integers.  The function [`max_char`] returns the maximum character code.
/// The second argument is accepted and has no effect.
pub fn characterp(object: LispObject, _ignore: LispObject) -> (r: LispObject)
    ensures
        r == LispObject::from_bool(is_character(object)),
{
    if CHARACTERP(object) {
        LispObject::constant_t()
    } else {
        LispObject::constant_nil()
    }
}

/// Convert the byte `ch` to multibyte character.
pub fn unibyte_char_to_multibyte(ch: LispObject) -> (r: Result<LispObject, LispError>)
    ensures
        r == convert_unibyte_char_to_multibyte(ch),
{
    let c = match CHECK_CHARACTER(ch) {
        Ok(c) => c,
        Err(e) => {
            return Err(e);
        },
    };
    if c >= 0x100 {
        return Err(LispError::RangeError(c));
    }
    let c = MAKE_CHAR_MULTIBYTE(c);
    Ok(make_number(c))
}

/// Convert the multibyte character `ch` to a byte.  If the multibyte
/// character does not represent a byte, return -1.
pub fn multibyte_char_to_unibyte(ch: LispObject) -> (r: Result<LispObject, LispError>)
    ensures
        r == convert_multibyte_char_to_unibyte(ch),
{
    let cm = match CHECK_CHARACTER(ch) {
        Ok(c) => c,
        Err(e) => {
            return Err(e);
        },
    };
    if cm < 256 {
        // A byte read from a unibyte buffer cannot be told from a Latin-1
        // character, so the value passes through.
        Ok(ch)
    } else {
        let cu = CHAR_TO_BYTE_SAFE(cm);
        Ok(make_number(cu))
    }
}

/// An integer is a character exactly when it lies between zero and the
/// maximum character code: each integer in that range is a character, and
/// the integer just above the maximum is not.
pub proof fn lemma_character_range(n: EmacsInt)
    ensures
        is_character(LispObject::Integer(n)) <==> 0 <= n <= max_character_code(),
        n == max_character_code() + 1 ==> !is_character(LispObject::Integer(n)),
{
    lemma_max_char();
}

/// The multibyte form of a byte is a character code, and the byte that this
/// character stands for is the byte again.  ASCII bytes keep their value;
/// the bytes from 128 to 255 land among the raw-byte characters.
pub proof fn lemma_byte_mapping(b: int)
    requires
        0 <= b <= 255,
    ensures
        0 <= unibyte_to_multibyte(b) <= MAX_CHAR,
        char_to_byte_safe(unibyte_to_multibyte(b)) == b,
        is_ascii_char(b) ==> unibyte_to_multibyte(b) == b,
        !is_ascii_char(b) ==> is_byte8_char(unibyte_to_multibyte(b)),
{
}

/// A code stands for a byte exactly when it is the multibyte form of some
/// byte, and then it is the multibyte form of the byte it stands for.  For
/// every other code the answer is -1, which is no byte.
pub proof fn lemma_char_mapping(c: int)
    ensures
        -1 <= char_to_byte_safe(c) <= 255,
        char_to_byte_safe(c) != -1 ==> unibyte_to_multibyte(char_to_byte_safe(c)) == c,
        char_to_byte_safe(c) != -1 <==> exists|b: int|
            0 <= b <= 255 && #[trigger] unibyte_to_multibyte(b) == c,
{
    if char_to_byte_safe(c) != -1 {
        let b = char_to_byte_safe(c);
        assert(0 <= b <= 255 && unibyte_to_multibyte(b) == c);
    }
}

/// Converting a byte to multibyte always succeeds and gives a character.
pub proof fn lemma_unibyte_to_multibyte_of_byte(b: EmacsInt)
    requires
        0 <= b <= 255,
    ensures
        convert_unibyte_char_to_multibyte(LispObject::Integer(b)) matches Ok(m) && is_character(m),
{
}

/// Converting a character of 256 or more to multibyte fails with the range
/// error that carries its code.
pub proof fn lemma_unibyte_to_multibyte_range_error(b: EmacsInt)
    requires
        256 <= b <= MAX_CHAR,
    ensures
        convert_unibyte_char_to_multibyte(LispObject::Integer(b)) == Err::<LispObject, LispError>(
            LispError::RangeError(b),
        ),
{
}

/// Converting a character below 256 to unibyte gives the character itself.
pub proof fn lemma_multibyte_to_unibyte_below_256(c: EmacsInt)
    requires
        0 <= c < 256,
    ensures
        convert_multibyte_char_to_unibyte(LispObject::Integer(c)) == Ok::<LispObject, LispError>(
            LispObject::Integer(c),
        ),
{
}

/// Converting any character to unibyte succeeds.  The result is an integer
/// from 0 to 255, or else -1 for a character that stands for no byte.
pub proof fn lemma_multibyte_to_unibyte_total(c: LispObject)
    requires
        is_character(c),
    ensures
        convert_multibyte_char_to_unibyte(c) matches Ok(LispObject::Integer(b)) && -1 <= b <= 255,
{
}

/// On a value that is not a character, each operation that asks for a
/// character fails with the wrong-type error that expects a character and
/// carries that value.
pub proof fn lemma_non_character_is_wrong_type(v: LispObject)
    requires
        !is_character(v),
    ensures
        require_character(v) == Err::<EmacsInt, LispError>(
            LispError::WrongType(ExpectedType::Character, v),
        ),
        convert_unibyte_char_to_multibyte(v) == Err::<LispObject, LispError>(
            LispError::WrongType(ExpectedType::Character, v),
        ),
        convert_multibyte_char_to_unibyte(v) == Err::<LispObject, LispError>(
            LispError::WrongType(ExpectedType::Character, v),
        ),
{
}

/// Round trip: converting a byte to multibyte and the result back to unibyte
/// gives the byte again.  The multibyte form of every byte stands for a
/// byte, so this holds of all 256 bytes.
pub proof fn lemma_round_trip(b: EmacsInt)
    requires
        0 <= b <= 255,
    ensures
        convert_unibyte_char_to_multibyte(LispObject::Integer(b)) matches Ok(m)
            && convert_multibyte_char_to_unibyte(m) == Ok::<LispObject, LispError>(
            LispObject::Integer(b),
        ),
{
}

} // verus!
