//! Characters of ISO8859-10 (Latin-6).

use vstd::prelude::*;

use crate::classes::{
    ascii_byte, control_byte, digit_in_radix, is_control_byte, is_digit_byte, is_numeric_byte,
    numeric_byte,
};
use crate::latin6_map::{
    decode_scalar, encode_scalar, lemma_encoded_decodes, DECODE_MAP, ENCODE_MAP, HI_MAP, NO_PAGE,
};
use crate::text::{char_debug, char_debug_text, hex, hex_text, single};

verus! {

/// Why a byte or a scalar value is not a valid [`IsoLatin6Char`].
#[derive(Debug, Clone, Copy, PartialEq, Eq, PartialOrd, Ord, Hash, Structural)]
pub enum IsoLatin6CharError {
    /// The byte lies in `0x80..=0x9F`, which the standard leaves undefined.
    Undefined,
    /// The byte or scalar value has no counterpart in ISO8859-10.
    Invalid,
}

/// A single ISO8859-10 character, held as its byte.
///
/// Every byte outside `0x80..=0x9F` is a character: the ASCII control codes, which the standard
/// leaves undefined, are accepted for convenience, as is common practice.
#[derive(Debug, Clone, Copy, PartialEq, Eq, PartialOrd, Ord, Hash, Default)]
pub struct IsoLatin6Char(u8);

impl View for IsoLatin6Char {
    type V = u8;

    closed spec fn view(&self) -> u8 {
        self.0
    }
}

impl IsoLatin6Char {
    #[verifier::type_invariant]
    spec fn inv(self) -> bool {
        decode_scalar(self.0) is Ok
    }

    /// The character held as a byte already known to decode.
    pub(crate) fn from_defined_byte(b: u8) -> (r: Self)
        requires
            decode_scalar(b) is Ok,
        ensures
            r@ == b,
    {
        IsoLatin6Char(b)
    }
}

/// `b` is an uppercase letter of ISO8859-10.
pub open spec fn uppercase6(b: u8) -> bool {
    (0x41 <= b && b <= 0x5A) || (0xA1 <= b && b <= 0xA6) || (0xA8 <= b && b <= 0xAC) || (0xAE
        <= b && b <= 0xAF) || (0xC0 <= b && b <= 0xDE)
}

/// `b` is a lowercase letter of ISO8859-10.
pub open spec fn lowercase6(b: u8) -> bool {
    (0x61 <= b && b <= 0x7A) || (0xB1 <= b && b <= 0xB6) || (0xB8 <= b && b <= 0xBC) || (0xBE
        <= b && b <= 0xBF) || (0xDF <= b)
}

/// `b` is a letter of ISO8859-10; all of them have case.
pub open spec fn alphabetic6(b: u8) -> bool {
    (0x41 <= b && b <= 0x5A) || (0x61 <= b && b <= 0x7A) || (0xA1 <= b && b <= 0xA6) || (0xA8
        <= b && b <= 0xAC) || (0xAE <= b && b <= 0xAF) || (0xB1 <= b && b <= 0xB6) || (0xB8 <= b
        && b <= 0xBC) || (0xBE <= b)
}

/// `b` is white space in ISO8859-10: tab, line feed, form feed, carriage return, space and the
/// non-breaking space.
pub open spec fn whitespace6(b: u8) -> bool {
    b == 0x09 || b == 0x0A || b == 0x0C || b == 0x0D || b == 0x20 || b == 0xA0
}

/// No byte is both an uppercase and a lowercase letter, and the letters are exactly the bytes
/// with case.
pub proof fn lemma_case_classes6(b: u8)
    ensures
        !(uppercase6(b) && lowercase6(b)),
        alphabetic6(b) == (uppercase6(b) || lowercase6(b)),
{
}

impl IsoLatin6Char {
    /// Returns `true` if this character is a letter.
    pub fn is_alphabetic(&self) -> (r: bool)
        ensures
            r == alphabetic6(self@),
    {
        let b = self.0;
        (0x41 <= b && b <= 0x5A) || (0x61 <= b && b <= 0x7A) || (0xA1 <= b && b <= 0xA6) || (0xA8
            <= b && b <= 0xAC) || (0xAE <= b && b <= 0xAF) || (0xB1 <= b && b <= 0xB6) || (0xB8
            <= b && b <= 0xBC) || (0xBE <= b)
    }

    /// Returns `true` if this character is a letter or a digit.
    pub fn is_alphanumeric(&self) -> (r: bool)
        ensures
            r == (alphabetic6(self@) || numeric_byte(self@)),
    {
        self.is_alphabetic() || self.is_numeric()
    }

    /// Returns `true` if this character is an ASCII control code.
    pub fn is_control(&self) -> (r: bool)
        ensures
            r == control_byte(self@),
    {
        is_control_byte(self.0)
    }

    /// Checks whether this character is a digit in base `radix`: `0-9`, then `a-z` or `A-Z`
    /// for the values from 10 on. The radix may be at most 36.
    pub fn is_digit(&self, radix: u8) -> (r: bool)
        requires
            radix <= 36,
        ensures
            r == digit_in_radix(self@, radix),
    {
        is_digit_byte(self.0, radix)
    }

    /// Returns `true` if this character is a decimal digit.
    pub fn is_numeric(&self) -> (r: bool)
        ensures
            r == numeric_byte(self@),
    {
        is_numeric_byte(self.0)
    }

    /// Returns `true` if this character is white space.
    pub fn is_whitespace(&self) -> (r: bool)
        ensures
            r == whitespace6(self@),
    {
        let b = self.0;
        b == 0x09 || b == 0x0A || b == 0x0C || b == 0x0D || b == 0x20 || b == 0xA0
    }

    /// Returns `true` if this character is a lowercase letter.
    pub fn is_lowercase(&self) -> (r: bool)
        ensures
            r == lowercase6(self@),
    {
        let b = self.0;
        (0x61 <= b && b <= 0x7A) || (0xB1 <= b && b <= 0xB6) || (0xB8 <= b && b <= 0xBC) || (0xBE
            <= b && b <= 0xBF) || (0xDF <= b)
    }

    /// Returns `true` if this character is an uppercase letter.
    pub fn is_uppercase(&self) -> (r: bool)
        ensures
            r == uppercase6(self@),
    {
        let b = self.0;
        (0x41 <= b && b <= 0x5A) || (0xA1 <= b && b <= 0xA6) || (0xA8 <= b && b <= 0xAC) || (0xAE
            <= b && b <= 0xAF) || (0xC0 <= b && b <= 0xDE)
    }

    /// Checks if the value is within the ASCII range.
    pub fn is_ascii(&self) -> (r: bool)
        ensures
            r == ascii_byte(self@),
    {
        self.0 <= 0x7F
    }
}

impl IsoLatin6Char {
    /// The text this character displays as: the one character it stands for.
    pub fn to_display_string(&self) -> (r: String)
        ensures
            r@.len() == 1,
            r@[0] as u32 == scalar_of6(self@),
    {
        proof {
            use_type_invariant(self);
        }
        single(map_byte_to_char_unchecked(self.0))
    }

    /// The text this character shows when debugged: the character it stands for, quoted and
    /// escaped as `char`'s `Debug` does it.
    pub fn to_debug_string(&self) -> (r: String)
        ensures
            r@ == char_debug_text(scalar_of6(self@) as char),
    {
        proof {
            use_type_invariant(self);
        }
        char_debug(map_byte_to_char_unchecked(self.0))
    }

    /// The byte in lowercase hexadecimal, as `{:x}` writes a `u8`.
    pub fn to_lower_hex(&self) -> (r: String)
        ensures
            r@ == hex_text(self@, false),
    {
        hex(self.0, false)
    }

    /// The byte in uppercase hexadecimal, as `{:X}` writes a `u8`.
    pub fn to_upper_hex(&self) -> (r: String)
        ensures
            r@ == hex_text(self@, true),
    {
        hex(self.0, true)
    }
}

impl TryFrom<u8> for IsoLatin6Char {
    type Error = IsoLatin6CharError;

    fn try_from(byte: u8) -> (r: Result<Self, Self::Error>)
        ensures
            r == byte_to_char6(byte),
            r is Err <==> 0x80 <= byte && byte <= 0x9F,
            r matches Ok(c) ==> c@ == byte,
    {
        if 0x80 <= byte && byte <= 0x9F {
            Err(IsoLatin6CharError::Undefined)
        } else {
            Ok(IsoLatin6Char(byte))
        }
    }
}

impl vstd::std_specs::convert::TryFromSpecImpl<u8> for IsoLatin6Char {
    open spec fn obeys_try_from_spec() -> bool {
        true
    }

    open spec fn try_from_spec(v: u8) -> Result<Self, IsoLatin6CharError> {
        byte_to_char6(v)
    }
}

impl From<IsoLatin6Char> for u8 {
    fn from(char: IsoLatin6Char) -> (r: u8)
        ensures
            r == char@,
    {
        char.0
    }
}

impl vstd::std_specs::convert::FromSpecImpl<IsoLatin6Char> for u8 {
    open spec fn obeys_from_spec() -> bool {
        true
    }

    open spec fn from_spec(v: IsoLatin6Char) -> u8 {
        v@
    }
}

impl TryFrom<char> for IsoLatin6Char {
    type Error = IsoLatin6CharError;

    fn try_from(char: char) -> (r: Result<Self, Self::Error>)
        ensures
            r == scalar_to_char6(char as u32),
            r is Ok <==> encode_scalar(char as u32) is Ok,
            r matches Ok(c) ==> encode_scalar(char as u32) == Ok::<u8, IsoLatin6CharError>(c@),
            r matches Err(e) ==> encode_scalar(char as u32) == Err::<u8, IsoLatin6CharError>(e),
    {
        match map_char_to_byte(char) {
            Ok(byte) => {
                proof {
                    lemma_encoded_decodes(char as u32);
                }
                Ok(IsoLatin6Char(byte))
            },
            Err(e) => Err(e),
        }
    }
}

impl vstd::std_specs::convert::TryFromSpecImpl<char> for IsoLatin6Char {
    open spec fn obeys_try_from_spec() -> bool {
        true
    }

    open spec fn try_from_spec(v: char) -> Result<Self, IsoLatin6CharError> {
        scalar_to_char6(v as u32)
    }
}

/// The character that encodes scalar value `c`, or why there is none.
pub open spec fn scalar_to_char6(c: u32) -> Result<IsoLatin6Char, IsoLatin6CharError> {
    match encode_scalar(c) {
        Ok(b) => Ok(char_of_byte6(b)),
        Err(e) => Err(e),
    }
}

impl From<IsoLatin6Char> for char {
    fn from(char: IsoLatin6Char) -> (r: char)
        ensures
            decode_scalar(char@) == Ok::<u32, IsoLatin6CharError>(r as u32),
    {
        proof {
            use_type_invariant(char);
        }
        map_byte_to_char_unchecked(char.0)
    }
}

impl vstd::std_specs::convert::FromSpecImpl<IsoLatin6Char> for char {
    open spec fn obeys_from_spec() -> bool {
        true
    }

    open spec fn from_spec(v: IsoLatin6Char) -> char {
        scalar_of6(v@) as char
    }
}

/// The scalar value that byte `b` stands for, where it stands for one.
pub open spec fn scalar_of6(b: u8) -> u32 {
    match decode_scalar(b) {
        Ok(c) => c,
        Err(_) => 0,
    }
}

/// The character that byte `b` is, or why it is none.
pub open spec fn byte_to_char6(b: u8) -> Result<IsoLatin6Char, IsoLatin6CharError> {
    if 0x80 <= b && b <= 0x9F {
        Err(IsoLatin6CharError::Undefined)
    } else {
        Ok(char_of_byte6(b))
    }
}

/// The character held as byte `b`.
pub closed spec fn char_of_byte6(b: u8) -> IsoLatin6Char {
    IsoLatin6Char(b)
}

/// Relies on `char::from_u32`: it returns the character whose scalar value is `v`, and `None`
/// exactly when `v` is a surrogate or lies past `0x10FFFF`.
#[verifier::external_body]
fn char_from_u32(v: u32) -> (r: Option<char>)
    ensures
        r is Some <==> (v < 0xD800 || (0xE000 <= v && v <= 0x10FFFF)),
        r matches Some(c) ==> c as u32 == v,
{
    char::from_u32(v)
}

/// The decoded result with each character taken as its scalar value.
pub open spec fn scalar_result(r: Result<char, IsoLatin6CharError>) -> Result<
    u32,
    IsoLatin6CharError,
> {
    match r {
        Ok(c) => Ok(c as u32),
        Err(e) => Err(e),
    }
}

/// Decodes one byte into the character it stands for in ISO8859-10.
pub fn map_byte_to_char(byte: u8) -> (r: Result<char, IsoLatin6CharError>)
    ensures
        scalar_result(r) == decode_scalar(byte),
{
    if byte <= 0x7F {
        Ok(byte as char)
    } else if byte <= 0x9F {
        Err(IsoLatin6CharError::Undefined)
    } else {
        let v = DECODE_MAP[(byte - 0xA0) as usize];
        if v == 0 {
            Err(IsoLatin6CharError::Invalid)
        } else {
            match char_from_u32(v as u32) {
                Some(c) => Ok(c),
                None => Err(IsoLatin6CharError::Invalid),
            }
        }
    }
}

/// Decodes a byte already known to lie outside `0x80..=0x9F`, the only bytes with no character.
pub(crate) fn map_byte_to_char_unchecked(byte: u8) -> (r: char)
    requires
        !(0x80 <= byte && byte <= 0x9F),
    ensures
        decode_scalar(byte) == Ok::<u32, IsoLatin6CharError>(r as u32),
{
    if byte <= 0x7F {
        byte as char
    } else {
        let v = DECODE_MAP[(byte - 0xA0) as usize];
        match char_from_u32(v as u32) {
            Some(c) => c,
            None => {
                assert(false);
                '\0'
            }
        }
    }
}

/// Encodes a character as its ISO8859-10 byte, through the two-level table for everything past
/// ASCII.
pub fn map_char_to_byte(ch: char) -> (r: Result<u8, IsoLatin6CharError>)
    ensures
        r == encode_scalar(ch as u32),
{
    let c = ch as u32;
    if c <= 0x7F {
        Ok(c as u8)
    } else if c <= 0x9F || c > 0xFFFF {
        Err(IsoLatin6CharError::Invalid)
    } else {
        let hi = (c / 256) as usize;
        let lo = (c % 256) as usize;
        if hi >= HI_MAP.len() {
            return Err(IsoLatin6CharError::Invalid);
        }
        let page = HI_MAP[hi];
        if page == NO_PAGE {
            return Err(IsoLatin6CharError::Invalid);
        }
        let code = ENCODE_MAP[page as usize * 256 + lo];
        if code != 0 {
            Ok(code)
        } else {
            Err(IsoLatin6CharError::Invalid)
        }
    }
}

} // verus!
