//! Characters and strings of ISO8859-1 (Latin-1).

use vstd::prelude::*;

use crate::classes::{
    ascii_byte, control_byte, digit_in_radix, is_control_byte, is_digit_byte, is_numeric_byte,
    numeric_byte,
};
use crate::text::{char_debug, char_debug_text, hex, hex_text, push_char, single};

verus! {

/// Why a byte or a scalar value is not a valid [`IsoLatin1Char`].
#[derive(Debug, Clone, Copy, PartialEq, Eq, PartialOrd, Ord, Hash, Structural)]
pub enum IsoLatin1CharError {
    /// The byte lies in `0x80..=0x9F`, which the standard leaves undefined.
    Undefined,
    /// The byte or scalar value has no counterpart in ISO8859-1.
    Invalid,
}

/// `b` is a character of ISO8859-1: every byte outside `0x80..=0x9F`.
pub open spec fn defined1(b: u8) -> bool {
    !(0x80 <= b && b <= 0x9F)
}

/// The scalar value that byte `b` stands for in ISO8859-1: the byte itself, where defined.
pub open spec fn decode1(b: u8) -> Result<u32, IsoLatin1CharError> {
    if defined1(b) {
        Ok(b as u32)
    } else {
        Err(IsoLatin1CharError::Undefined)
    }
}

/// The byte that encodes scalar value `c` in ISO8859-1.
pub open spec fn encode1(c: u32) -> Result<u8, IsoLatin1CharError> {
    if c <= 0x7F || (0xA0 <= c && c <= 0xFF) {
        Ok(c as u8)
    } else {
        Err(IsoLatin1CharError::Invalid)
    }
}

/// Every byte that decodes encodes back to itself.
pub proof fn lemma_round_trip1(b: u8)
    ensures
        decode1(b) matches Ok(c) ==> encode1(c) == Ok::<u8, IsoLatin1CharError>(b),
{
}

/// Every scalar value that encodes decodes back from its byte.
pub proof fn lemma_encoded_decodes1(c: u32)
    ensures
        encode1(c) matches Ok(b) ==> decode1(b) == Ok::<u32, IsoLatin1CharError>(c),
{
}

/// A byte fails to decode exactly when it lies in `0x80..=0x9F`, and then as undefined.
pub proof fn lemma_decode_defined1(b: u8)
    ensures
        decode1(b) is Err <==> 0x80 <= b && b <= 0x9F,
        0x80 <= b && b <= 0x9F ==> decode1(b) == Err::<u32, IsoLatin1CharError>(
            IsoLatin1CharError::Undefined,
        ),
{
}

/// `b` is an uppercase letter of ISO8859-1.
pub open spec fn uppercase1(b: u8) -> bool {
    (0x41 <= b && b <= 0x5A) || (0xC0 <= b && b <= 0xD6) || (0xD8 <= b && b <= 0xDE)
}

/// `b` is a lowercase letter of ISO8859-1, the ordinal indicators `ª` and `º` included.
pub open spec fn lowercase1(b: u8) -> bool {
    (0x61 <= b && b <= 0x7A) || b == 0xAA || b == 0xB5 || b == 0xBA || (0xDF <= b && b <= 0xF6)
        || (0xF8 <= b)
}

/// `b` is a letter of ISO8859-1; all of them have case.
pub open spec fn alphabetic1(b: u8) -> bool {
    (0x41 <= b && b <= 0x5A) || (0x61 <= b && b <= 0x7A) || b == 0xAA || b == 0xB5 || b == 0xBA
        || (0xC0 <= b && b <= 0xD6) || (0xD8 <= b && b <= 0xF6) || (0xF8 <= b)
}

/// `b` is white space in ISO8859-1: tab, line feed, form feed, carriage return, space and the
/// non-breaking space.
pub open spec fn whitespace1(b: u8) -> bool {
    b == 0x09 || b == 0x0A || b == 0x0C || b == 0x0D || b == 0x20 || b == 0xA0
}

/// No byte is both an uppercase and a lowercase letter, and the letters are exactly the bytes
/// with case.
pub proof fn lemma_case_classes1(b: u8)
    ensures
        !(uppercase1(b) && lowercase1(b)),
        alphabetic1(b) == (uppercase1(b) || lowercase1(b)),
{
}

/// A single ISO8859-1 character, held as its byte.
///
/// Every byte outside `0x80..=0x9F` is a character: the ASCII control codes, which the standard
/// leaves undefined, are accepted for convenience, as is common practice.
#[derive(Debug, Clone, Copy, PartialEq, Eq, PartialOrd, Ord, Hash, Default)]
pub struct IsoLatin1Char(u8);

impl View for IsoLatin1Char {
    type V = u8;

    closed spec fn view(&self) -> u8 {
        self.0
    }
}

impl IsoLatin1Char {
    #[verifier::type_invariant]
    spec fn inv(self) -> bool {
        defined1(self.0)
    }

    /// Returns `true` if this character is a letter.
    pub fn is_alphabetic(&self) -> (r: bool)
        ensures
            r == alphabetic1(self@),
    {
        let b = self.0;
        (0x41 <= b && b <= 0x5A) || (0x61 <= b && b <= 0x7A) || b == 0xAA || b == 0xB5 || b
            == 0xBA || (0xC0 <= b && b <= 0xD6) || (0xD8 <= b && b <= 0xF6) || (0xF8 <= b)
    }

    /// Returns `true` if this character is a letter or a digit.
    pub fn is_alphanumeric(&self) -> (r: bool)
        ensures
            r == (alphabetic1(self@) || numeric_byte(self@)),
    {
        self.is_alphabetic() || self.is_numeric()
    }

    /// Returns `true` if this character is an ASCII control code.
    pub fn is_control(&self) -> (r: bool)
        ensures
            r == control_byte(self@),
    {
        is_control_byte(self.0)
    }

    /// Checks whether this character is a digit in base `radix`: `0-9`, then `a-z` or `A-Z`
    /// for the values from 10 on. The radix may be at most 36.
    pub fn is_digit(&self, radix: u8) -> (r: bool)
        requires
            radix <= 36,
        ensures
            r == digit_in_radix(self@, radix),
    {
        is_digit_byte(self.0, radix)
    }

    /// Returns `true` if this character is a decimal digit.
    pub fn is_numeric(&self) -> (r: bool)
        ensures
            r == numeric_byte(self@),
    {
        is_numeric_byte(self.0)
    }

    /// Returns `true` if this character is white space.
    pub fn is_whitespace(&self) -> (r: bool)
        ensures
            r == whitespace1(self@),
    {
        let b = self.0;
        b == 0x09 || b == 0x0A || b == 0x0C || b == 0x0D || b == 0x20 || b == 0xA0
    }

    /// Returns `true` if this character is a lowercase letter.
    pub fn is_lowercase(&self) -> (r: bool)
        ensures
            r == lowercase1(self@),
    {
        let b = self.0;
        (0x61 <= b && b <= 0x7A) || b == 0xAA || b == 0xB5 || b == 0xBA || (0xDF <= b && b
            <= 0xF6) || (0xF8 <= b)
    }

    /// Returns `true` if this character is an uppercase letter.
    pub fn is_uppercase(&self) -> (r: bool)
        ensures
            r == uppercase1(self@),
    {
        let b = self.0;
        (0x41 <= b && b <= 0x5A) || (0xC0 <= b && b <= 0xD6) || (0xD8 <= b && b <= 0xDE)
    }

    /// Checks if the value is within the ASCII range.
    pub fn is_ascii(&self) -> (r: bool)
        ensures
            r == ascii_byte(self@),
    {
        self.0 <= 0x7F
    }

    /// The text this character displays as: the one character it stands for.
    pub fn to_display_string(&self) -> (r: String)
        ensures
            r@.len() == 1,
            r@[0] as u32 == self@ as u32,
    {
        single(self.0 as char)
    }

    /// The text this character shows when debugged: the character it stands for, quoted and
    /// escaped as `char`'s `Debug` does it.
    pub fn to_debug_string(&self) -> (r: String)
        ensures
            r@ == char_debug_text(self@ as char),
    {
        char_debug(self.0 as char)
    }

    /// The byte in lowercase hexadecimal, as `{:x}` writes a `u8`.
    pub fn to_lower_hex(&self) -> (r: String)
        ensures
            r@ == hex_text(self@, false),
    {
        hex(self.0, false)
    }

    /// The byte in uppercase hexadecimal, as `{:X}` writes a `u8`.
    pub fn to_upper_hex(&self) -> (r: String)
        ensures
            r@ == hex_text(self@, true),
    {
        hex(self.0, true)
    }
}

/// The character held as byte `b`.
pub closed spec fn char_of_byte1(b: u8) -> IsoLatin1Char {
    IsoLatin1Char(b)
}

/// The character that byte `b` is, or why it is none.
pub open spec fn byte_to_char1(b: u8) -> Result<IsoLatin1Char, IsoLatin1CharError> {
    match decode1(b) {
        Ok(_) => Ok(char_of_byte1(b)),
        Err(e) => Err(e),
    }
}

/// The character that encodes scalar value `c`, or why there is none.
pub open spec fn scalar_to_char1(c: u32) -> Result<IsoLatin1Char, IsoLatin1CharError> {
    match encode1(c) {
        Ok(b) => Ok(char_of_byte1(b)),
        Err(e) => Err(e),
    }
}

impl TryFrom<u8> for IsoLatin1Char {
    type Error = IsoLatin1CharError;

    fn try_from(byte: u8) -> (r: Result<Self, Self::Error>)
        ensures
            r == byte_to_char1(byte),
            r is Err <==> 0x80 <= byte && byte <= 0x9F,
            r matches Ok(c) ==> c@ == byte,
    {
        if 0x80 <= byte && byte <= 0x9F {
            Err(IsoLatin1CharError::Undefined)
        } else {
            Ok(IsoLatin1Char(byte))
        }
    }
}

impl vstd::std_specs::convert::TryFromSpecImpl<u8> for IsoLatin1Char {
    open spec fn obeys_try_from_spec() -> bool {
        true
    }

    open spec fn try_from_spec(v: u8) -> Result<Self, IsoLatin1CharError> {
        byte_to_char1(v)
    }
}

impl From<IsoLatin1Char> for u8 {
    fn from(char: IsoLatin1Char) -> (r: u8)
        ensures
            r == char@,
    {
        char.0
    }
}

impl vstd::std_specs::convert::FromSpecImpl<IsoLatin1Char> for u8 {
    open spec fn obeys_from_spec() -> bool {
        true
    }

    open spec fn from_spec(v: IsoLatin1Char) -> u8 {
        v@
    }
}

impl TryFrom<char> for IsoLatin1Char {
    type Error = IsoLatin1CharError;

    fn try_from(char: char) -> (r: Result<Self, Self::Error>)
        ensures
            r == scalar_to_char1(char as u32),
            r is Ok <==> encode1(char as u32) is Ok,
            r matches Ok(c) ==> c@ as u32 == char as u32,
    {
        let c = char as u32;
        if c <= 0x7F || (0xA0 <= c && c <= 0xFF) {
            Ok(IsoLatin1Char(c as u8))
        } else {
            Err(IsoLatin1CharError::Invalid)
        }
    }
}

impl vstd::std_specs::convert::TryFromSpecImpl<char> for IsoLatin1Char {
    open spec fn obeys_try_from_spec() -> bool {
        true
    }

    open spec fn try_from_spec(v: char) -> Result<Self, IsoLatin1CharError> {
        scalar_to_char1(v as u32)
    }
}

impl From<IsoLatin1Char> for char {
    fn from(char: IsoLatin1Char) -> (r: char)
        ensures
            r as u32 == char@ as u32,
    {
        char.0 as char
    }
}

impl vstd::std_specs::convert::FromSpecImpl<IsoLatin1Char> for char {
    open spec fn obeys_from_spec() -> bool {
        true
    }

    open spec fn from_spec(v: IsoLatin1Char) -> char {
        v@ as char
    }
}

/// Every byte of `s` is a character of ISO8859-1.
pub open spec fn all_defined1(s: Seq<u8>) -> bool {
    forall|i: int| 0 <= i < s.len() ==> defined1(#[trigger] s[i])
}

/// The text of a string of ISO8859-1: each byte is the scalar value of its character.
pub open spec fn text1(s: Seq<u8>) -> Seq<char> {
    s.map_values(|b: u8| b as char)
}

/// `n` is where the first byte of `s` that is no character stands, or the length of `s` where
/// every byte is one.
pub open spec fn valid_prefix1(s: Seq<u8>, n: int) -> bool {
    &&& 0 <= n <= s.len()
    &&& all_defined1(s.subrange(0, n))
    &&& n < s.len() ==> !defined1(s[n])
}

/// An ISO8859-1 encoded, growable string: every byte it holds is a character.
///
/// Beside the bytes it records, as ghost state, the capacity of the vector that holds them;
/// only the functions that call into `Vec` and say how they change it set that record.
pub struct IsoLatin1String {
    bytes: Vec<u8>,
    cap: Ghost<nat>,
}

/// Relies on `Vec::new`, which allocates nothing: its capacity is 0.
#[verifier::external_body]
fn buffer_new() -> (r: IsoLatin1String)
    ensures
        r.bytes@ == Seq::<u8>::empty(),
        r.cap@ == 0,
{
    IsoLatin1String { bytes: Vec::new(), cap: Ghost(0) }
}

/// Relies on `Vec::with_capacity`, which gives room for at least `capacity` elements and panics
/// only past `isize::MAX` bytes.
#[verifier::external_body]
fn buffer_with_capacity(capacity: usize) -> (r: IsoLatin1String)
    requires
        capacity <= isize::MAX,
    ensures
        r.bytes@ == Seq::<u8>::empty(),
        r.cap@ >= capacity,
{
    IsoLatin1String { bytes: Vec::with_capacity(capacity), cap: Ghost(capacity as nat) }
}

/// Relies on `Vec::capacity`, read as the vector is taken over without copying; a vector can
/// always hold the elements it has.
#[verifier::external_body]
fn buffer_from_vec(vec: Vec<u8>) -> (r: IsoLatin1String)
    ensures
        r.bytes@ == vec@,
        r.cap@ >= vec@.len(),
{
    let capacity = vec.capacity();
    IsoLatin1String { bytes: vec, cap: Ghost(capacity as nat) }
}

/// Relies on `Vec::capacity`: it returns the capacity the string records.
#[verifier::external_body]
fn buffer_capacity(s: &IsoLatin1String) -> (r: usize)
    ensures
        r == s.cap@,
{
    s.bytes.capacity()
}

/// Relies on `Vec::reserve`: the elements stay; afterwards there is room for `additional` more,
/// the capacity never shrinks, and nothing changes where there was room already. It panics
/// only past `isize::MAX` bytes.
#[verifier::external_body]
fn buffer_reserve(s: &mut IsoLatin1String, additional: usize)
    requires
        old(s).bytes@.len() + additional <= isize::MAX,
    ensures
        final(s).bytes@ == old(s).bytes@,
        final(s).cap@ >= old(s).bytes@.len() + additional,
        final(s).cap@ >= old(s).cap@,
        old(s).cap@ >= old(s).bytes@.len() + additional ==> final(s).cap@ == old(s).cap@,
{
    s.bytes.reserve(additional)
}

/// Relies on `Vec::reserve_exact`: the elements stay; afterwards there is room for `additional`
/// more, the capacity never shrinks, and nothing changes where there was room already. It
/// panics only past `isize::MAX` bytes.
#[verifier::external_body]
fn buffer_reserve_exact(s: &mut IsoLatin1String, additional: usize)
    requires
        old(s).bytes@.len() + additional <= isize::MAX,
    ensures
        final(s).bytes@ == old(s).bytes@,
        final(s).cap@ >= old(s).bytes@.len() + additional,
        final(s).cap@ >= old(s).cap@,
        old(s).cap@ >= old(s).bytes@.len() + additional ==> final(s).cap@ == old(s).cap@,
{
    s.bytes.reserve_exact(additional)
}

impl Clone for IsoLatin1String {
    fn clone(&self) -> (r: Self)
        ensures
            r@ == self@,
            self.wf() ==> r.wf(),
    {
        buffer_from_vec(self.bytes.clone())
    }
}

impl PartialEq for IsoLatin1String {
    fn eq(&self, other: &IsoLatin1String) -> (r: bool)
        ensures
            r == (self@ == other@),
    {
        if self.bytes.len() != other.bytes.len() {
            return false;
        }
        let mut i: usize = 0;
        while i < self.bytes.len()
            invariant
                0 <= i <= self.bytes@.len(),
                self.bytes@.len() == other.bytes@.len(),
                self.bytes@.subrange(0, i as int) == other.bytes@.subrange(0, i as int),
            decreases self.bytes@.len() - i,
        {
            if self.bytes[i] != other.bytes[i] {
                return false;
            }
            assert(self.bytes@.subrange(0, i + 1) =~= other.bytes@.subrange(0, i + 1));
            i = i + 1;
        }
        assert(self.bytes@ =~= self.bytes@.subrange(0, i as int));
        assert(other.bytes@ =~= other.bytes@.subrange(0, i as int));
        true
    }
}

impl vstd::std_specs::cmp::PartialEqSpecImpl for IsoLatin1String {
    open spec fn obeys_eq_spec() -> bool {
        true
    }

    open spec fn eq_spec(&self, other: &IsoLatin1String) -> bool {
        self@ == other@
    }
}

impl Eq for IsoLatin1String {

}

impl View for IsoLatin1String {
    type V = Seq<u8>;

    closed spec fn view(&self) -> Seq<u8> {
        self.bytes@
    }
}

/// Why some bytes are not a string of ISO8859-1: where the first byte that is no character
/// stands.
#[derive(Debug, Clone, Copy, PartialEq, Eq, Hash)]
pub struct FromIso8859_1Error {
    valid_up_to: usize,
}

impl FromIso8859_1Error {
    /// Number of bytes before the first one that is not a character.
    pub closed spec fn spec_valid_up_to(&self) -> usize {
        self.valid_up_to
    }

    /// Number of bytes before the first one that is not a character.
    pub fn valid_up_to(&self) -> (r: usize)
        ensures
            r == self.spec_valid_up_to(),
    {
        self.valid_up_to
    }

    /// Why the byte at [`valid_up_to`](Self::valid_up_to) is no character: in ISO8859-1 this
    /// is always because it is undefined.
    pub fn error(&self) -> (r: IsoLatin1CharError)
        ensures
            r == IsoLatin1CharError::Undefined,
    {
        IsoLatin1CharError::Undefined
    }
}

impl IsoLatin1String {
    /// Every byte the string holds is a character, and its capacity covers them.
    pub closed spec fn wf(&self) -> bool {
        all_defined1(self.bytes@) && self.cap@ >= self.bytes@.len()
    }

    /// Number of bytes the string can hold without reallocating.
    pub closed spec fn spec_capacity(&self) -> nat {
        self.cap@
    }

    /// A well-formed string holds characters only, and no more than its capacity.
    pub proof fn lemma_wf(&self)
        requires
            self.wf(),
        ensures
            all_defined1(self@),
            self.spec_capacity() >= self@.len(),
    {
    }

    /// Creates a new empty string, allocating nothing.
    pub fn new() -> (r: Self)
        ensures
            r.wf(),
            r@ == Seq::<u8>::empty(),
            r.spec_capacity() == 0,
    {
        buffer_new()
    }

    /// Creates a new empty string with room for at least `capacity` bytes.
    pub fn with_capacity(capacity: usize) -> (r: Self)
        requires
            capacity <= isize::MAX,
        ensures
            r.wf(),
            r@ == Seq::<u8>::empty(),
            r.spec_capacity() >= capacity,
    {
        buffer_with_capacity(capacity)
    }

    /// Takes `vec` as a string after checking each byte; the error tells where the first byte
    /// that is no character stands. Nothing is copied: the string keeps the vector's storage.
    pub fn from_iso8859_1(vec: Vec<u8>) -> (r: Result<Self, FromIso8859_1Error>)
        ensures
            r is Ok <==> all_defined1(vec@),
            r matches Ok(s) ==> s.wf() && s@ == vec@ && s.spec_capacity() >= vec@.len(),
            r matches Err(e) ==> valid_prefix1(vec@, e.spec_valid_up_to() as int),
    {
        let mut i: usize = 0;
        while i < vec.len()
            invariant
                0 <= i <= vec@.len(),
                all_defined1(vec@.subrange(0, i as int)),
            decreases vec@.len() - i,
        {
            let b = vec[i];
            if 0x80 <= b && b <= 0x9F {
                return Err(FromIso8859_1Error { valid_up_to: i });
            }
            proof {
                assert forall|j: int| 0 <= j < i + 1 implies defined1(
                    #[trigger] vec@.subrange(0, i + 1)[j],
                ) by {
                    if j < i {
                        assert(vec@.subrange(0, i + 1)[j] == vec@.subrange(0, i as int)[j]);
                    }
                }
            }
            i = i + 1;
        }
        assert(vec@.subrange(0, vec@.len() as int) =~= vec@);
        Ok(buffer_from_vec(vec))
    }

    /// Gives back the bytes of the string, without copying.
    pub fn into_bytes(self) -> (r: Vec<u8>)
        ensures
            r@ == self@,
    {
        self.bytes
    }

    /// The bytes of the string.
    pub fn as_bytes(&self) -> (r: &[u8])
        ensures
            r@ == self@,
    {
        self.bytes.as_slice()
    }

    /// Number of bytes, which is also the number of characters.
    pub fn len(&self) -> (r: usize)
        ensures
            r == self@.len(),
    {
        self.bytes.len()
    }

    /// Returns `true` if the string holds no character.
    pub fn is_empty(&self) -> (r: bool)
        ensures
            r == (self@.len() == 0),
    {
        self.bytes.len() == 0
    }

    /// Number of bytes the string can hold without reallocating.
    pub fn capacity(&self) -> (r: usize)
        ensures
            r == self.spec_capacity(),
    {
        buffer_capacity(self)
    }

    /// Reserves room for at least `additional` more bytes. The text is left as it is and the
    /// capacity never shrinks; where there was room already, nothing changes.
    pub fn reserve(&mut self, additional: usize)
        requires
            old(self).wf(),
            old(self)@.len() + additional <= isize::MAX,
        ensures
            final(self).wf(),
            final(self)@ == old(self)@,
            final(self).spec_capacity() >= old(self)@.len() + additional,
            final(self).spec_capacity() >= old(self).spec_capacity(),
            old(self).spec_capacity() >= old(self)@.len() + additional
                ==> final(self).spec_capacity() == old(self).spec_capacity(),
    {
        buffer_reserve(self, additional)
    }

    /// Reserves room for `additional` more bytes, asking the allocator for no more than that.
    /// The text is left as it is and the capacity never shrinks; where there was room already,
    /// nothing changes.
    pub fn reserve_exact(&mut self, additional: usize)
        requires
            old(self).wf(),
            old(self)@.len() + additional <= isize::MAX,
        ensures
            final(self).wf(),
            final(self)@ == old(self)@,
            final(self).spec_capacity() >= old(self)@.len() + additional,
            final(self).spec_capacity() >= old(self).spec_capacity(),
            old(self).spec_capacity() >= old(self)@.len() + additional
                ==> final(self).spec_capacity() == old(self).spec_capacity(),
    {
        buffer_reserve_exact(self, additional)
    }

    /// The text this string displays as: the character of each byte, in order.
    pub fn to_display_string(&self) -> (r: String)
        ensures
            r@ == text1(self@),
    {
        let mut s = String::new();
        let mut i: usize = 0;
        while i < self.bytes.len()
            invariant
                0 <= i <= self.bytes@.len(),
                s@ == text1(self.bytes@.subrange(0, i as int)),
            decreases self.bytes@.len() - i,
        {
            push_char(&mut s, self.bytes[i] as char);
            assert(text1(self.bytes@.subrange(0, i + 1)) =~= text1(
                self.bytes@.subrange(0, i as int),
            ).push(self.bytes@[i as int] as char));
            i = i + 1;
        }
        assert(self.bytes@.subrange(0, self.bytes@.len() as int) =~= self.bytes@);
        s
    }

    /// The text this string shows when debugged: its display text in double quotes.
    pub fn to_debug_string(&self) -> (r: String)
        ensures
            r@ == seq!['"'].add(text1(self@)).push('"'),
    {
        let mut s = single('"');
        let text = self.to_display_string();
        s.append(text.as_str());
        push_char(&mut s, '"');
        s
    }
}

} // verus!
