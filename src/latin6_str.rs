//! Borrowed strings of ISO8859-10: byte slices known to hold characters only.

use vstd::prelude::*;

use crate::latin6::{
    map_byte_to_char, map_byte_to_char_unchecked, scalar_of6, IsoLatin6Char, IsoLatin6CharError,
};
use crate::latin6_map::decode_scalar;
use crate::text::{padded, push_char, push_fill, single, Alignment};

verus! {

/// Every byte of `s` is a character of ISO8859-10.
pub open spec fn all_defined6(s: Seq<u8>) -> bool {
    forall|i: int| 0 <= i < s.len() ==> #[trigger] decode_scalar(s[i]) is Ok
}

/// The text of a string of ISO8859-10: the character of each byte, in order.
pub open spec fn text6(s: Seq<u8>) -> Seq<char> {
    s.map_values(|b: u8| scalar_of6(b) as char)
}

/// `n` is where the first byte of `s` that is no character stands, and `e` why it is none.
pub open spec fn first_undecodable6(s: Seq<u8>, n: int, e: IsoLatin6CharError) -> bool {
    &&& 0 <= n < s.len()
    &&& all_defined6(s.subrange(0, n))
    &&& decode_scalar(s[n]) == Err::<u32, IsoLatin6CharError>(e)
}

/// A borrowed ISO8859-10 string: a byte slice, not copied, whose every byte is a character.
///
/// The view is shared only. A mutable view, or a mutable sub-view, would let bytes that are no
/// characters be written through it, which its invariant rules out; new text is built and
/// checked again with [`from_iso8859_10`](Self::from_iso8859_10) instead.
#[derive(Clone, Copy, PartialEq, Eq, PartialOrd, Ord, Hash)]
pub struct IsoLatin6Str<'a> {
    bytes: &'a [u8],
}

impl<'a> View for IsoLatin6Str<'a> {
    type V = Seq<u8>;

    closed spec fn view(&self) -> Seq<u8> {
        self.bytes@
    }
}

/// Why some bytes are not a string of ISO8859-10: where the first byte that is no character
/// stands, and why it is none.
#[derive(Debug, Clone, Copy, PartialEq, Eq, Hash)]
pub struct FromIso8859_10Error {
    valid_up_to: usize,
    error: IsoLatin6CharError,
}

impl FromIso8859_10Error {
    /// Number of bytes before the first one that is not a character.
    pub closed spec fn spec_valid_up_to(&self) -> usize {
        self.valid_up_to
    }

    /// Why the first byte that is not a character is none.
    pub closed spec fn spec_error(&self) -> IsoLatin6CharError {
        self.error
    }

    /// Number of bytes before the first one that is not a character.
    pub fn valid_up_to(&self) -> (r: usize)
        ensures
            r == self.spec_valid_up_to(),
    {
        self.valid_up_to
    }

    /// Why the first byte that is not a character is none.
    pub fn error(&self) -> (r: IsoLatin6CharError)
        ensures
            r == self.spec_error(),
    {
        self.error
    }
}

impl<'a> IsoLatin6Str<'a> {
    #[verifier::type_invariant]
    spec fn inv(self) -> bool {
        all_defined6(self.bytes@)
    }

    /// Views `bytes` as a string after checking that each of them is a character; the error
    /// tells where the first one that is not stands, and why.
    pub fn from_iso8859_10(bytes: &'a [u8]) -> (r: Result<Self, FromIso8859_10Error>)
        ensures
            r is Ok <==> all_defined6(bytes@),
            r matches Ok(s) ==> s@ == bytes@,
            r matches Err(e) ==> first_undecodable6(
                bytes@,
                e.spec_valid_up_to() as int,
                e.spec_error(),
            ),
    {
        let mut i: usize = 0;
        while i < bytes.len()
            invariant
                0 <= i <= bytes@.len(),
                all_defined6(bytes@.subrange(0, i as int)),
            decreases bytes@.len() - i,
        {
            if let Err(e) = map_byte_to_char(bytes[i]) {
                return Err(FromIso8859_10Error { valid_up_to: i, error: e });
            }
            proof {
                assert forall|j: int| 0 <= j < i + 1 implies #[trigger] decode_scalar(
                    bytes@.subrange(0, i + 1)[j],
                ) is Ok by {
                    if j < i {
                        assert(bytes@.subrange(0, i + 1)[j] == bytes@.subrange(0, i as int)[j]);
                    }
                }
            }
            i = i + 1;
        }
        assert(bytes@.subrange(0, bytes@.len() as int) =~= bytes@);
        Ok(IsoLatin6Str { bytes })
    }

    /// Number of bytes, which is also the number of characters.
    pub fn len(&self) -> (r: usize)
        ensures
            r == self@.len(),
    {
        self.bytes.len()
    }

    /// Returns `true` if the string holds no character.
    pub fn is_empty(&self) -> (r: bool)
        ensures
            r == (self@.len() == 0),
    {
        self.bytes.is_empty()
    }

    /// The bytes of the string.
    pub fn as_bytes(&self) -> (r: &'a [u8])
        ensures
            r@ == self@,
            all_defined6(r@),
    {
        proof {
            use_type_invariant(self);
        }
        self.bytes
    }

    /// The character at position `index`.
    pub fn char_at(&self, index: usize) -> (r: IsoLatin6Char)
        requires
            index < self@.len(),
        ensures
            r@ == self@[index as int],
    {
        proof {
            use_type_invariant(self);
        }
        IsoLatin6Char::from_defined_byte(self.bytes[index])
    }

    /// The part of the string from `start` up to, not including, `end`; `None` where the range
    /// is reversed or passes the end.
    pub fn get(&self, start: usize, end: usize) -> (r: Option<Self>)
        ensures
            r is Some <==> start <= end && end <= self@.len(),
            r matches Some(s) ==> s@ == self@.subrange(start as int, end as int),
    {
        if start <= end && end <= self.bytes.len() {
            Some(self.get_unchecked(start, end))
        } else {
            None
        }
    }

    /// The part of the string from `start` up to, not including, `end`, for a range known to
    /// be ordered and within bounds.
    pub fn get_unchecked(&self, start: usize, end: usize) -> (r: Self)
        requires
            start <= end,
            end <= self@.len(),
        ensures
            r@ == self@.subrange(start as int, end as int),
    {
        proof {
            use_type_invariant(self);
        }
        let bytes = vstd::slice::slice_subrange(self.bytes, start, end);
        proof {
            assert forall|i: int| 0 <= i < bytes@.len() implies #[trigger] decode_scalar(
                bytes@[i],
            ) is Ok by {
                assert(bytes@[i] == self.bytes@[start + i]);
            }
        }
        IsoLatin6Str { bytes }
    }

    /// Appends the character of each byte, in order.
    fn push_text(&self, s: &mut String)
        ensures
            final(s)@ == old(s)@ + text6(self@),
    {
        proof {
            use_type_invariant(self);
        }
        let mut i: usize = 0;
        while i < self.bytes.len()
            invariant
                0 <= i <= self.bytes@.len(),
                all_defined6(self.bytes@),
                s@ == old(s)@ + text6(self.bytes@.subrange(0, i as int)),
            decreases self.bytes@.len() - i,
        {
            let b = self.bytes[i];
            proof {
                assert(decode_scalar(self.bytes@[i as int]) is Ok);
            }
            push_char(s, map_byte_to_char_unchecked(b));
            assert(old(s)@ + text6(self.bytes@.subrange(0, i + 1)) =~= (old(s)@ + text6(
                self.bytes@.subrange(0, i as int),
            )).push(scalar_of6(b) as char));
            i = i + 1;
        }
        assert(self.bytes@.subrange(0, self.bytes@.len() as int) =~= self.bytes@);
    }

    /// The text this string displays as: the character of each byte, in order.
    pub fn to_display_string(&self) -> (r: String)
        ensures
            r@ == text6(self@),
    {
        let mut s = String::new();
        self.push_text(&mut s);
        assert(s@ =~= text6(self@));
        s
    }

    /// The text this string shows when debugged: its display text in double quotes.
    pub fn to_debug_string(&self) -> (r: String)
        ensures
            r@ == seq!['"'] + text6(self@) + seq!['"'],
    {
        let mut s = single('"');
        self.push_text(&mut s);
        push_char(&mut s, '"');
        s
    }

    /// The display text laid out in a field of `width` characters: with an alignment it is
    /// padded with `fill` up to that width, never cut; with none it stands as it is.
    pub fn to_padded_string(
        &self,
        align: Option<Alignment>,
        width: Option<usize>,
        fill: char,
    ) -> (r: String)
        ensures
            r@ == padded(text6(self@), align, width, fill),
    {
        let mut s = String::new();
        match align {
            None => {
                self.push_text(&mut s);
            },
            Some(a) => {
                let w: usize = match width {
                    Some(w) => w,
                    None => 0,
                };
                let pads: usize = if w > self.bytes.len() {
                    w - self.bytes.len()
                } else {
                    0
                };
                match a {
                    Alignment::Left => {
                        self.push_text(&mut s);
                        push_fill(&mut s, fill, pads);
                    },
                    Alignment::Right => {
                        push_fill(&mut s, fill, pads);
                        self.push_text(&mut s);
                    },
                    Alignment::Center => {
                        let half = pads / 2;
                        push_fill(&mut s, fill, half);
                        self.push_text(&mut s);
                        push_fill(&mut s, fill, pads - half);
                    },
                }
            },
        }
        assert(s@ =~= padded(text6(self@), align, width, fill));
        s
    }
}

} // verus!
