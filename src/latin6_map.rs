//! The ISO8859-10 code tables and the mathematical model of the mapping they define.

use vstd::prelude::*;

use crate::latin6::IsoLatin6CharError;

verus! {

/// Scalar value of each byte of the upper half (`0xA0..=0xFF`), indexed by `byte - 0xA0`.
/// A zero entry marks a byte that has no character.
pub const DECODE_MAP: [u16; 96] = [
    0x00A0, 0x0104, 0x0112, 0x0122, 0x012A, 0x0128, 0x0136, 0x00A7,
    0x013B, 0x0110, 0x0160, 0x0166, 0x017D, 0x00AD, 0x016A, 0x014A,
    0x00B0, 0x0105, 0x0113, 0x0123, 0x012B, 0x0129, 0x0137, 0x00B7,
    0x013C, 0x0111, 0x0161, 0x0167, 0x017E, 0x2015, 0x016B, 0x014B,
    0x0100, 0x00C1, 0x00C2, 0x00C3, 0x00C4, 0x00C5, 0x00C6, 0x012E,
    0x010C, 0x00C9, 0x0118, 0x00CB, 0x0116, 0x00CD, 0x00CE, 0x00CF,
    0x00D0, 0x0145, 0x014C, 0x00D3, 0x00D4, 0x00D5, 0x00D6, 0x0168,
    0x00D8, 0x0172, 0x00DA, 0x00DB, 0x00DC, 0x00DD, 0x00DE, 0x00DF,
    0x0101, 0x00E1, 0x00E2, 0x00E3, 0x00E4, 0x00E5, 0x00E6, 0x012F,
    0x010D, 0x00E9, 0x0119, 0x00EB, 0x0117, 0x00ED, 0x00EE, 0x00EF,
    0x00F0, 0x0146, 0x014D, 0x00F3, 0x00F4, 0x00F5, 0x00F6, 0x0169,
    0x00F8, 0x0173, 0x00FA, 0x00FB, 0x00FC, 0x00FD, 0x00FE, 0x0138,
];

/// Marks a high byte whose scalar values have no page in [`ENCODE_MAP`].
pub const NO_PAGE: u8 = 0xFF;

/// Page of [`ENCODE_MAP`] for each high byte of a 16-bit scalar value; high bytes past the end
/// of the table have no page either.
pub const HI_MAP: [u8; 33] = [
    0x00, 0x01, 0xFF, 0xFF, 0xFF, 0xFF, 0xFF, 0xFF, 0xFF, 0xFF, 0xFF,
    0xFF, 0xFF, 0xFF, 0xFF, 0xFF, 0xFF, 0xFF, 0xFF, 0xFF, 0xFF, 0xFF,
    0xFF, 0xFF, 0xFF, 0xFF, 0xFF, 0xFF, 0xFF, 0xFF, 0xFF, 0xFF, 0x02,
];

/// Pages of 256 entries, one per low byte of a scalar value, each holding the byte that encodes
/// it. A zero entry marks a scalar value that has no byte.
pub const ENCODE_MAP: [u8; 768] = [
    0x00, 0x00, 0x00, 0x00, 0x00, 0x00, 0x00, 0x00, 0x00, 0x00, 0x00, 0x00, 0x00, 0x00, 0x00, 0x00,
    0x00, 0x00, 0x00, 0x00, 0x00, 0x00, 0x00, 0x00, 0x00, 0x00, 0x00, 0x00, 0x00, 0x00, 0x00, 0x00,
    0x00, 0x00, 0x00, 0x00, 0x00, 0x00, 0x00, 0x00, 0x00, 0x00, 0x00, 0x00, 0x00, 0x00, 0x00, 0x00,
    0x00, 0x00, 0x00, 0x00, 0x00, 0x00, 0x00, 0x00, 0x00, 0x00, 0x00, 0x00, 0x00, 0x00, 0x00, 0x00,
    0x00, 0x00, 0x00, 0x00, 0x00, 0x00, 0x00, 0x00, 0x00, 0x00, 0x00, 0x00, 0x00, 0x00, 0x00, 0x00,
    0x00, 0x00, 0x00, 0x00, 0x00, 0x00, 0x00, 0x00, 0x00, 0x00, 0x00, 0x00, 0x00, 0x00, 0x00, 0x00,
    0x00, 0x00, 0x00, 0x00, 0x00, 0x00, 0x00, 0x00, 0x00, 0x00, 0x00, 0x00, 0x00, 0x00, 0x00, 0x00,
    0x00, 0x00, 0x00, 0x00, 0x00, 0x00, 0x00, 0x00, 0x00, 0x00, 0x00, 0x00, 0x00, 0x00, 0x00, 0x00,
    0x00, 0x00, 0x00, 0x00, 0x00, 0x00, 0x00, 0x00, 0x00, 0x00, 0x00, 0x00, 0x00, 0x00, 0x00, 0x00,
    0x00, 0x00, 0x00, 0x00, 0x00, 0x00, 0x00, 0x00, 0x00, 0x00, 0x00, 0x00, 0x00, 0x00, 0x00, 0x00,
    0xA0, 0x00, 0x00, 0x00, 0x00, 0x00, 0x00, 0xA7, 0x00, 0x00, 0x00, 0x00, 0x00, 0xAD, 0x00, 0x00,
    0xB0, 0x00, 0x00, 0x00, 0x00, 0x00, 0x00, 0xB7, 0x00, 0x00, 0x00, 0x00, 0x00, 0x00, 0x00, 0x00,
    0x00, 0xC1, 0xC2, 0xC3, 0xC4, 0xC5, 0xC6, 0x00, 0x00, 0xC9, 0x00, 0xCB, 0x00, 0xCD, 0xCE, 0xCF,
    0xD0, 0x00, 0x00, 0xD3, 0xD4, 0xD5, 0xD6, 0x00, 0xD8, 0x00, 0xDA, 0xDB, 0xDC, 0xDD, 0xDE, 0xDF,
    0x00, 0xE1, 0xE2, 0xE3, 0xE4, 0xE5, 0xE6, 0x00, 0x00, 0xE9, 0x00, 0xEB, 0x00, 0xED, 0xEE, 0xEF,
    0xF0, 0x00, 0x00, 0xF3, 0xF4, 0xF5, 0xF6, 0x00, 0xF8, 0x00, 0xFA, 0xFB, 0xFC, 0xFD, 0xFE, 0x00,
    0xC0, 0xE0, 0x00, 0x00, 0xA1, 0xB1, 0x00, 0x00, 0x00, 0x00, 0x00, 0x00, 0xC8, 0xE8, 0x00, 0x00,
    0xA9, 0xB9, 0xA2, 0xB2, 0x00, 0x00, 0xCC, 0xEC, 0xCA, 0xEA, 0x00, 0x00, 0x00, 0x00, 0x00, 0x00,
    0x00, 0x00, 0xA3, 0xB3, 0x00, 0x00, 0x00, 0x00, 0xA5, 0xB5, 0xA4, 0xB4, 0x00, 0x00, 0xC7, 0xE7,
    0x00, 0x00, 0x00, 0x00, 0x00, 0x00, 0xA6, 0xB6, 0xFF, 0x00, 0x00, 0xA8, 0xB8, 0x00, 0x00, 0x00,
    0x00, 0x00, 0x00, 0x00, 0x00, 0xD1, 0xF1, 0x00, 0x00, 0x00, 0xAF, 0xBF, 0xD2, 0xF2, 0x00, 0x00,
    0x00, 0x00, 0x00, 0x00, 0x00, 0x00, 0x00, 0x00, 0x00, 0x00, 0x00, 0x00, 0x00, 0x00, 0x00, 0x00,
    0xAA, 0xBA, 0x00, 0x00, 0x00, 0x00, 0xAB, 0xBB, 0xD7, 0xF7, 0xAE, 0xBE, 0x00, 0x00, 0x00, 0x00,
    0x00, 0x00, 0xD9, 0xF9, 0x00, 0x00, 0x00, 0x00, 0x00, 0x00, 0x00, 0x00, 0x00, 0xAC, 0xBC, 0x00,
    0x00, 0x00, 0x00, 0x00, 0x00, 0x00, 0x00, 0x00, 0x00, 0x00, 0x00, 0x00, 0x00, 0x00, 0x00, 0x00,
    0x00, 0x00, 0x00, 0x00, 0x00, 0x00, 0x00, 0x00, 0x00, 0x00, 0x00, 0x00, 0x00, 0x00, 0x00, 0x00,
    0x00, 0x00, 0x00, 0x00, 0x00, 0x00, 0x00, 0x00, 0x00, 0x00, 0x00, 0x00, 0x00, 0x00, 0x00, 0x00,
    0x00, 0x00, 0x00, 0x00, 0x00, 0x00, 0x00, 0x00, 0x00, 0x00, 0x00, 0x00, 0x00, 0x00, 0x00, 0x00,
    0x00, 0x00, 0x00, 0x00, 0x00, 0x00, 0x00, 0x00, 0x00, 0x00, 0x00, 0x00, 0x00, 0x00, 0x00, 0x00,
    0x00, 0x00, 0x00, 0x00, 0x00, 0x00, 0x00, 0x00, 0x00, 0x00, 0x00, 0x00, 0x00, 0x00, 0x00, 0x00,
    0x00, 0x00, 0x00, 0x00, 0x00, 0x00, 0x00, 0x00, 0x00, 0x00, 0x00, 0x00, 0x00, 0x00, 0x00, 0x00,
    0x00, 0x00, 0x00, 0x00, 0x00, 0x00, 0x00, 0x00, 0x00, 0x00, 0x00, 0x00, 0x00, 0x00, 0x00, 0x00,
    0x00, 0x00, 0x00, 0x00, 0x00, 0x00, 0x00, 0x00, 0x00, 0x00, 0x00, 0x00, 0x00, 0x00, 0x00, 0x00,
    0x00, 0x00, 0x00, 0x00, 0x00, 0xBD, 0x00, 0x00, 0x00, 0x00, 0x00, 0x00, 0x00, 0x00, 0x00, 0x00,
    0x00, 0x00, 0x00, 0x00, 0x00, 0x00, 0x00, 0x00, 0x00, 0x00, 0x00, 0x00, 0x00, 0x00, 0x00, 0x00,
    0x00, 0x00, 0x00, 0x00, 0x00, 0x00, 0x00, 0x00, 0x00, 0x00, 0x00, 0x00, 0x00, 0x00, 0x00, 0x00,
    0x00, 0x00, 0x00, 0x00, 0x00, 0x00, 0x00, 0x00, 0x00, 0x00, 0x00, 0x00, 0x00, 0x00, 0x00, 0x00,
    0x00, 0x00, 0x00, 0x00, 0x00, 0x00, 0x00, 0x00, 0x00, 0x00, 0x00, 0x00, 0x00, 0x00, 0x00, 0x00,
    0x00, 0x00, 0x00, 0x00, 0x00, 0x00, 0x00, 0x00, 0x00, 0x00, 0x00, 0x00, 0x00, 0x00, 0x00, 0x00,
    0x00, 0x00, 0x00, 0x00, 0x00, 0x00, 0x00, 0x00, 0x00, 0x00, 0x00, 0x00, 0x00, 0x00, 0x00, 0x00,
    0x00, 0x00, 0x00, 0x00, 0x00, 0x00, 0x00, 0x00, 0x00, 0x00, 0x00, 0x00, 0x00, 0x00, 0x00, 0x00,
    0x00, 0x00, 0x00, 0x00, 0x00, 0x00, 0x00, 0x00, 0x00, 0x00, 0x00, 0x00, 0x00, 0x00, 0x00, 0x00,
    0x00, 0x00, 0x00, 0x00, 0x00, 0x00, 0x00, 0x00, 0x00, 0x00, 0x00, 0x00, 0x00, 0x00, 0x00, 0x00,
    0x00, 0x00, 0x00, 0x00, 0x00, 0x00, 0x00, 0x00, 0x00, 0x00, 0x00, 0x00, 0x00, 0x00, 0x00, 0x00,
    0x00, 0x00, 0x00, 0x00, 0x00, 0x00, 0x00, 0x00, 0x00, 0x00, 0x00, 0x00, 0x00, 0x00, 0x00, 0x00,
    0x00, 0x00, 0x00, 0x00, 0x00, 0x00, 0x00, 0x00, 0x00, 0x00, 0x00, 0x00, 0x00, 0x00, 0x00, 0x00,
    0x00, 0x00, 0x00, 0x00, 0x00, 0x00, 0x00, 0x00, 0x00, 0x00, 0x00, 0x00, 0x00, 0x00, 0x00, 0x00,
    0x00, 0x00, 0x00, 0x00, 0x00, 0x00, 0x00, 0x00, 0x00, 0x00, 0x00, 0x00, 0x00, 0x00, 0x00, 0x00,
];

/// The scalar value that byte `b` stands for in ISO8859-10.
///
/// ASCII (control codes included) maps to itself, `0x80..=0x9F` is left undefined by the
/// standard, and the upper half is read from [`DECODE_MAP`].
pub open spec fn decode_scalar(b: u8) -> Result<u32, IsoLatin6CharError> {
    if b <= 0x7F {
        Ok(b as u32)
    } else if b <= 0x9F {
        Err(IsoLatin6CharError::Undefined)
    } else if DECODE_MAP[b - 0xA0] == 0 {
        Err(IsoLatin6CharError::Invalid)
    } else {
        Ok(DECODE_MAP[b - 0xA0] as u32)
    }
}

/// The byte that encodes scalar value `c` in ISO8859-10, looked up through the two-level table:
/// `ENCODE_MAP[HI_MAP[c / 256] * 256 + c % 256]`.
pub open spec fn encode_scalar(c: u32) -> Result<u8, IsoLatin6CharError> {
    let hi = c as int / 256;
    let lo = c as int % 256;
    if c <= 0x7F {
        Ok(c as u8)
    } else if c <= 0x9F || c > 0xFFFF || hi >= 33 || HI_MAP[hi] == NO_PAGE {
        Err(IsoLatin6CharError::Invalid)
    } else if ENCODE_MAP[HI_MAP[hi] * 256 + lo] == 0 {
        Err(IsoLatin6CharError::Invalid)
    } else {
        Ok(ENCODE_MAP[HI_MAP[hi] * 256 + lo])
    }
}

/// Decoding byte `b` and encoding the result gives `b` back, or `b` does not decode.
pub open spec fn round_trips(b: u8) -> bool {
    match decode_scalar(b) {
        Ok(c) => encode_scalar(c) == Ok::<u8, IsoLatin6CharError>(b),
        Err(_) => true,
    }
}

proof fn lemma_round_trip_from(b: int)
    requires
        0xA0 <= b <= 0x100,
    ensures
        forall|x: u8| b <= x ==> #[trigger] round_trips(x),
    decreases 0x100 - b,
{
    if b < 0x100 {
        lemma_round_trip_from(b + 1);
        let x = b as u8;
        assert(round_trips(x));
    }
}

/// Every byte that decodes is what its scalar value encodes to; with
/// [`lemma_encoded_decodes`], the tables form a bijection between the bytes that decode and
/// the scalar values that encode.
pub proof fn lemma_round_trip(b: u8)
    ensures
        round_trips(b),
{
    lemma_round_trip_from(0xA0);
}

/// A byte fails to decode exactly when it lies in `0x80..=0x9F`, and then as undefined.
pub proof fn lemma_decode_defined(b: u8)
    ensures
        decode_scalar(b) is Err <==> 0x80 <= b && b <= 0x9F,
        0x80 <= b && b <= 0x9F ==> decode_scalar(b) == Err::<u32, IsoLatin6CharError>(
            IsoLatin6CharError::Undefined,
        ),
{
}

/// Encoding scalar value `c` and decoding the result gives `c` back, or `c` does not encode.
pub open spec fn decodes_back(c: u32) -> bool {
    match encode_scalar(c) {
        Ok(b) => decode_scalar(b) == Ok::<u32, IsoLatin6CharError>(c),
        Err(_) => true,
    }
}

/// The high byte of the scalar values held in page `p` of [`ENCODE_MAP`].
spec fn page_high_byte(p: int) -> int {
    if p == 0 {
        0
    } else if p == 1 {
        1
    } else {
        0x20
    }
}

/// Entry `k` of [`ENCODE_MAP`], when set, decodes to the scalar value whose place it holds.
spec fn encode_entry_decodes(k: int) -> bool {
    ENCODE_MAP[k] != 0 ==> decode_scalar(ENCODE_MAP[k]) == Ok::<u32, IsoLatin6CharError>(
        (page_high_byte(k / 256) * 256 + k % 256) as u32,
    )
}

proof fn lemma_encode_entries_from(k: int)
    requires
        0 <= k <= 768,
    ensures
        forall|j: int| k <= j < 768 ==> #[trigger] encode_entry_decodes(j),
    decreases 768 - k,
{
    if k < 768 {
        lemma_encode_entries_from(k + 1);
        assert(encode_entry_decodes(k));
    }
}

proof fn lemma_pages_from(h: int)
    requires
        0 <= h <= 33,
    ensures
        forall|j: int|
            h <= j < 33 && #[trigger] HI_MAP[j] != NO_PAGE ==> HI_MAP[j] < 3 && page_high_byte(
                HI_MAP[j] as int,
            ) == j,
    decreases 33 - h,
{
    if h < 33 {
        lemma_pages_from(h + 1);
    }
}

/// Every scalar value that encodes decodes back from its byte.
pub proof fn lemma_encoded_decodes(c: u32)
    ensures
        decodes_back(c),
{
    if c > 0x9F && c <= 0xFFFF {
        lemma_encode_entries_from(0);
        lemma_pages_from(0);
        let hi = c as int / 256;
        if hi < 33 && HI_MAP[hi] != NO_PAGE {
            assert(encode_entry_decodes(HI_MAP[hi] * 256 + c as int % 256));
        }
    }
}

} // verus!
