//! Byte classes that every supported charset shares: ASCII, control codes and digits.

use vstd::prelude::*;

verus! {

/// `b` is an ASCII control code: `0x00..=0x1F` or `0x7F`.
pub open spec fn control_byte(b: u8) -> bool {
    b <= 0x1F || b == 0x7F
}

/// `b` is a decimal digit, `0..=9`.
pub open spec fn numeric_byte(b: u8) -> bool {
    0x30 <= b && b <= 0x39
}

/// `b` lies in the ASCII range.
pub open spec fn ascii_byte(b: u8) -> bool {
    b <= 0x7F
}

/// The value of `b` as a digit in the widest radix, 36: `0-9` count from 0, `a-z` and `A-Z`
/// alike from 10; every other byte has none.
pub open spec fn digit_value(b: u8) -> Option<nat> {
    if 0x30 <= b && b <= 0x39 {
        Some((b - 0x30) as nat)
    } else if 0x61 <= b && b <= 0x7A {
        Some((b - 0x61 + 10) as nat)
    } else if 0x41 <= b && b <= 0x5A {
        Some((b - 0x41 + 10) as nat)
    } else {
        None
    }
}

/// `b` is a digit in base `radix`.
pub open spec fn digit_in_radix(b: u8, radix: u8) -> bool {
    match digit_value(b) {
        Some(d) => d < radix,
        None => false,
    }
}

pub fn is_control_byte(b: u8) -> (r: bool)
    ensures
        r == control_byte(b),
{
    b <= 0x1F || b == 0x7F
}

pub fn is_numeric_byte(b: u8) -> (r: bool)
    ensures
        r == numeric_byte(b),
{
    0x30 <= b && b <= 0x39
}

/// Tells whether `b` is a digit in base `radix`, which may be at most 36.
pub fn is_digit_byte(b: u8, radix: u8) -> (r: bool)
    requires
        radix <= 36,
    ensures
        r == digit_in_radix(b, radix),
{
    let digit: u8 = if 0x30 <= b && b <= 0x39 {
        b - 0x30
    } else if 0x61 <= b && b <= 0x7A {
        b - 0x61 + 10
    } else if 0x41 <= b && b <= 0x5A {
        b - 0x41 + 10
    } else {
        return false;
    };
    digit < radix
}

/// Whether a character is a digit only grows with the radix.
pub proof fn lemma_digit_monotonic(b: u8, r: u8, wider: u8)
    requires
        digit_in_radix(b, r),
        r < wider,
        wider <= 36,
    ensures
        digit_in_radix(b, wider),
{
}

} // verus!
