//! Building the text that characters and strings render as.

use vstd::prelude::*;

verus! {

/// Relies on `String::push`: it appends the one character to the end of the string.
#[verifier::external_body]
pub(crate) fn push_char(s: &mut String, c: char)
    ensures
        final(s)@ == old(s)@.push(c),
{
    s.push(c)
}

/// What `char`'s `Debug` writes for `c`: the character quoted, with escapes where needed.
pub uninterp spec fn char_debug_text(c: char) -> Seq<char>;

/// Relies on `char`'s `Debug` implementation, whose output depends on the character alone.
#[verifier::external_body]
pub(crate) fn char_debug(c: char) -> (r: String)
    ensures
        r@ == char_debug_text(c),
{
    format!("{:?}", c)
}

/// A string of exactly one character.
pub(crate) fn single(c: char) -> (r: String)
    ensures
        r@ == seq![c],
{
    let mut s = String::new();
    push_char(&mut s, c);
    assert(s@ =~= seq![c]);
    s
}

/// Where text goes within a wider field.
#[derive(Debug, Clone, Copy, PartialEq, Eq, Hash, Structural)]
pub enum Alignment {
    /// Text first, padding after it.
    Left,
    /// Padding first, text after it.
    Right,
    /// Padding split around the text, the odd one after it.
    Center,
}

/// `n` copies of `fill`.
pub open spec fn fill_text(fill: char, n: int) -> Seq<char> {
    Seq::new(n as nat, |i: int| fill)
}

/// `text` laid out in a field: with no alignment it stands as it is; with one it is padded with
/// `fill` up to `width` characters (none given counts as 0) and never cut.
pub open spec fn padded(
    text: Seq<char>,
    align: Option<Alignment>,
    width: Option<usize>,
    fill: char,
) -> Seq<char> {
    match align {
        None => text,
        Some(a) => {
            let w: int = match width {
                Some(w) => w as int,
                None => 0,
            };
            let pads: int = if w > text.len() {
                w - text.len()
            } else {
                0
            };
            match a {
                Alignment::Left => text + fill_text(fill, pads),
                Alignment::Right => fill_text(fill, pads) + text,
                Alignment::Center => fill_text(fill, pads / 2) + text + fill_text(
                    fill,
                    pads - pads / 2,
                ),
            }
        },
    }
}

/// A field wider than its text is filled to exactly its width, the text standing at the start,
/// at the end, or between two runs of padding whose lengths differ by at most one, the longer
/// after it.
pub proof fn lemma_padded_width(text: Seq<char>, align: Alignment, width: usize, fill: char)
    requires
        width > text.len(),
    ensures
        padded(text, Some(align), Some(width), fill).len() == width,
        ({
            let out = padded(text, Some(align), Some(width), fill);
            let pads = width - text.len();
            match align {
                Alignment::Left => out.subrange(0, text.len() as int) == text && forall|i: int|
                    text.len() <= i < width ==> out[i] == fill,
                Alignment::Right => out.subrange(pads, width as int) == text && forall|i: int|
                    0 <= i < pads ==> out[i] == fill,
                Alignment::Center => out.subrange(pads / 2, pads / 2 + text.len()) == text
                    && forall|i: int|
                    (0 <= i < pads / 2 || pads / 2 + text.len() <= i < width) ==> out[i] == fill,
            }
        }),
{
    let out = padded(text, Some(align), Some(width), fill);
    let pads = width - text.len();
    match align {
        Alignment::Left => assert(out.subrange(0, text.len() as int) =~= text),
        Alignment::Right => assert(out.subrange(pads, width as int) =~= text),
        Alignment::Center => assert(out.subrange(pads / 2, pads / 2 + text.len()) =~= text),
    }
}

/// Appends `n` copies of `fill`.
pub(crate) fn push_fill(s: &mut String, fill: char, n: usize)
    ensures
        final(s)@ == old(s)@ + fill_text(fill, n as int),
{
    let mut i: usize = 0;
    while i < n
        invariant
            0 <= i <= n,
            s@ == old(s)@ + fill_text(fill, i as int),
        decreases n - i,
    {
        push_char(s, fill);
        assert(old(s)@ + fill_text(fill, i + 1) =~= (old(s)@ + fill_text(fill, i as int)).push(
            fill,
        ));
        i = i + 1;
    }
}

/// The hexadecimal digit for `d`, in lower or upper case.
pub open spec fn hex_digit(d: u8, upper: bool) -> char {
    if d < 10 {
        (0x30 + d) as char
    } else if upper {
        (0x41 + d - 10) as char
    } else {
        (0x61 + d - 10) as char
    }
}

/// Byte `b` written in hexadecimal with no leading zero, as `{:x}` and `{:X}` write it.
pub open spec fn hex_text(b: u8, upper: bool) -> Seq<char> {
    if b < 16 {
        seq![hex_digit(b, upper)]
    } else {
        seq![hex_digit(b / 16, upper), hex_digit(b % 16, upper)]
    }
}

fn digit_char(d: u8, upper: bool) -> (r: char)
    requires
        d < 16,
    ensures
        r == hex_digit(d, upper),
{
    if d < 10 {
        (0x30 + d) as char
    } else if upper {
        (0x41 + d - 10) as char
    } else {
        (0x61 + d - 10) as char
    }
}

/// Writes byte `b` in hexadecimal.
pub(crate) fn hex(b: u8, upper: bool) -> (r: String)
    ensures
        r@ == hex_text(b, upper),
{
    if b < 16 {
        single(digit_char(b, upper))
    } else {
        let mut s = single(digit_char(b / 16, upper));
        push_char(&mut s, digit_char(b % 16, upper));
        assert(s@ =~= hex_text(b, upper));
        s
    }
}

} // verus!
