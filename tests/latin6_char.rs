use iso8859::{map_byte_to_char, map_char_to_byte, IsoLatin6Char, IsoLatin6CharError};

const LAST_PART_OF_ISO8859: [char; 96] = [
    '\u{A0}', 'Ą', 'Ē', 'Ģ', 'Ī', 'Ĩ', 'Ķ', '§', 'Ļ', 'Đ', 'Š', 'Ŧ', 'Ž', '\u{AD}', 'Ū', 'Ŋ',
    '°', 'ą', 'ē', 'ģ', 'ī', 'ĩ', 'ķ', '·', 'ļ', 'đ', 'š', 'ŧ', 'ž', '―', 'ū', 'ŋ', 'Ā', 'Á',
    'Â', 'Ã', 'Ä', 'Å', 'Æ', 'Į', 'Č', 'É', 'Ę', 'Ë', 'Ė', 'Í', 'Î', 'Ï', 'Ð', 'Ņ', 'Ō', 'Ó',
    'Ô', 'Õ', 'Ö', 'Ũ', 'Ø', 'Ų', 'Ú', 'Û', 'Ü', 'Ý', 'Þ', 'ß', 'ā', 'á', 'â', 'ã', 'ä', 'å',
    'æ', 'į', 'č', 'é', 'ę', 'ë', 'ė', 'í', 'î', 'ï', 'ð', 'ņ', 'ō', 'ó', 'ô', 'õ', 'ö', 'ũ',
    'ø', 'ų', 'ú', 'û', 'ü', 'ý', 'þ', 'ĸ',
];

fn ch(byte: u8) -> IsoLatin6Char {
    IsoLatin6Char::try_from(byte).unwrap()
}

fn is_char(byte: u8) -> bool {
    !(0x80..=0x9F).contains(&byte)
}

#[test]
fn char_is_alphabetic() {
    assert!(ch(0x41).is_alphabetic());
    assert!(ch(0x5A).is_alphabetic());
    assert!(ch(0x61).is_alphabetic());
    assert!(ch(0x7A).is_alphabetic());
    assert!(ch(0xA1).is_alphabetic());
    assert!(ch(0xA6).is_alphabetic());
    assert!(ch(0xA8).is_alphabetic());
    assert!(ch(0xAC).is_alphabetic());
    assert!(ch(0xAE).is_alphabetic());
    assert!(ch(0xAF).is_alphabetic());
    assert!(ch(0xB1).is_alphabetic());
    assert!(ch(0xB6).is_alphabetic());
    assert!(ch(0xB8).is_alphabetic());
    assert!(ch(0xBC).is_alphabetic());
    assert!(ch(0xBE).is_alphabetic());
    assert!(ch(0xFF).is_alphabetic());

    for byte in 0x80..=0xA0 {
        if let Ok(c) = IsoLatin6Char::try_from(byte) {
            assert!(!c.is_alphabetic());
        }
    }
    for byte in [0xA7, 0xAD, 0xB0, 0xB7, 0xBD] {
        assert!(!ch(byte).is_alphabetic());
    }
}

#[test]
fn char_case_classes() {
    for byte in (0x00..=0xFF).filter(|b| is_char(*b)) {
        let c = ch(byte);
        assert_eq!(c.is_alphabetic(), c.is_uppercase() || c.is_lowercase());
        assert!(!(c.is_uppercase() && c.is_lowercase()));
        assert_eq!(c.is_alphanumeric(), c.is_alphabetic() || c.is_numeric());
    }
}

#[test]
fn char_is_control() {
    for byte in 0x00..=0x1F {
        assert!(ch(byte).is_control());
    }
    assert!(ch(0x7F).is_control());
    for byte in (0x20..=0xFF).filter(|b| is_char(*b) && *b != 0x7F) {
        assert!(!ch(byte).is_control());
    }
}

#[test]
fn char_is_digit() {
    assert!(ch(b'0').is_digit(10));
    assert!(ch(b'1').is_digit(2));
    assert!(ch(b'2').is_digit(3));
    assert!(ch(b'9').is_digit(10));
    assert!(ch(b'a').is_digit(16),);
    assert!(ch(b'A').is_digit(16),);
    assert!(ch(b'b').is_digit(16),);
    assert!(ch(b'B').is_digit(16),);
    assert!(ch(b'A').is_digit(36),);
    assert!(ch(b'z').is_digit(36),);
    assert!(ch(b'Z').is_digit(36),);
    assert!(!ch(b'[').is_digit(36));
    assert!(!ch(b'`').is_digit(36));
    assert!(!ch(b'{').is_digit(36));
    assert!(!ch(b'$').is_digit(36));
    assert!(!ch(b'@').is_digit(16));
    assert!(!ch(b'G').is_digit(16));
    assert!(!ch(b'g').is_digit(16));
    assert!(!ch(b' ').is_digit(10));
    assert!(!ch(b'/').is_digit(10));
    assert!(!ch(b':').is_digit(10));
    assert!(!ch(b':').is_digit(11));
}

#[test]
fn char_is_numeric() {
    for byte in b'0'..=b'9' {
        assert!(ch(byte).is_numeric());
    }
    for byte in 0x00..=0x2F {
        assert!(!ch(byte).is_numeric());
    }
    for byte in (0x3A..=0xFF).filter(|b| is_char(*b)) {
        assert!(!ch(byte).is_numeric());
    }
}

#[test]
fn char_is_whitespace() {
    assert!(ch(b' ').is_whitespace());
    assert!(ch(b'\t').is_whitespace());
    assert!(ch(b'\n').is_whitespace());
    assert!(!ch(b'a').is_whitespace());
    assert!(!ch(b'_').is_whitespace());
    assert!(!ch(b'\0').is_whitespace());
    assert!(ch(0xA0).is_whitespace());
    assert!(!ch(0xC6).is_whitespace());
}

#[test]
fn char_is_uppercase() {
    assert!(ch(b'A').is_uppercase());
    assert!(ch(b'Z').is_uppercase());
    assert!(!ch(b'a').is_uppercase());
    assert!(!ch(b'z').is_uppercase());
    assert!(!ch(b'0').is_uppercase());
    assert!(!ch(b'9').is_uppercase());
    assert!(!ch(b'_').is_uppercase());
    assert!(!ch(b'\0').is_uppercase());
    assert!(IsoLatin6Char::try_from('Þ').unwrap().is_uppercase());
    assert!(ch(0xDE).is_uppercase());
    assert!(!ch(0xDF).is_uppercase());
    assert!(!IsoLatin6Char::try_from('·').unwrap().is_uppercase());
}

#[test]
fn char_is_lowercase() {
    assert!(ch(b'a').is_lowercase());
    assert!(ch(b'z').is_lowercase());
    assert!(!ch(b'A').is_lowercase());
    assert!(!ch(b'Z').is_lowercase());
    assert!(!ch(b'0').is_lowercase());
    assert!(!ch(b'9').is_lowercase());
    assert!(!ch(b'_').is_lowercase());
    assert!(!ch(b'\0').is_lowercase());
    assert!(IsoLatin6Char::try_from('þ').unwrap().is_lowercase());
    assert!(ch(0xDF).is_lowercase());
    assert!(IsoLatin6Char::try_from('ß').unwrap().is_lowercase());
    assert!(ch(0xE0).is_lowercase());
    assert!(!IsoLatin6Char::try_from(' ').unwrap().is_lowercase());
}

#[test]
fn char_is_ascii() {
    assert!(IsoLatin6Char::try_from('a').unwrap().is_ascii());
    assert!(!IsoLatin6Char::try_from('æ').unwrap().is_ascii());
}

#[test]
fn char_debug() {
    let upcase_a = ch(0x41);
    assert_eq!(upcase_a.to_debug_string(), "'A'");

    let upcase_ash = ch(0xC6);
    assert_eq!(upcase_ash.to_debug_string(), "'Æ'");

    let upcase_acaudata = ch(0xA1);
    assert_eq!(upcase_acaudata.to_debug_string(), "'Ą'");
}

#[test]
fn char_display() {
    let upcase_a = ch(0x41);
    assert_eq!(upcase_a.to_display_string(), "A");

    let upcase_ash = ch(0xC6);
    assert_eq!(upcase_ash.to_display_string(), "Æ");

    let upcase_acaudata = ch(0xA1);
    assert_eq!(upcase_acaudata.to_display_string(), "Ą");
}

#[test]
fn char_lowerhex() {
    for byte in (0x00..=0xFF).filter(|b| is_char(*b)) {
        let char = ch(byte);
        assert_eq!(char.to_lower_hex(), format!("{:x}", byte));
    }
}

#[test]
fn char_upperhex() {
    for byte in (0x00..=0xFF).filter(|b| is_char(*b)) {
        let char = ch(byte);
        assert_eq!(char.to_upper_hex(), format!("{:X}", byte));
    }
}

#[test]
fn char_from_self_to_u8() {
    for byte in (0x00..=0xFF).filter(|b| is_char(*b)) {
        let char = ch(byte);
        assert_eq!(u8::from(char), byte);
    }
}

#[test]
fn char_from_self_to_char() {
    for (byte, char) in (0xA0..=0xFF).zip(LAST_PART_OF_ISO8859) {
        let isochar = ch(byte);
        assert_eq!(char::from(isochar), char);
    }
    for byte in 0x00..=0x7F {
        assert_eq!(char::from(ch(byte)) as u32, byte as u32);
    }
}

#[test]
fn char_try_from_u8_to_self() {
    for byte in 0x00..=0x7F {
        assert!(IsoLatin6Char::try_from(byte).is_ok(), "0x{byte:x}");
    }

    for byte in 0x80..=0x9F {
        assert_eq!(
            IsoLatin6Char::try_from(byte),
            Err(IsoLatin6CharError::Undefined),
            "{byte:x}"
        );
    }

    for byte in 0xA0..=0xFF {
        assert!(IsoLatin6Char::try_from(byte).is_ok(), "0x{byte:x}");
    }
}

#[test]
fn char_try_from_char_to_self() {
    for char in '\u{00}'..='\u{7F}' {
        assert!(IsoLatin6Char::try_from(char).is_ok(), "{char}");
    }

    for char in '\u{80}'..='\u{9F}' {
        assert_eq!(
            IsoLatin6Char::try_from(char),
            Err(IsoLatin6CharError::Invalid),
            "{char}"
        );
    }

    for (char, byte) in LAST_PART_OF_ISO8859.into_iter().zip(0xA0..=0xFF) {
        assert_eq!(
            IsoLatin6Char::try_from(char),
            Ok(ch(byte)),
            "{char} x {}; {byte:x}",
            ch(byte).to_display_string()
        );
    }
}

#[test]
fn map_byte_to_char_decodes() {
    assert_eq!(map_byte_to_char(0x41), Ok('A'));
    assert_eq!(map_byte_to_char(0x00), Ok('\0'));
    assert_eq!(map_byte_to_char(0xC6), Ok('Æ'));
    assert_eq!(map_byte_to_char(0xBD), Ok('―'));
    assert_eq!(map_byte_to_char(0xFF), Ok('ĸ'));
    assert_eq!(map_byte_to_char(0x80), Err(IsoLatin6CharError::Undefined));
    assert_eq!(map_byte_to_char(0x9F), Err(IsoLatin6CharError::Undefined));
}

#[test]
fn map_char_to_byte_encodes() {
    assert_eq!(map_char_to_byte('A'), Ok(0x41));
    assert_eq!(map_char_to_byte('Ą'), Ok(0xA1));
    assert_eq!(map_char_to_byte('―'), Ok(0xBD));
    assert_eq!(map_char_to_byte('\u{85}'), Err(IsoLatin6CharError::Invalid));
    // In Latin-1 but not in Latin-6.
    assert_eq!(map_char_to_byte('¤'), Err(IsoLatin6CharError::Invalid));
    assert_eq!(map_char_to_byte('€'), Err(IsoLatin6CharError::Invalid));
    assert_eq!(map_char_to_byte('\u{2100}'), Err(IsoLatin6CharError::Invalid));
    // Past the 16-bit range, whose low bits would read as 'A'.
    assert_eq!(map_char_to_byte('\u{10041}'), Err(IsoLatin6CharError::Invalid));
}

#[test]
fn byte_round_trip() {
    for byte in 0x00..=0xFF {
        if let Ok(c) = map_byte_to_char(byte) {
            assert_eq!(map_char_to_byte(c), Ok(byte));
        } else {
            assert!((0x80..=0x9F).contains(&byte));
        }
    }
}
