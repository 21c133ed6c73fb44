use iso8859::{Alignment, IsoLatin6CharError, IsoLatin6Str};

#[test]
fn test_name() {
    let bytes = [0x41, 0xC6, 0x42, 0xA1];
    let s = IsoLatin6Str::from_iso8859_10(&bytes).unwrap();
    assert_eq!(s.len(), 4);
    assert!(!s.is_empty());
    assert_eq!(s.as_bytes(), &bytes[..]);
    assert_eq!(u8::from(s.char_at(1)), 0xC6);

    let sub = s.get(1, 3).unwrap();
    assert_eq!(sub.as_bytes(), &[0xC6, 0x42][..]);
    assert!(s.get(3, 2).is_none());
    assert!(s.get(0, 5).is_none());
    assert!(s.get(4, 4).unwrap().is_empty());
    assert_eq!(s.get_unchecked(2, 4).to_display_string(), "BĄ");

    let empty = IsoLatin6Str::from_iso8859_10(&[]).unwrap();
    assert!(empty.is_empty());
}

#[test]
fn str_rejects_undefined_bytes() {
    let err = match IsoLatin6Str::from_iso8859_10(&[0x41, 0x42, 0x87, 0x44]) {
        Err(e) => e,
        Ok(_) => panic!("0x87 was accepted"),
    };
    assert_eq!(err.valid_up_to(), 2);
    assert_eq!(err.error(), IsoLatin6CharError::Undefined);
}

#[test]
fn str_display() {
    let bytes = [0xC6];
    let s = IsoLatin6Str::from_iso8859_10(&bytes).unwrap();
    assert_eq!(s.to_display_string(), "Æ");
    assert_eq!(s.to_debug_string(), "\"Æ\"");

    let bytes = [0x41, 0xA1, 0xBD, 0xFF];
    let s = IsoLatin6Str::from_iso8859_10(&bytes).unwrap();
    assert_eq!(s.to_display_string(), "AĄ―ĸ");
}

#[test]
fn str_padded() {
    let bytes = [0x41, 0xC6];
    let s = IsoLatin6Str::from_iso8859_10(&bytes).unwrap();
    assert_eq!(s.to_padded_string(Some(Alignment::Left), Some(5), '*'), "AÆ***");
    assert_eq!(s.to_padded_string(Some(Alignment::Right), Some(5), '*'), "***AÆ");
    assert_eq!(s.to_padded_string(Some(Alignment::Center), Some(5), '*'), "*AÆ**");
    assert_eq!(s.to_padded_string(Some(Alignment::Center), Some(6), ' '), "  AÆ  ");
    assert_eq!(s.to_padded_string(Some(Alignment::Left), Some(1), '*'), "AÆ");
    assert_eq!(s.to_padded_string(Some(Alignment::Left), None, '*'), "AÆ");
    assert_eq!(s.to_padded_string(None, Some(5), '*'), "AÆ");
    for width in 3..10 {
        for align in [Alignment::Left, Alignment::Right, Alignment::Center] {
            let out = s.to_padded_string(Some(align), Some(width), '-');
            assert_eq!(out.chars().count(), width);
        }
    }
}
