use utf16_char::{Utf16Char, Utf8Char};

fn bytes(c: Utf8Char) -> Vec<u8> {
    let (array, len) = c.to_array();
    array[..len].to_vec()
}

#[test]
fn a_char_is_stored_as_its_utf8_bytes() {
    assert_eq!(bytes(Utf8Char::from('A')), vec![0x41]);
    assert_eq!(bytes(Utf8Char::from('\u{E9}')), vec![0xC3, 0xA9]);
    assert_eq!(bytes(Utf8Char::from('\u{20AC}')), vec![0xE2, 0x82, 0xAC]);
    assert_eq!(bytes(Utf8Char::from('\u{1F600}')), vec![0xF0, 0x9F, 0x98, 0x80]);
}

#[test]
fn the_bytes_are_those_of_std_for_every_char() {
    let mut buf = [0u8; 4];
    for v in 0..=0x10FFFFu32 {
        if let Some(c) = char::from_u32(v) {
            let expected = c.encode_utf8(&mut buf).as_bytes().to_vec();
            let u = Utf8Char::from(c);
            assert_eq!(bytes(u), expected);
            assert_eq!(u.len(), c.len_utf8());
        }
    }
}

#[test]
fn to_array_pads_with_zero_bytes() {
    assert_eq!(Utf8Char::from('A').to_array(), ([0x41, 0, 0, 0], 1));
    assert_eq!(Utf8Char::from('\u{E9}').to_array(), ([0xC3, 0xA9, 0, 0], 2));
    assert_eq!(Utf8Char::from('\u{20AC}').to_array(), ([0xE2, 0x82, 0xAC, 0], 3));
    assert_eq!(Utf8Char::from('\u{1F600}').to_array(), ([0xF0, 0x9F, 0x98, 0x80], 4));
    assert_eq!(Utf8Char::from('\0').to_array(), ([0, 0, 0, 0], 1));
}

#[test]
fn utf8_len_is_one_to_four() {
    assert_eq!(Utf8Char::from('\0').len(), 1);
    assert_eq!(Utf8Char::from('\u{7F}').len(), 1);
    assert_eq!(Utf8Char::from('\u{80}').len(), 2);
    assert_eq!(Utf8Char::from('\u{7FF}').len(), 2);
    assert_eq!(Utf8Char::from('\u{800}').len(), 3);
    assert_eq!(Utf8Char::from('\u{FFFF}').len(), 3);
    assert_eq!(Utf8Char::from('\u{10000}').len(), 4);
    assert_eq!(Utf8Char::from('\u{10FFFF}').len(), 4);
}

#[test]
fn from_slice_start_reads_the_first_codepoint() {
    let (c, n) = Utf8Char::from_slice_start(&[0x41, 0x42]).unwrap();
    assert_eq!((bytes(c), n), (vec![0x41], 1));
    let (c, n) = Utf8Char::from_slice_start(&[0xC3, 0xA9, 0xFF]).unwrap();
    assert_eq!((bytes(c), n), (vec![0xC3, 0xA9], 2));
    let (c, n) = Utf8Char::from_slice_start(&[0xE2, 0x82, 0xAC]).unwrap();
    assert_eq!((bytes(c), n), (vec![0xE2, 0x82, 0xAC], 3));
    let (c, n) = Utf8Char::from_slice_start(&[0xF0, 0x9F, 0x98, 0x80, 0x80]).unwrap();
    assert_eq!((bytes(c), n), (vec![0xF0, 0x9F, 0x98, 0x80], 4));
    assert_eq!(c, Utf8Char::from('\u{1F600}'));
}

#[test]
fn from_slice_start_refuses_what_is_not_utf8() {
    assert_eq!(Utf8Char::from_slice_start(&[]), None);
    assert_eq!(Utf8Char::from_slice_start(&[0x80]), None);
    assert_eq!(Utf8Char::from_slice_start(&[0xBF, 0x80]), None);
    assert_eq!(Utf8Char::from_slice_start(&[0xC3]), None);
    assert_eq!(Utf8Char::from_slice_start(&[0xC3, 0x41]), None);
    assert_eq!(Utf8Char::from_slice_start(&[0xC3, 0xC3]), None);
    assert_eq!(Utf8Char::from_slice_start(&[0xE2, 0x82]), None);
    assert_eq!(Utf8Char::from_slice_start(&[0xE2, 0x82, 0x41]), None);
    assert_eq!(Utf8Char::from_slice_start(&[0xF0, 0x9F, 0x98]), None);
    assert_eq!(Utf8Char::from_slice_start(&[0xF0, 0x9F, 0x98, 0x00]), None);
    assert_eq!(Utf8Char::from_slice_start(&[0xF8, 0x80, 0x80, 0x80]), None);
    assert_eq!(Utf8Char::from_slice_start(&[0xFF]), None);
}

#[test]
fn from_slice_start_refuses_overlong_encodings() {
    assert_eq!(Utf8Char::from_slice_start(&[0xC0, 0x80]), None);
    assert_eq!(Utf8Char::from_slice_start(&[0xC1, 0xBF]), None);
    assert_eq!(Utf8Char::from_slice_start(&[0xE0, 0x80, 0x80]), None);
    assert_eq!(Utf8Char::from_slice_start(&[0xE0, 0x9F, 0xBF]), None);
    assert_eq!(Utf8Char::from_slice_start(&[0xF0, 0x80, 0x80, 0x80]), None);
    assert_eq!(Utf8Char::from_slice_start(&[0xF0, 0x8F, 0xBF, 0xBF]), None);
}

#[test]
fn from_slice_start_refuses_surrogates_and_what_lies_above_the_last_scalar_value() {
    assert_eq!(Utf8Char::from_slice_start(&[0xED, 0xA0, 0x80]), None);
    assert_eq!(Utf8Char::from_slice_start(&[0xED, 0xBF, 0xBF]), None);
    assert_eq!(Utf8Char::from_slice_start(&[0xF4, 0x90, 0x80, 0x80]), None);
    assert_eq!(Utf8Char::from_slice_start(&[0xF7, 0xBF, 0xBF, 0xBF]), None);
    assert!(Utf8Char::from_slice_start(&[0xED, 0x9F, 0xBF]).is_some());
    assert!(Utf8Char::from_slice_start(&[0xEE, 0x80, 0x80]).is_some());
    assert!(Utf8Char::from_slice_start(&[0xF4, 0x8F, 0xBF, 0xBF]).is_some());
}

#[test]
fn from_slice_start_agrees_with_std_on_all_short_inputs() {
    let interesting = [
        0x00u8, 0x41, 0x7F, 0x80, 0x8F, 0x90, 0x9F, 0xA0, 0xBF, 0xC0, 0xC1, 0xC2, 0xDF, 0xE0, 0xE1,
        0xEC, 0xED, 0xEE, 0xEF, 0xF0, 0xF1, 0xF3, 0xF4, 0xF5, 0xF7, 0xF8, 0xFF,
    ];
    for a in interesting {
        for b in interesting {
            for c in interesting {
                for d in interesting {
                    let input = [a, b, c, d];
                    let expected = match std::str::from_utf8(&input) {
                        Ok(s) => s.chars().next(),
                        Err(e) if e.valid_up_to() > 0 => {
                            std::str::from_utf8(&input[..e.valid_up_to()]).unwrap().chars().next()
                        }
                        Err(_) => None,
                    };
                    let got = Utf8Char::from_slice_start(&input);
                    assert_eq!(got.map(|(u, _)| u), expected.map(Utf8Char::from));
                    assert_eq!(got.map(|(_, n)| n), expected.map(char::len_utf8));
                }
            }
        }
    }
}

#[test]
fn one_utf8_byte_becomes_one_unit() {
    assert_eq!(Utf16Char::from(Utf8Char::from('A')).as_slice(), &[0x0041]);
    assert_eq!(Utf16Char::from(Utf8Char::from('\0')).as_slice(), &[0x0000]);
    assert_eq!(Utf16Char::from(Utf8Char::from('\u{7F}')).as_slice(), &[0x007F]);
}

#[test]
fn two_and_three_utf8_bytes_become_one_unit() {
    assert_eq!(Utf16Char::from(Utf8Char::from('\u{80}')).as_slice(), &[0x0080]);
    assert_eq!(Utf16Char::from(Utf8Char::from('\u{E9}')).as_slice(), &[0x00E9]);
    assert_eq!(Utf16Char::from(Utf8Char::from('\u{7FF}')).as_slice(), &[0x07FF]);
    assert_eq!(Utf16Char::from(Utf8Char::from('\u{800}')).as_slice(), &[0x0800]);
    assert_eq!(Utf16Char::from(Utf8Char::from('\u{20AC}')).as_slice(), &[0x20AC]);
    assert_eq!(Utf16Char::from(Utf8Char::from('\u{FFFF}')).as_slice(), &[0xFFFF]);
}

#[test]
fn four_utf8_bytes_become_a_surrogate_pair() {
    assert_eq!(Utf16Char::from(Utf8Char::from('\u{10000}')).as_slice(), &[0xD800, 0xDC00]);
    assert_eq!(Utf16Char::from(Utf8Char::from('\u{1F600}')).as_slice(), &[0xD83D, 0xDE00]);
    assert_eq!(Utf16Char::from(Utf8Char::from('\u{10FFFF}')).as_slice(), &[0xDBFF, 0xDFFF]);
}

#[test]
fn validated_utf8_bytes_become_the_units_of_their_scalar_value() {
    let (euro, _) = Utf8Char::from_slice_start(&[0xE2, 0x82, 0xAC]).unwrap();
    assert_eq!(Utf16Char::from(euro).to_char(), '\u{20AC}');
    let (face, _) = Utf8Char::from_slice_start(&[0xF0, 0x9F, 0x98, 0x80]).unwrap();
    assert_eq!(Utf16Char::from(face).to_char(), '\u{1F600}');
    assert_eq!(Utf16Char::from(face).as_slice(), &[0xD83D, 0xDE00]);
}

#[test]
fn every_char_comes_back_through_utf8_and_utf16() {
    for v in 0..=0x10FFFFu32 {
        if let Some(c) = char::from_u32(v) {
            let through = Utf16Char::from(Utf8Char::from(c));
            assert_eq!(through, Utf16Char::from(c));
            assert_eq!(through.to_char(), c);
        }
    }
}

#[test]
fn equal_utf8_values_are_equal() {
    let (a, _) = Utf8Char::from_slice_start(&[0xC3, 0xA9, 0x41]).unwrap();
    assert_eq!(a, Utf8Char::from('\u{E9}'));
    assert_ne!(a, Utf8Char::from('\u{EA}'));
    assert_ne!(Utf8Char::from('A'), Utf8Char::from('a'));
}
