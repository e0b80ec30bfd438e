use std::cmp::Ordering;
use std::collections::hash_map::DefaultHasher;
use std::hash::{Hash, Hasher};
use utf16_char::Utf16Char;

fn u(v: u32) -> Utf16Char {
    Utf16Char::from(char::from_u32(v).unwrap())
}

#[test]
fn pairs_compare_above_single_units() {
    assert_eq!(u(0xFFFF).cmp(&u(0x10000)), Ordering::Less);
    assert_eq!(u(0x10000).cmp(&u(0xFFFF)), Ordering::Greater);
    assert_eq!(u(0xE000).cmp(&u(0x10000)), Ordering::Less);
    assert_eq!(u(0xE000).cmp(&u(0x10FFFF)), Ordering::Less);
    assert!(u(0xFFFF) < u(0x1F600));
    assert!(u(0x1F600) > u(0xFFFD));
}

#[test]
fn single_units_compare_by_their_unit() {
    assert_eq!(u(0x41).cmp(&u(0x42)), Ordering::Less);
    assert_eq!(u(0x42).cmp(&u(0x41)), Ordering::Greater);
    assert_eq!(u(0xD7FF).cmp(&u(0xE000)), Ordering::Less);
    assert_eq!(u(0).cmp(&u(0)), Ordering::Equal);
    assert_eq!(u(0).cmp(&u(1)), Ordering::Less);
}

#[test]
fn pairs_compare_by_the_first_unit_and_then_the_second() {
    assert_eq!(u(0x10000).cmp(&u(0x10001)), Ordering::Less);
    assert_eq!(u(0x103FF).cmp(&u(0x10400)), Ordering::Less);
    assert_eq!(u(0x10400).cmp(&u(0x103FF)), Ordering::Greater);
    assert_eq!(u(0x10FFFF).cmp(&u(0x10FFFE)), Ordering::Greater);
    assert_eq!(u(0x1F600).cmp(&u(0x1F600)), Ordering::Equal);
}

#[test]
fn neighbouring_scalar_values_compare_in_order() {
    let mut previous: Option<Utf16Char> = None;
    for v in 0..=0x10FFFFu32 {
        if let Some(c) = char::from_u32(v) {
            let current = Utf16Char::from(c);
            if let Some(p) = previous {
                assert_eq!(p.cmp(&current), Ordering::Less);
                assert_eq!(current.cmp(&p), Ordering::Greater);
                assert!(p < current);
                assert!(p != current);
            }
            assert_eq!(current.cmp(&current), Ordering::Equal);
            previous = Some(current);
        }
    }
}

#[test]
fn the_order_is_that_of_char_on_a_sample() {
    let sample = [
        0x0u32, 0x1, 0x41, 0x7F, 0x80, 0x7FF, 0x800, 0xD7FF, 0xE000, 0xFFFD, 0xFFFF, 0x10000,
        0x10001, 0x103FF, 0x10400, 0x1F600, 0xFFFFF, 0x100000, 0x10FFFE, 0x10FFFF,
    ];
    for a in sample {
        for b in sample {
            let (ca, cb) = (char::from_u32(a).unwrap(), char::from_u32(b).unwrap());
            assert_eq!(u(a).cmp(&u(b)), ca.cmp(&cb));
            assert_eq!(u(a).partial_cmp(&u(b)), Some(ca.cmp(&cb)));
            assert_eq!(u(a) < u(b), ca < cb);
            assert_eq!(u(a) <= u(b), ca <= cb);
            assert_eq!(u(a) > u(b), ca > cb);
            assert_eq!(u(a) >= u(b), ca >= cb);
            assert_eq!(u(a) == u(b), ca == cb);
        }
    }
}

#[test]
fn sorting_by_cmp_sorts_by_scalar_value() {
    let mut values = vec![u(0x1F600), u(0xFFFF), u(0x41), u(0x10000), u(0xE000), u(0xD7FF)];
    values.sort_by(|a, b| a.cmp(b));
    let chars: Vec<u32> = values.iter().map(|c| c.to_char() as u32).collect();
    assert_eq!(chars, vec![0x41, 0xD7FF, 0xE000, 0xFFFF, 0x10000, 0x1F600]);
}

#[test]
fn equal_values_are_equal_and_hash_alike() {
    let a = Utf16Char::from('\u{1F600}');
    let (b, _) = Utf16Char::from_slice(&[0xD83D, 0xDE00]).unwrap();
    let c = Utf16Char::from_tuple((0xD83D, Some(0xDE00))).unwrap();
    assert_eq!(a, b);
    assert_eq!(b, c);
    assert_ne!(a, Utf16Char::from('\u{1F601}'));
    assert_ne!(Utf16Char::from('\u{D7FF}'), a);
    let hash = |x: Utf16Char| {
        let mut h = DefaultHasher::new();
        x.hash(&mut h);
        h.finish()
    };
    assert_eq!(hash(a), hash(b));
    assert_eq!(hash(a), hash(c));
}

#[test]
fn a_copy_is_equal_to_its_source() {
    let a = Utf16Char::from('\u{10FFFF}');
    let b = a;
    let c = a.clone();
    assert_eq!(a, b);
    assert_eq!(a, c);
}
