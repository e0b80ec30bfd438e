//! The UTF-16 encoding of one scalar value, as mathematics.

use vstd::prelude::*;

verus! {

/// `u` lies in the surrogate range `0xD800..=0xDFFF`.
pub open spec fn is_surrogate(u: u16) -> bool {
    0xD800 <= u <= 0xDFFF
}

/// `u` is a leading (high) surrogate, `0xD800..=0xDBFF`.
pub open spec fn is_leading_surrogate(u: u16) -> bool {
    0xD800 <= u <= 0xDBFF
}

/// `u` is a trailing (low) surrogate, `0xDC00..=0xDFFF`.
pub open spec fn is_trailing_surrogate(u: u16) -> bool {
    0xDC00 <= u <= 0xDFFF
}

/// `v` is a Unicode scalar value: at most `0x10FFFF` and no surrogate.
pub open spec fn is_scalar(v: int) -> bool {
    0 <= v <= 0x10FFFF && !(0xD800 <= v <= 0xDFFF)
}

/// The number that a `char` stands for.
pub open spec fn char_code(c: char) -> int {
    c as int
}

/// The code units that encode the scalar value `v`: one unit below
/// `0x10000`, a surrogate pair from there on.
pub open spec fn encode_utf16(v: int) -> Seq<u16> {
    if v < 0x10000 {
        seq![v as u16]
    } else {
        seq![
            (0xD800 + (v - 0x10000) / 0x400) as u16,
            (0xDC00 + (v - 0x10000) % 0x400) as u16,
        ]
    }
}

/// `units` is exactly the encoding of one scalar value: a single unit that
/// is no surrogate, or a leading surrogate followed by a trailing one.
pub open spec fn is_utf16_char(units: Seq<u16>) -> bool {
    ||| units.len() == 1 && !is_surrogate(units[0])
    ||| units.len() == 2 && is_leading_surrogate(units[0]) && is_trailing_surrogate(units[1])
}

/// The scalar value that `units` encodes.
pub open spec fn decode_utf16(units: Seq<u16>) -> int {
    if units.len() == 1 {
        units[0] as int
    } else {
        0x10000 + (units[0] - 0xD800) * 0x400 + (units[1] - 0xDC00)
    }
}

/// `units` begins with the encoding of a scalar value.
pub open spec fn starts_with_utf16_char(units: Seq<u16>) -> bool {
    ||| units.len() >= 1 && !is_surrogate(units[0])
    ||| units.len() >= 2 && is_leading_surrogate(units[0]) && is_trailing_surrogate(units[1])
}

/// The units that a first unit and an optional second one put together.
pub open spec fn tuple_units(pair: (u16, Option<u16>)) -> Seq<u16> {
    match pair.1 {
        Some(second) => seq![pair.0, second],
        None => seq![pair.0],
    }
}

/// The units with an ASCII lower-case letter replaced by its upper-case
/// letter.
pub open spec fn ascii_uppercase(units: Seq<u16>) -> Seq<u16> {
    if 0x61 <= units[0] <= 0x7A {
        seq![(units[0] - 0x20) as u16]
    } else {
        units
    }
}

/// The units with an ASCII upper-case letter replaced by its lower-case
/// letter.
pub open spec fn ascii_lowercase(units: Seq<u16>) -> Seq<u16> {
    if 0x41 <= units[0] <= 0x5A {
        seq![(units[0] + 0x20) as u16]
    } else {
        units
    }
}

/// A number by which encoded values compare as their scalar values do: the
/// unit itself for a single unit and, for a pair, the first unit moved up by
/// thirteen bits plus the second.
pub open spec fn order_key(units: Seq<u16>) -> int {
    if units.len() == 1 {
        units[0] as int
    } else {
        units[0] * 0x2000 + units[1]
    }
}

/// Every scalar value has a well-formed encoding, of one unit below `0x10000`
/// and of two from there on, and decoding it gives the value back.
pub proof fn lemma_decode_encode(v: int)
    requires
        is_scalar(v),
    ensures
        is_utf16_char(encode_utf16(v)),
        decode_utf16(encode_utf16(v)) == v,
        encode_utf16(v).len() == (if v < 0x10000 { 1nat } else { 2nat }),
{
}

/// Every well-formed encoding decodes to a scalar value, whose encoding it is.
pub proof fn lemma_encode_decode(units: Seq<u16>)
    requires
        is_utf16_char(units),
    ensures
        is_scalar(decode_utf16(units)),
        encode_utf16(decode_utf16(units)) == units,
{
}

/// Two well-formed encodings of the same scalar value are the same units.
pub proof fn lemma_decode_injective(a: Seq<u16>, b: Seq<u16>)
    requires
        is_utf16_char(a),
        is_utf16_char(b),
        decode_utf16(a) == decode_utf16(b),
    ensures
        a == b,
{
    lemma_encode_decode(a);
    lemma_encode_decode(b);
}

/// The comparison key orders well-formed encodings exactly as their scalar
/// values: every pair above every single unit, and pairs among themselves by
/// the first unit, then the second.
pub proof fn lemma_order_key(a: Seq<u16>, b: Seq<u16>)
    requires
        is_utf16_char(a),
        is_utf16_char(b),
    ensures
        order_key(a) < order_key(b) <==> decode_utf16(a) < decode_utf16(b),
        order_key(a) == order_key(b) <==> decode_utf16(a) == decode_utf16(b),
        0 <= order_key(a) < 0x1C00_0000,
{
}

} // verus!
