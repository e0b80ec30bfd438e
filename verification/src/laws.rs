//! What holds between the conversions, the length and the order.

use vstd::prelude::*;
use vstd::std_specs::cmp::PartialOrdSpec;
use vstd::std_specs::convert::FromSpec;
use vstd::utf8::encode_scalar;
use std::cmp::Ordering;
use crate::utf16::{
    char_code, encode_utf16, is_scalar, lemma_decode_encode, lemma_decode_injective,
    lemma_encode_decode,
};
use crate::utf16_char::Utf16Char;
use crate::utf8_char::{lemma_decode_encode_utf8, Utf8Char};

verus! {

/// A `char` turned into a `Utf16Char` is well formed and stands for the same
/// scalar value, and turning it back gives the same `char`.
pub proof fn law_char_round_trip(c: char)
    ensures
        Utf16Char::from_spec(c).wf(),
        Utf16Char::from_spec(c)@ == encode_utf16(char_code(c)),
        Utf16Char::from_spec(c).scalar() == char_code(c),
        char::from_spec(Utf16Char::from_spec(c)) == c,
{
    lemma_decode_encode(char_code(c));
    Utf16Char::lemma_from_units(encode_utf16(char_code(c)));
}

/// A well-formed `Utf16Char` turned into a `char` and back is the same value.
pub proof fn law_utf16_round_trip(uc: Utf16Char)
    requires
        uc.wf(),
    ensures
        is_scalar(uc.scalar()),
        char_code(char::from_spec(uc)) == uc.scalar(),
        Utf16Char::from_spec(char::from_spec(uc)) == uc,
{
    lemma_encode_decode(uc@);
    uc.lemma_view_injective(uc);
}

/// A `char` encoded as UTF-8 and turned from there into a `Utf16Char` gives
/// what the `char` gives directly, so that the scalar value comes back
/// unchanged.
pub proof fn law_utf8_round_trip(c: char)
    ensures
        Utf8Char::from_spec(c).wf(),
        Utf8Char::from_spec(c)@ == encode_scalar(char_code(c) as u32),
        Utf16Char::from_spec(Utf8Char::from_spec(c)) == Utf16Char::from_spec(c),
        char::from_spec(Utf16Char::from_spec(Utf8Char::from_spec(c))) == c,
{
    lemma_decode_encode_utf8(c as u32);
    Utf8Char::lemma_from_encoding(encode_scalar(c as u32));
    law_char_round_trip(c);
}

/// A well-formed `Utf8Char` turned into a `Utf16Char` is well formed and
/// stands for the scalar value that the UTF-8 bytes decode to.
pub proof fn law_utf8_scalar_kept(utf8: Utf8Char)
    requires
        utf8.wf(),
    ensures
        Utf16Char::from_spec(utf8).wf(),
        Utf16Char::from_spec(utf8)@ == encode_utf16(utf8.scalar()),
        Utf16Char::from_spec(utf8).scalar() == utf8.scalar(),
{
    utf8.lemma_view(utf8);
    lemma_decode_encode(utf8.scalar());
    Utf16Char::lemma_from_units(encode_utf16(utf8.scalar()));
}

/// A scalar value below `0x10000` takes one unit, every other one two.
pub proof fn law_len_by_scalar(c: char)
    ensures
        Utf16Char::from_spec(c)@.len() == (if char_code(c) < 0x10000 {
            1nat
        } else {
            2nat
        }),
{
    law_char_round_trip(c);
    lemma_decode_encode(char_code(c));
}

/// A well-formed value takes one unit exactly when its scalar value is below
/// `0x10000`, and two otherwise.
pub proof fn law_len_of_value(uc: Utf16Char)
    requires
        uc.wf(),
    ensures
        uc@.len() == (if uc.scalar() < 0x10000 {
            1nat
        } else {
            2nat
        }),
{
}

/// The order of two `char`s is the order of their `Utf16Char`s, under `<` and
/// the other comparison operators.
pub proof fn law_order_preserved(a: char, b: char)
    ensures
        char_code(a) < char_code(b) ==> Utf16Char::from_spec(a).partial_cmp_spec(
            &Utf16Char::from_spec(b),
        ) == Some(Ordering::Less),
        char_code(a) == char_code(b) ==> Utf16Char::from_spec(a).partial_cmp_spec(
            &Utf16Char::from_spec(b),
        ) == Some(Ordering::Equal),
        char_code(a) > char_code(b) ==> Utf16Char::from_spec(a).partial_cmp_spec(
            &Utf16Char::from_spec(b),
        ) == Some(Ordering::Greater),
{
    law_char_round_trip(a);
    law_char_round_trip(b);
}

/// Two well-formed values compare as equal exactly when they are the same
/// value, and turning a comparison round turns its result round.
pub proof fn law_order_total(a: Utf16Char, b: Utf16Char)
    requires
        a.wf(),
        b.wf(),
    ensures
        a.scalar_order(b) == Ordering::Equal <==> a == b,
        a.scalar_order(b) == Ordering::Less <==> b.scalar_order(a) == Ordering::Greater,
{
    if a.scalar() == b.scalar() {
        lemma_decode_injective(a@, b@);
    }
    a.lemma_view_injective(b);
}

/// The order is transitive.
pub proof fn law_order_transitive(a: Utf16Char, b: Utf16Char, c: Utf16Char)
    requires
        a.scalar_order(b) == Ordering::Less,
        b.scalar_order(c) == Ordering::Less,
    ensures
        a.scalar_order(c) == Ordering::Less,
{
}

} // verus!
