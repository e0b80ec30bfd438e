//! The value type: one scalar value stored as one or two UTF-16 code units.

use std::cmp::Ordering;
use vstd::prelude::*;
use vstd::slice::slice_subrange;
use vstd::utf8::{
    codepoint_width_1, codepoint_width_2, codepoint_width_3, codepoint_width_4,
    is_leading_byte_width_1, is_leading_byte_width_3,
};
use crate::errors::{InvalidUtf16Slice, InvalidUtf16Tuple};
use crate::utf16::{
    ascii_lowercase, ascii_uppercase, char_code, decode_utf16, encode_utf16,
    is_leading_surrogate, is_scalar, is_surrogate, is_trailing_surrogate, is_utf16_char,
    lemma_decode_encode, lemma_order_key, order_key, starts_with_utf16_char, tuple_units,
};
use crate::utf8_char::Utf8Char;

verus! {

/// `char::from_u32` gives the `char` with the code `i` when `i` is a scalar
/// value, and `None` for a surrogate or a number above `0x10FFFF`.
pub assume_specification[ char::from_u32 ](i: u32) -> (r: Option<char>)
    ensures
        r is Some <==> is_scalar(i as int),
        r matches Some(c) ==> char_code(c) == i,
;

/// A Unicode scalar value stored as UTF-16: one code unit, or a surrogate
/// pair. It has the size of a `char`.
///
/// Its view is the sequence of its one or two code units. The second stored
/// unit is zero exactly when the value takes a single unit.
#[derive(Clone, Copy, Eq, Hash, Debug)]
pub struct Utf16Char {
    units: [u16; 2],
}

impl View for Utf16Char {
    type V = Seq<u16>;

    closed spec fn view(&self) -> Seq<u16> {
        if self.units[1] == 0 {
            seq![self.units[0]]
        } else {
            seq![self.units[0], self.units[1]]
        }
    }
}

impl Utf16Char {
    /// The units are the encoding of exactly one scalar value. This holds of
    /// every value that a program can have.
    #[verifier::type_invariant]
    pub open spec fn wf(self) -> bool {
        is_utf16_char(self@)
    }

    /// The value whose code units are `units`.
    pub closed spec fn from_units(units: Seq<u16>) -> Utf16Char {
        Utf16Char { units: [units[0], if units.len() == 2 { units[1] } else { 0u16 }] }
    }

    /// The scalar value that the units encode.
    pub open spec fn scalar(self) -> int {
        decode_utf16(self@)
    }

    /// How two values compare: as their scalar values do.
    pub open spec fn scalar_order(self, rhs: Utf16Char) -> Ordering {
        if self.scalar() < rhs.scalar() {
            Ordering::Less
        } else if self.scalar() == rhs.scalar() {
            Ordering::Equal
        } else {
            Ordering::Greater
        }
    }

    /// `from_units` and the view undo each other on well-formed encodings.
    pub proof fn lemma_from_units(units: Seq<u16>)
        requires
            is_utf16_char(units),
        ensures
            Utf16Char::from_units(units)@ == units,
            Utf16Char::from_units(units).wf(),
    {
    }

    /// A value is determined by its view.
    pub proof fn lemma_view_injective(self, other: Utf16Char)
        ensures
            self@ == other@ <==> self == other,
            Utf16Char::from_units(self@) == self,
    {
        if self@ == other@ {
            assert(self@[0] == other@[0]);
            if self@.len() == 2 {
                assert(self@[1] == other@[1]);
            }
            assert(self.units =~= other.units);
        }
        assert(Utf16Char::from_units(self@).units =~= self.units);
    }

    /// Puts two stored units together.
    pub(crate) fn new(first: u16, second: u16) -> (r: Utf16Char)
        requires
            is_utf16_char(if second == 0 { seq![first] } else { seq![first, second] }),
        ensures
            r@ == (if second == 0 { seq![first] } else { seq![first, second] }),
            r == Utf16Char::from_units(r@),
    {
        let r = Utf16Char { units: [first, second] };
        proof {
            r.lemma_view_injective(r);
        }
        r
    }

    /// Returns 1 or 2: the number of code units.
    /// There is no `is_empty` because it would always return false.
    pub fn len(self) -> (n: usize)
        ensures
            n == self@.len(),
            1 <= n <= 2,
    {
        proof {
            use_type_invariant(&self);
        }
        let second: u16 = self.units[1];
        assert(second >> 15 == (if second == 0 { 0u16 } else { 1u16 })) by (bit_vector)
            requires
                second == 0 || 0xDC00 <= second <= 0xDFFF,
        ;
        1 + ((second >> 15) as usize)
    }

    /// Converts from UTF-16 to UTF-32.
    pub fn to_char(self) -> (c: char)
        ensures
            char_code(c) == self.scalar(),
    {
        proof {
            use_type_invariant(&self);
        }
        let first: u32 = self.units[0] as u32;
        let second: u32 = self.units[1] as u32;
        let v: u32 = if second == 0 {
            first
        } else {
            let high: u32 = first - 0xD800;
            assert(high << 10 == high * 0x400) by (bit_vector)
                requires
                    high < 0x400,
            ;
            0x10000 + (high << 10) + (second - 0xDC00)
        };
        assert(v == decode_utf16(self@));
        match char::from_u32(v) {
            Some(c) => c,
            None => vstd::pervasive::unreached(),
        }
    }

    /// Validates and stores the first UTF-16 codepoint in the slice.
    /// Also returns how many units were needed.
    pub fn from_slice(src: &[u16]) -> (r: Result<(Utf16Char, usize), InvalidUtf16Slice>)
        ensures
            r is Ok <==> starts_with_utf16_char(src@),
            match r {
                Ok((c, n)) => n == c@.len() && n <= src@.len() && c@ == src@.take(n as int)
                    && c.wf(),
                Err(InvalidUtf16Slice::EmptySlice) => src@.len() == 0,
                Err(InvalidUtf16Slice::FirstLowSurrogate) => src@.len() >= 1
                    && is_trailing_surrogate(src@[0]),
                Err(InvalidUtf16Slice::MissingSecond) => src@.len() == 1 && is_leading_surrogate(
                    src@[0],
                ),
                Err(InvalidUtf16Slice::SecondNotLowSurrogate) => src@.len() >= 2
                    && is_leading_surrogate(src@[0]) && !is_trailing_surrogate(src@[1]),
            },
    {
        if src.len() == 0 {
            return Err(InvalidUtf16Slice::EmptySlice);
        }
        let first: u16 = src[0];
        if first < 0xD800 || first > 0xDFFF {
            let c = Utf16Char::new(first, 0);
            assert(c@ =~= src@.take(1));
            Ok((c, 1))
        } else if first >= 0xDC00 {
            Err(InvalidUtf16Slice::FirstLowSurrogate)
        } else if src.len() < 2 {
            Err(InvalidUtf16Slice::MissingSecond)
        } else {
            let second: u16 = src[1];
            if second < 0xDC00 || second > 0xDFFF {
                Err(InvalidUtf16Slice::SecondNotLowSurrogate)
            } else {
                let c = Utf16Char::new(first, second);
                assert(c@ =~= src@.take(2));
                Ok((c, 2))
            }
        }
    }

    /// Validates and stores a first unit with an optional second one, as
    /// `to_tuple` returns them.
    pub fn from_tuple(utf16: (u16, Option<u16>)) -> (r: Result<Utf16Char, InvalidUtf16Tuple>)
        ensures
            r is Ok <==> is_utf16_char(tuple_units(utf16)),
            match r {
                Ok(c) => c@ == tuple_units(utf16) && c.wf(),
                Err(InvalidUtf16Tuple::FirstIsTrailingSurrogate) => is_trailing_surrogate(utf16.0),
                Err(InvalidUtf16Tuple::SuperfluousSecond) => !is_surrogate(utf16.0)
                    && utf16.1 is Some,
                Err(InvalidUtf16Tuple::MissingSecond) => is_leading_surrogate(utf16.0)
                    && utf16.1 is None,
                Err(InvalidUtf16Tuple::InvalidSecond) => is_leading_surrogate(utf16.0)
                    && utf16.1 is Some && !is_trailing_surrogate(utf16.1->Some_0),
            },
    {
        let first: u16 = utf16.0;
        if first < 0xD800 || first > 0xDFFF {
            match utf16.1 {
                None => Ok(Utf16Char::new(first, 0)),
                Some(_) => Err(InvalidUtf16Tuple::SuperfluousSecond),
            }
        } else if first >= 0xDC00 {
            Err(InvalidUtf16Tuple::FirstIsTrailingSurrogate)
        } else {
            match utf16.1 {
                None => Err(InvalidUtf16Tuple::MissingSecond),
                Some(second) => {
                    if second < 0xDC00 || second > 0xDFFF {
                        Err(InvalidUtf16Tuple::InvalidSecond)
                    } else {
                        Ok(Utf16Char::new(first, second))
                    }
                },
            }
        }
    }

    /// Is this codepoint an ASCII character?
    pub fn is_ascii(&self) -> (r: bool)
        ensures
            r <==> self@[0] < 128,
            r <==> self.scalar() < 128,
    {
        proof {
            use_type_invariant(self);
        }
        self.units[0] <= 127
    }

    /// Writes the units to the front of `dst` and returns how many were
    /// written. The buffer must hold at least `len()` units; one of length
    /// two is always large enough.
    pub fn to_slice(self, dst: &mut [u16]) -> (n: usize)
        requires
            old(dst)@.len() >= self@.len(),
        ensures
            n == self@.len(),
            final(dst)@ == self@ + old(dst)@.skip(n as int),
    {
        proof {
            use_type_invariant(&self);
        }
        let n: usize = self.len();
        if n == 2 {
            dst[1] = self.units[1];
        }
        dst[0] = self.units[0];
        assert(dst@ =~= self@ + old(dst)@.skip(n as int));
        n
    }

    /// The first unit, and the second where the value is a surrogate pair.
    pub fn to_tuple(self) -> (r: (u16, Option<u16>))
        ensures
            tuple_units(r) == self@,
    {
        let first: u16 = self.units[0];
        let r = if self.len() == 2 {
            (first, Some(self.units[1]))
        } else {
            (first, None)
        };
        assert(tuple_units(r) =~= self@);
        r
    }

    /// The units, borrowed as a slice of length `len()`.
    pub fn as_slice(&self) -> (r: &[u16])
        ensures
            r@ == self@,
    {
        let n: usize = self.len();
        let r = slice_subrange(self.units.as_slice(), 0, n);
        assert(r@ =~= self@);
        r
    }

    /// The number that decides the order: the first unit moved up by thirteen
    /// bits where the second is a surrogate, plus the second. This puts the
    /// surrogate pairs above `0xFFFF` and lets the second unit decide only
    /// between equal first units.
    fn packed_key(self) -> (k: u32)
        ensures
            k == order_key(self@),
    {
        proof {
            use_type_invariant(&self);
        }
        let first: u32 = self.units[0] as u32;
        let second: u32 = self.units[1] as u32;
        let shift: u32 = second >> 12;
        assert(shift == (if second == 0 { 0u32 } else { 13u32 })) by (bit_vector)
            requires
                shift == second >> 12,
                second == 0 || 0xDC00 <= second <= 0xDFFF,
        ;
        assert(first << 0 == first) by (bit_vector);
        assert(first << 13 == first * 0x2000) by (bit_vector)
            requires
                first <= 0xFFFF,
        ;
        (first << shift) + second
    }

    /// Compares as `char` does: by scalar value.
    pub fn cmp(&self, rhs: &Utf16Char) -> (r: Ordering)
        ensures
            r == self.scalar_order(*rhs),
    {
        proof {
            use_type_invariant(self);
            use_type_invariant(rhs);
            lemma_order_key(self@, rhs@);
        }
        let left: u32 = self.packed_key();
        let right: u32 = rhs.packed_key();
        if left < right {
            Ordering::Less
        } else if left == right {
            Ordering::Equal
        } else {
            Ordering::Greater
        }
    }

    /// The upper-case letter for an ASCII lower-case letter; every other
    /// value unchanged.
    pub fn to_ascii_uppercase(&self) -> (r: Utf16Char)
        ensures
            r@ == ascii_uppercase(self@),
    {
        proof {
            use_type_invariant(self);
            self.lemma_view_injective(*self);
        }
        let n: u16 = self.units[0].wrapping_sub(0x61);
        if n < 26 {
            Utf16Char::new(n + 0x41, 0)
        } else {
            *self
        }
    }

    /// The lower-case letter for an ASCII upper-case letter; every other
    /// value unchanged.
    pub fn to_ascii_lowercase(&self) -> (r: Utf16Char)
        ensures
            r@ == ascii_lowercase(self@),
    {
        proof {
            use_type_invariant(self);
        }
        let n: u16 = self.units[0].wrapping_sub(0x41);
        if n < 26 {
            Utf16Char::new(n + 0x61, 0)
        } else {
            *self
        }
    }

    /// Are the two values equal once ASCII letters are taken to lower case?
    pub fn eq_ignore_ascii_case(&self, other: &Utf16Char) -> (r: bool)
        ensures
            r <==> ascii_lowercase(self@) == ascii_lowercase(other@),
    {
        self.to_ascii_lowercase() == other.to_ascii_lowercase()
    }

    /// Replaces the value by `to_ascii_uppercase()`.
    pub fn make_ascii_uppercase(&mut self)
        ensures
            final(self)@ == ascii_uppercase(old(self)@),
    {
        *self = self.to_ascii_uppercase()
    }

    /// Replaces the value by `to_ascii_lowercase()`.
    pub fn make_ascii_lowercase(&mut self)
        ensures
            final(self)@ == ascii_lowercase(old(self)@),
    {
        *self = self.to_ascii_lowercase();
    }

    /// The value for a `char`.
    fn encode(c: char) -> (r: Utf16Char)
        ensures
            r@ == encode_utf16(char_code(c)),
            r == Utf16Char::from_units(r@),
    {
        let v: u32 = c as u32;
        proof {
            lemma_decode_encode(v as int);
        }
        if v < 0x10000 {
            Utf16Char::new(v as u16, 0)
        } else {
            let w: u32 = v - 0x10000;
            assert((w >> 10) == w / 0x400 && (w & 0x3FF) == w % 0x400) by (bit_vector);
            Utf16Char::new((0xD800 + (w >> 10)) as u16, (0xDC00 + (w & 0x3FF)) as u16)
        }
    }
}

impl PartialEq for Utf16Char {
    fn eq(&self, other: &Self) -> (r: bool) {
        proof {
            self.lemma_view_injective(*other);
            if self.units[0] == other.units[0] && self.units[1] == other.units[1] {
                assert(self.units =~= other.units);
            }
        }
        self.units[0] == other.units[0] && self.units[1] == other.units[1]
    }
}

impl vstd::std_specs::cmp::PartialEqSpecImpl for Utf16Char {
    open spec fn obeys_eq_spec() -> bool {
        true
    }

    open spec fn eq_spec(&self, other: &Self) -> bool {
        self@ == other@
    }
}

impl Default for Utf16Char {
    /// The value for U+0000.
    fn default() -> (r: Utf16Char)
        ensures
            r@ == seq![0u16],
    {
        Utf16Char::new(0, 0)
    }
}

impl PartialOrd for Utf16Char {
    fn partial_cmp(&self, rhs: &Self) -> (r: Option<Ordering>) {
        Some(self.cmp(rhs))
    }
}

impl vstd::std_specs::cmp::PartialOrdSpecImpl for Utf16Char {
    open spec fn obeys_partial_cmp_spec() -> bool {
        true
    }

    open spec fn partial_cmp_spec(&self, rhs: &Self) -> Option<Ordering> {
        Some(self.scalar_order(*rhs))
    }
}

impl From<char> for Utf16Char {
    fn from(c: char) -> (r: Utf16Char)
        ensures
            r@ == encode_utf16(char_code(c)),
    {
        Utf16Char::encode(c)
    }
}

impl vstd::std_specs::convert::FromSpecImpl<char> for Utf16Char {
    open spec fn obeys_from_spec() -> bool {
        true
    }

    open spec fn from_spec(c: char) -> Utf16Char {
        Utf16Char::from_units(encode_utf16(char_code(c)))
    }
}

/// One, two or three UTF-8 bytes decode to the single unit that their payload
/// bits make up.
proof fn lemma_unit_from_utf8(b0: u8, b1: u8, b2: u8)
    by (bit_vector)
    ensures
        is_leading_byte_width_1(b0) ==> codepoint_width_1(b0) == b0 as u16,
        codepoint_width_2(b0, b1) == ((b0 as u16 & 0x1f) << 6) | (b1 as u16 & 0x3f),
        is_leading_byte_width_3(b0) ==> codepoint_width_3(b0, b1, b2) == ((((b0 as u16 & 0x1f)
            << 6) | (b1 as u16 & 0x3f)) << 6) | (b2 as u16 & 0x3f),
{
}

/// Four UTF-8 bytes that decode to `0x10000` or more: their payload bits,
/// split after the upper eleven, make up the surrogate pair of the scalar
/// value that they decode to.
proof fn lemma_pair_from_utf8(b0: u8, b1: u8, b2: u8, b3: u8)
    by (bit_vector)
    requires
        0x10000 <= codepoint_width_4(b0, b1, b2, b3) <= 0x10FFFF,
    ensures
        ({
            let v = codepoint_width_4(b0, b1, b2, b3);
            let high = (b0 as u16 & 0x07) << 8;
            let mid = (b1 as u16 & 0x3f) << 2;
            let low = (b2 as u16 & 0x30) >> 4;
            let second = 0xdc00u16 | ((b2 as u16 & 0x0f) << 6) | (b3 as u16 & 0x3f);
            &&& high <= 0x700
            &&& mid <= 0xfc
            &&& low <= 0x3
            &&& 0xd7c0 + high + mid + low == 0xd800 + (v - 0x10000) / 0x400
            &&& second == 0xdc00 + (v - 0x10000) % 0x400
        }),
{
}

impl From<Utf8Char> for Utf16Char {
    /// Decodes the UTF-8 bytes straight into units, without the scalar value
    /// in between.
    fn from(utf8: Utf8Char) -> (r: Utf16Char)
        ensures
            r@ == encode_utf16(utf8.scalar()),
    {
        let (b, utf8_len) = utf8.to_array();
        proof {
            lemma_unit_from_utf8(b[0], b[1], b[2]);
        }
        if utf8_len == 1 {
            Utf16Char::new(b[0] as u16, 0)
        } else if utf8_len == 4 {
            // need surrogate
            proof {
                lemma_pair_from_utf8(b[0], b[1], b[2], b[3]);
            }
            let high: u16 = (b[0] as u16 & 0x07) << 8;
            let mid: u16 = (b[1] as u16 & 0x3f) << 2;
            let low: u16 = (b[2] as u16 & 0x30) >> 4;
            let first: u16 = 0xd800 - 0x40 + high + mid + low;
            let second: u16 = 0xdc00 | ((b[2] as u16 & 0x0f) << 6) | (b[3] as u16 & 0x3f);
            Utf16Char::new(first, second)
        } else {
            // 2 or 3
            let mut unit: u16 = ((b[0] as u16 & 0x1f) << 6) | (b[1] as u16 & 0x3f);
            if utf8_len == 3 {
                unit = (unit << 6) | (b[2] as u16 & 0x3f);
            }
            Utf16Char::new(unit, 0)
        }
    }
}

impl vstd::std_specs::convert::FromSpecImpl<Utf8Char> for Utf16Char {
    open spec fn obeys_from_spec() -> bool {
        true
    }

    open spec fn from_spec(utf8: Utf8Char) -> Utf16Char {
        Utf16Char::from_units(encode_utf16(utf8.scalar()))
    }
}

impl From<Utf16Char> for char {
    fn from(uc: Utf16Char) -> (c: char)
        ensures
            char_code(c) == uc.scalar(),
    {
        uc.to_char()
    }
}

impl vstd::std_specs::convert::FromSpecImpl<Utf16Char> for char {
    open spec fn obeys_from_spec() -> bool {
        true
    }

    open spec fn from_spec(uc: Utf16Char) -> char {
        uc.scalar() as char
    }
}

impl AsRef<[u16]> for Utf16Char {
    fn as_ref(&self) -> (r: &[u16])
        ensures
            r@ == self@,
    {
        self.as_slice()
    }
}

impl std::ops::Deref for Utf16Char {
    type Target = [u16];

    fn deref(&self) -> (r: &[u16])
        ensures
            r@ == self@,
    {
        self.as_slice()
    }
}

/// The units in a slice.
pub open spec fn units_of(slice: &[u16]) -> Seq<u16> {
    slice@
}

impl std::borrow::Borrow<[u16]> for Utf16Char {
    fn borrow(&self) -> (r: &[u16])
        ensures
            units_of(r) == self@,
    {
        self.as_slice()
    }
}

/// The units of all of `chars`, one value after the other.
pub open spec fn concat_units(chars: Seq<Utf16Char>) -> Seq<u16>
    decreases chars.len(),
{
    if chars.len() == 0 {
        Seq::<u16>::empty()
    } else {
        concat_units(chars.drop_last()) + chars.last()@
    }
}

/// Appends the units of every value in `chars` to `vec`, in order.
pub fn extend_units(vec: &mut Vec<u16>, chars: &[Utf16Char])
    ensures
        final(vec)@ == old(vec)@ + concat_units(chars@),
{
    vec.reserve(chars.len());
    let mut i: usize = 0;
    while i < chars.len()
        invariant
            i <= chars@.len(),
            vec@ == old(vec)@ + concat_units(chars@.take(i as int)),
        decreases chars@.len() - i,
    {
        let u16c: Utf16Char = chars[i];
        let ghost before = vec@;
        vec.push(u16c.units[0]);
        if u16c.units[1] != 0 {
            vec.push(u16c.units[1]);
        }
        proof {
            let next = chars@.take(i + 1);
            assert(next.drop_last() =~= chars@.take(i as int));
            assert(next.last() == u16c);
            assert(vec@ =~= before + u16c@);
        }
        i += 1;
    }
    assert(chars@.take(i as int) =~= chars@);
}

/// The units of every value in `chars`, in order, in a new vector.
pub fn collect_units(chars: &[Utf16Char]) -> (vec: Vec<u16>)
    ensures
        vec@ == concat_units(chars@),
{
    let mut vec: Vec<u16> = Vec::new();
    extend_units(&mut vec, chars);
    vec
}

} // verus!
