//! One scalar value stored as UTF-8: the sibling of `Utf16Char`.

use vstd::prelude::*;
use vstd::utf8::{
    codepoint_width_1, codepoint_width_2, codepoint_width_3, codepoint_width_4,
    decode_first_scalar, encode_scalar, is_continuation_byte, is_leading_byte_width_2,
    is_leading_byte_width_3, is_leading_byte_width_4, last_continuation_byte,
    leading_byte_width_1, leading_byte_width_2, leading_byte_width_3, leading_byte_width_4,
    length_of_first_scalar, second_last_continuation_byte, third_last_continuation_byte,
    valid_first_scalar,
};
use crate::utf16::is_scalar;

verus! {

/// `bytes` is exactly the UTF-8 encoding of one scalar value: it starts with
/// one and ends where that one ends.
pub open spec fn is_utf8_char(bytes: Seq<u8>) -> bool {
    valid_first_scalar(bytes) && bytes.len() == length_of_first_scalar(bytes)
}

/// The scalar value that the UTF-8 bytes encode.
pub open spec fn decode_utf8_char(bytes: Seq<u8>) -> int {
    decode_first_scalar(bytes) as int
}

/// The bytes of an encoding followed by as many zero bytes as fill four.
pub open spec fn padded(bytes: Seq<u8>) -> Seq<u8> {
    bytes + Seq::new((4 - bytes.len()) as nat, |i: int| 0u8)
}

/// The byte of a scalar value below `0x80` is that value, and decodes to it.
proof fn lemma_encode_width_1(v: u32)
    by (bit_vector)
    requires
        v <= 0x7F,
    ensures
        leading_byte_width_1(v) == v,
        codepoint_width_1(leading_byte_width_1(v)) == v,
{
}

/// The two bytes of a scalar value from `0x80` to `0x7FF` are a leading byte
/// and a continuation byte, and decode to it.
proof fn lemma_encode_width_2(v: u32)
    by (bit_vector)
    requires
        0x80 <= v <= 0x7FF,
    ensures
        is_leading_byte_width_2(leading_byte_width_2(v)),
        is_continuation_byte(last_continuation_byte(v)),
        codepoint_width_2(leading_byte_width_2(v), last_continuation_byte(v)) == v,
{
}

/// The three bytes of a scalar value from `0x800` to `0xFFFF` are a leading
/// byte and two continuation bytes, and decode to it.
proof fn lemma_encode_width_3(v: u32)
    by (bit_vector)
    requires
        0x800 <= v <= 0xFFFF,
    ensures
        is_leading_byte_width_3(leading_byte_width_3(v)),
        is_continuation_byte(second_last_continuation_byte(v)),
        is_continuation_byte(last_continuation_byte(v)),
        codepoint_width_3(
            leading_byte_width_3(v),
            second_last_continuation_byte(v),
            last_continuation_byte(v),
        ) == v,
{
}

/// The four bytes of a scalar value from `0x10000` to `0x10FFFF` are a
/// leading byte and three continuation bytes, and decode to it.
proof fn lemma_encode_width_4(v: u32)
    by (bit_vector)
    requires
        0x10000 <= v <= 0x10FFFF,
    ensures
        is_leading_byte_width_4(leading_byte_width_4(v)),
        is_continuation_byte(third_last_continuation_byte(v)),
        is_continuation_byte(second_last_continuation_byte(v)),
        is_continuation_byte(last_continuation_byte(v)),
        codepoint_width_4(
            leading_byte_width_4(v),
            third_last_continuation_byte(v),
            second_last_continuation_byte(v),
            last_continuation_byte(v),
        ) == v,
{
}

/// What one, two or three bytes decode to stays below `0x80`, `0x800` and
/// `0x10000`.
proof fn lemma_codepoint_bounds(b0: u8, b1: u8, b2: u8)
    by (bit_vector)
    ensures
        codepoint_width_1(b0) <= 0x7F,
        codepoint_width_2(b0, b1) <= 0x7FF,
        codepoint_width_3(b0, b1, b2) <= 0xFFFF,
{
}

/// The UTF-8 encoding of a scalar value is the whole encoding of one scalar
/// value, and decodes to it.
pub proof fn lemma_decode_encode_utf8(v: u32)
    requires
        is_scalar(v as int),
    ensures
        is_utf8_char(encode_scalar(v)),
        decode_utf8_char(encode_scalar(v)) == v,
{
    if v <= 0x7F {
        lemma_encode_width_1(v);
    } else if v <= 0x7FF {
        lemma_encode_width_2(v);
    } else if v <= 0xFFFF {
        lemma_encode_width_3(v);
    } else {
        lemma_encode_width_4(v);
    }
}

/// A Unicode scalar value stored as UTF-8: one to four bytes.
///
/// Its view is the sequence of those bytes. The bytes that the encoding does
/// not need are stored as zero.
#[derive(Clone, Copy, Eq, Hash, Debug)]
pub struct Utf8Char {
    bytes: [u8; 4],
}

impl View for Utf8Char {
    type V = Seq<u8>;

    closed spec fn view(&self) -> Seq<u8> {
        self.bytes@.take(length_of_first_scalar(self.bytes@))
    }
}

impl Utf8Char {
    /// The stored bytes start with the encoding of one scalar value, and zero
    /// bytes follow it. This holds of every value that a program can have.
    #[verifier::type_invariant]
    pub closed spec fn wf(self) -> bool {
        &&& valid_first_scalar(self.bytes@)
        &&& self.bytes@ == padded(self@)
    }

    /// The value whose bytes are `bytes`.
    pub closed spec fn from_encoding(bytes: Seq<u8>) -> Utf8Char {
        let p = padded(bytes);
        Utf8Char { bytes: [p[0], p[1], p[2], p[3]] }
    }

    /// The scalar value that the bytes encode.
    pub open spec fn scalar(self) -> int {
        decode_utf8_char(self@)
    }

    /// The view of a value is the whole encoding of one scalar value, and
    /// two values with the same view are the same.
    pub proof fn lemma_view(self, other: Utf8Char)
        requires
            self.wf(),
            other.wf(),
        ensures
            is_utf8_char(self@),
            is_scalar(self.scalar()),
            self@ == other@ <==> self == other,
            Utf8Char::from_encoding(self@) == self,
    {
        lemma_codepoint_bounds(self.bytes[0], self.bytes[1], self.bytes[2]);
        if self@ == other@ {
            assert(self.bytes =~= other.bytes);
        }
        assert(Utf8Char::from_encoding(self@).bytes =~= self.bytes);
    }

    /// `from_encoding` and the view undo each other on the encodings of one
    /// scalar value.
    pub proof fn lemma_from_encoding(bytes: Seq<u8>)
        requires
            is_utf8_char(bytes),
        ensures
            Utf8Char::from_encoding(bytes)@ == bytes,
            Utf8Char::from_encoding(bytes).wf(),
    {
        let r = Utf8Char::from_encoding(bytes);
        assert(r.bytes@ =~= padded(bytes));
        assert(r.bytes@[0] == bytes[0]);
        assert(length_of_first_scalar(r.bytes@) == length_of_first_scalar(bytes));
        assert(r@ =~= bytes);
    }

    /// Stores four bytes that hold an encoding and zeros after it.
    fn new(bytes: [u8; 4]) -> (r: Utf8Char)
        requires
            valid_first_scalar(bytes@),
            bytes@ == padded(bytes@.take(length_of_first_scalar(bytes@))),
        ensures
            r@ == bytes@.take(length_of_first_scalar(bytes@)),
            is_utf8_char(r@),
            r == Utf8Char::from_encoding(r@),
    {
        let r = Utf8Char { bytes };
        proof {
            r.lemma_view(r);
        }
        r
    }

    /// The value for a `char`.
    fn encode(c: char) -> (r: Utf8Char)
        ensures
            r@ == encode_scalar(c as u32),
            r == Utf8Char::from_encoding(r@),
    {
        let v: u32 = c as u32;
        proof {
            lemma_decode_encode_utf8(v);
        }
        let bytes: [u8; 4] = if v < 0x80 {
            assert(v & 0x7F < 0x80) by (bit_vector);
            [(v & 0x7F) as u8, 0, 0, 0]
        } else if v < 0x800 {
            assert((v >> 6) & 0x1F < 0x20 && v & 0x3F < 0x40) by (bit_vector);
            [0xC0 | ((v >> 6) & 0x1F) as u8, 0x80 | (v & 0x3F) as u8, 0, 0]
        } else if v < 0x10000 {
            assert((v >> 12) & 0x0F < 0x10 && (v >> 6) & 0x3F < 0x40 && v & 0x3F < 0x40)
                by (bit_vector);
            [
                0xE0 | ((v >> 12) & 0x0F) as u8,
                0x80 | ((v >> 6) & 0x3F) as u8,
                0x80 | (v & 0x3F) as u8,
                0,
            ]
        } else {
            assert((v >> 18) & 0x7 < 0x8 && (v >> 12) & 0x3F < 0x40 && (v >> 6) & 0x3F < 0x40 && v
                & 0x3F < 0x40) by (bit_vector);
            [
                0xF0 | ((v >> 18) & 0x7) as u8,
                0x80 | ((v >> 12) & 0x3F) as u8,
                0x80 | ((v >> 6) & 0x3F) as u8,
                0x80 | (v & 0x3F) as u8,
            ]
        };
        assert(bytes@.take(encode_scalar(v).len() as int) =~= encode_scalar(v));
        assert(bytes@ =~= padded(encode_scalar(v)));
        Utf8Char::new(bytes)
    }

    /// Validates and stores the first UTF-8 codepoint in the slice.
    /// Also returns how many bytes were needed.
    pub fn from_slice_start(src: &[u8]) -> (r: Option<(Utf8Char, usize)>)
        ensures
            r is Some <==> valid_first_scalar(src@),
            r matches Some((c, n)) ==> n == length_of_first_scalar(src@) && c@ == src@.take(
                n as int,
            ) && is_utf8_char(c@),
    {
        if src.len() == 0 {
            return None;
        }
        let b0: u8 = src[0];
        if b0 < 0x80 {
            let bytes: [u8; 4] = [b0, 0, 0, 0];
            assert(bytes@ =~= padded(bytes@.take(1)));
            let c = Utf8Char::new(bytes);
            assert(c@ =~= src@.take(1));
            return Some((c, 1));
        }
        if b0 < 0xC0 || b0 > 0xF7 {
            return None;
        }
        let n: usize = if b0 < 0xE0 {
            2
        } else if b0 < 0xF0 {
            3
        } else {
            4
        };
        if src.len() < n {
            return None;
        }
        let b1: u8 = src[1];
        let b2: u8 = if n >= 3 {
            src[2]
        } else {
            0x80
        };
        let b3: u8 = if n >= 4 {
            src[3]
        } else {
            0x80
        };
        if b1 < 0x80 || b1 > 0xBF || b2 < 0x80 || b2 > 0xBF || b3 < 0x80 || b3 > 0xBF {
            return None;
        }
        let bits1: u32 = (b1 & 0x3F) as u32;
        let bits2: u32 = (b2 & 0x3F) as u32;
        let bits3: u32 = (b3 & 0x3F) as u32;
        let valid: bool = if n == 2 {
            let code: u32 = (((b0 & 0x1F) as u32) << 6) | bits1;
            0x80 <= code
        } else if n == 3 {
            let code: u32 = (((b0 & 0x0F) as u32) << 12) | (bits1 << 6) | bits2;
            0x800 <= code && !(0xD800 <= code && code <= 0xDFFF)
        } else {
            let code: u32 = (((b0 & 0x07) as u32) << 18) | (bits1 << 12) | (bits2 << 6) | bits3;
            0x10000 <= code && code <= 0x10FFFF
        };
        if !valid {
            return None;
        }
        let bytes: [u8; 4] = if n == 2 {
            [b0, b1, 0, 0]
        } else if n == 3 {
            [b0, b1, b2, 0]
        } else {
            [b0, b1, b2, b3]
        };
        assert(bytes@ =~= padded(bytes@.take(n as int)));
        proof {
            lemma_codepoint_bounds(b0, b1, b2);
        }
        let c = Utf8Char::new(bytes);
        assert(c@ =~= src@.take(n as int));
        Some((c, n))
    }

    /// Returns 1 to 4: the number of bytes.
    pub fn len(self) -> (n: usize)
        ensures
            n == self@.len(),
            1 <= n <= 4,
    {
        proof {
            use_type_invariant(&self);
        }
        let first: u8 = self.bytes[0];
        if first < 0x80 {
            1
        } else if first < 0xE0 {
            2
        } else if first < 0xF0 {
            3
        } else {
            4
        }
    }

    /// The four stored bytes, and how many of them the encoding takes.
    pub fn to_array(self) -> (r: ([u8; 4], usize))
        ensures
            r.0@ == padded(self@),
            r.1 == self@.len(),
            is_utf8_char(self@),
    {
        proof {
            use_type_invariant(&self);
        }
        (self.bytes, self.len())
    }
}

impl PartialEq for Utf8Char {
    fn eq(&self, other: &Self) -> (r: bool) {
        proof {
            use_type_invariant(self);
            use_type_invariant(other);
            self.lemma_view(*other);
            if self.bytes[0] == other.bytes[0] && self.bytes[1] == other.bytes[1] && self.bytes[2]
                == other.bytes[2] && self.bytes[3] == other.bytes[3] {
                assert(self.bytes =~= other.bytes);
            }
        }
        self.bytes[0] == other.bytes[0] && self.bytes[1] == other.bytes[1] && self.bytes[2]
            == other.bytes[2] && self.bytes[3] == other.bytes[3]
    }
}

impl vstd::std_specs::cmp::PartialEqSpecImpl for Utf8Char {
    open spec fn obeys_eq_spec() -> bool {
        true
    }

    open spec fn eq_spec(&self, other: &Self) -> bool {
        self@ == other@
    }
}

impl vstd::std_specs::convert::FromSpecImpl<char> for Utf8Char {
    open spec fn obeys_from_spec() -> bool {
        true
    }

    open spec fn from_spec(c: char) -> Utf8Char {
        Utf8Char::from_encoding(encode_scalar(c as u32))
    }
}

impl From<char> for Utf8Char {
    fn from(c: char) -> (r: Utf8Char)
        ensures
            r@ == encode_scalar(c as u32),
    {
        Utf8Char::encode(c)
    }
}

} // verus!
