//! Conversions between `Utf16Char` and the `ascii` crate's `AsciiChar`.

use vstd::prelude::*;
use ascii::{AsciiChar, ToAsciiCharError};
use crate::utf16::char_code;
use crate::utf16_char::Utf16Char;

verus! {

/// The `ascii` crate's character type: one of the 128 ASCII characters.
#[verifier::external_type_specification]
#[verifier::external_body]
pub struct ExAsciiChar(ascii::AsciiChar);

/// The `ascii` crate's error for a character that is not ASCII.
#[verifier::external_type_specification]
#[verifier::external_body]
pub struct ExToAsciiCharError(ascii::ToAsciiCharError);

/// The code of an ASCII character: the byte that `AsciiChar::as_byte`
/// returns for it.
pub uninterp spec fn ascii_code(ac: AsciiChar) -> u8;

/// `AsciiChar::as_byte` returns the character's code, which is below 128: the
/// type is an enum of the 128 characters, each with its code as its number.
pub assume_specification[ AsciiChar::as_byte ](ac: AsciiChar) -> (b: u8)
    ensures
        b == ascii_code(ac),
        b < 128,
;

/// Calls `AsciiChar::from` on a `char`: it succeeds exactly for the
/// characters below 128, with the ASCII character of the same code.
#[verifier::external_body]
fn ascii_char_of(c: char) -> (r: Result<AsciiChar, ToAsciiCharError>)
    ensures
        r is Ok <==> char_code(c) < 128,
        r matches Ok(ac) ==> ascii_code(ac) == char_code(c),
{
    AsciiChar::from(c)
}

impl Utf16Char {
    /// The ASCII character with the same code, or the `ascii` crate's error
    /// where the value is not ASCII.
    pub fn to_ascii_char(self) -> (r: Result<AsciiChar, ToAsciiCharError>)
        ensures
            r is Ok <==> self@[0] < 128,
            r matches Ok(ac) ==> self@ == seq![ascii_code(ac) as u16],
    {
        proof {
            use_type_invariant(&self);
        }
        let r = ascii_char_of(self.to_char());
        proof {
            if r is Ok {
                assert(self@ =~= seq![ascii_code(r->Ok_0) as u16]);
            }
        }
        r
    }
}

impl From<AsciiChar> for Utf16Char {
    fn from(ac: AsciiChar) -> (r: Utf16Char)
        ensures
            r@ == seq![ascii_code(ac) as u16],
    {
        Utf16Char::new(ac.as_byte() as u16, 0)
    }
}

impl vstd::std_specs::convert::FromSpecImpl<AsciiChar> for Utf16Char {
    open spec fn obeys_from_spec() -> bool {
        true
    }

    open spec fn from_spec(ac: AsciiChar) -> Utf16Char {
        Utf16Char::from_units(seq![ascii_code(ac) as u16])
    }
}

} // verus!
