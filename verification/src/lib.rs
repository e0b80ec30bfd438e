//! A single Unicode scalar value held in its UTF-16 encoding.
//!
//! [`Utf16Char`] stores one scalar value as one or two 16-bit code units and
//! has the size of a `char`. It is made from a `char`, from validated code
//! units, from a [`Utf8Char`] or from an `ascii::AsciiChar`, and gives back
//! its units, its `char` and its length. Values compare as their scalar
//! values do.
//!
//! - [`utf16`]: the encoding as mathematics, and the lemmas about it.
//! - [`utf16_char`]: the value type and its conversions.
//! - [`utf8_char`]: the sibling type that holds the UTF-8 encoding.
//! - [`ascii_char`]: conversions from and to the `ascii` crate's character.
//! - [`errors`]: why a sequence of units was refused.
//! - [`laws`]: what holds between the conversions, the length and the order.

pub mod ascii_char;
pub mod errors;
pub mod laws;
pub mod utf16;
pub mod utf16_char;
pub mod utf8_char;

pub use crate::errors::{InvalidUtf16Slice, InvalidUtf16Tuple};
pub use crate::utf16_char::{collect_units, extend_units, Utf16Char};
pub use crate::utf8_char::Utf8Char;
