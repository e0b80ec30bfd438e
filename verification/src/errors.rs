//! Why a sequence of code units was refused.

use vstd::prelude::*;

verus! {

/// Why a slice of `u16` does not start with the UTF-16 encoding of a scalar
/// value.
#[derive(Clone, Copy, Debug, PartialEq, Eq, Structural)]
pub enum InvalidUtf16Slice {
    /// The slice holds no unit at all.
    EmptySlice,
    /// The first unit is a trailing surrogate.
    FirstLowSurrogate,
    /// The first unit is a leading surrogate and the slice ends after it.
    MissingSecond,
    /// The first unit is a leading surrogate and the second is no trailing
    /// surrogate.
    SecondNotLowSurrogate,
}

/// Why a first unit with an optional second one is not the UTF-16 encoding of
/// a scalar value.
#[derive(Clone, Copy, Debug, PartialEq, Eq, Structural)]
pub enum InvalidUtf16Tuple {
    /// The first unit is a trailing surrogate.
    FirstIsTrailingSurrogate,
    /// The first unit stands for a scalar value by itself, yet a second unit
    /// was given.
    SuperfluousSecond,
    /// The first unit is a leading surrogate and no second unit was given.
    MissingSecond,
    /// The first unit is a leading surrogate and the second is no trailing
    /// surrogate.
    InvalidSecond,
}

} // verus!
