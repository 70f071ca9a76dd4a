//! Keyframes: what a widget's animated properties are to become.

use crate::measure::Length;
use vstd::prelude::*;

pub mod column;

verus! {

/// What a chain does once its last link has played.
#[derive(Clone, Copy, Debug, PartialEq, Eq, Structural)]
pub enum Repeat {
    /// Stop, and hold the final values.
    Never,
    /// Start over from the first link.
    Forever,
}

/// The number of pixels that `length` fixes, if it fixes one.
pub open spec fn spec_fixed_value(length: Option<Length>) -> Option<u32> {
    match length {
        Some(Length::Fixed(value)) => Some(value),
        _ => None,
    }
}

/// The number of pixels that `length` fixes. A length that is absent, or
/// that leaves the size to the layout, fixes none.
pub fn fixed_value(length: Option<Length>) -> (value: Option<u32>)
    ensures
        value == spec_fixed_value(length),
{
    match length {
        Some(Length::Fixed(value)) => Some(value),
        _ => None,
    }
}

/// The length to give a dimension whose animated value is `value`.
pub open spec fn spec_length_or(value: Option<u32>, default: Length) -> Length {
    match value {
        Some(pixels) => Length::Fixed(pixels),
        None => default,
    }
}

/// The length to give a dimension: `value` pixels where the dimension has an
/// animated value, `default` where it has none.
pub fn length_or(value: Option<u32>, default: Length) -> (length: Length)
    ensures
        length == spec_length_or(value, default),
{
    match value {
        Some(pixels) => Length::Fixed(pixels),
        None => default,
    }
}

} // verus!
