//! Sizes and insets of a widget, as the layout engine understands them.
//!
//! Every scalar is the IEEE-754 single-precision bit pattern of a number of
//! logical pixels.

use vstd::prelude::*;

verus! {

/// How a widget fills space along one dimension.
#[derive(Clone, Copy, Debug, PartialEq, Eq, Structural)]
pub enum Length {
    /// Take all the space that is left.
    Fill,
    /// Take a share of the space that is left, relative to the siblings.
    FillPortion(u16),
    /// Take as little space as the content allows.
    Shrink,
    /// Take exactly this many logical pixels.
    Fixed(u32),
}

/// The empty space on the four sides of a box.
#[derive(Clone, Copy, Debug, PartialEq, Eq, Structural)]
pub struct Padding {
    pub top: u32,
    pub right: u32,
    pub bottom: u32,
    pub left: u32,
}

} // verus!
