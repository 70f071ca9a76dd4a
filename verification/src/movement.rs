//! When a target value is due.

use vstd::prelude::*;

verus! {

/// The moment at which a keyframe's targets are to be reached.
///
/// The library carries this value into every frame unchanged.
#[derive(Clone, Copy, Debug, PartialEq, Eq, Structural)]
pub enum MovementType {
    /// At a fixed offset from the start of the chain, in milliseconds.
    Absolute(u64),
    /// At an offset from the end of the previous link, in milliseconds.
    Relative(u64),
}

} // verus!
