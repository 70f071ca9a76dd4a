//! Which curve shapes the progress towards a target value.
//!
//! The library only selects a curve; evaluating it is the playback
//! engine's business.

use vstd::prelude::*;

verus! {

/// Constant speed from start to end.
#[derive(Clone, Copy, Debug, PartialEq, Eq, Structural)]
pub enum Linear {
    InOut,
}

/// Progress along a parabola.
#[derive(Clone, Copy, Debug, PartialEq, Eq, Structural)]
pub enum Quadratic {
    In,
    Out,
    InOut,
}

/// Progress along a cubic curve.
#[derive(Clone, Copy, Debug, PartialEq, Eq, Structural)]
pub enum Cubic {
    In,
    Out,
    InOut,
}

/// The selected easing curve.
#[derive(Clone, Copy, Debug, PartialEq, Eq, Structural)]
pub enum Ease {
    Linear(Linear),
    Quadratic(Quadratic),
    Cubic(Cubic),
}

impl Ease {
    /// The curve used when none is chosen: symmetric, easing in and out.
    pub open spec fn standard() -> Ease {
        Ease::Linear(Linear::InOut)
    }
}

impl Default for Ease {
    fn default() -> (ease: Ease)
        ensures
            ease == Ease::standard(),
    {
        Ease::Linear(Linear::InOut)
    }
}

} // verus!
