//! What the playback engine is handed: frames, and chains of frame rows.

use crate::ease::Ease;
use crate::keyframes::Repeat;
use crate::movement::MovementType;
use vstd::prelude::*;

verus! {

/// One target for one animated property.
///
/// Equality compares the target by its bit pattern.
#[derive(Clone, Copy, Debug, PartialEq, Eq, Structural)]
pub struct Frame {
    /// When the target is due.
    pub at: MovementType,
    /// The target. On a lazy frame this is a placeholder, not the target:
    /// whoever plays the frame finds the real one.
    pub value: u32,
    /// The curve towards the target.
    pub ease: Ease,
    /// Whether the target is still to be found when the frame is played.
    pub is_lazy: bool,
}

impl Frame {
    /// A frame whose target is known now.
    pub fn eager(at: MovementType, value: u32, ease: Ease) -> (frame: Frame)
        ensures
            frame == (Frame { at, value, ease, is_lazy: false }),
    {
        Frame { at, value, ease, is_lazy: false }
    }

    /// A frame whose target is found when it is played; `value` stands in
    /// for it until then.
    pub fn lazy(at: MovementType, value: u32, ease: Ease) -> (frame: Frame)
        ensures
            frame == (Frame { at, value, ease, is_lazy: true }),
    {
        Frame { at, value, ease, is_lazy: true }
    }
}

/// A chain as the playback engine takes it: rows of frames in the order in
/// which they play, under the identifier by which the current values are
/// asked for later.
#[derive(Debug)]
pub struct Chain {
    pub id: iced_native::widget::Id,
    pub repeat: Repeat,
    pub links: Vec<Vec<Option<Frame>>>,
}

impl Chain {
    /// The rows of the chain, first to play first.
    pub open spec fn rows(self) -> Seq<Seq<Option<Frame>>> {
        Seq::new(self.links@.len(), |i: int| self.links@[i]@)
    }

    /// A chain of the given rows.
    pub fn new(id: iced_native::widget::Id, repeat: Repeat, links: Vec<Vec<Option<Frame>>>) -> (chain:
        Chain)
        ensures
            chain.id == id,
            chain.repeat == repeat,
            chain.links == links,
    {
        Chain { id, repeat, links }
    }
}

} // verus!
