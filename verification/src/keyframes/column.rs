//! Keyframes of a column: spacing, padding, width and height.

use crate::ease::Ease;
use crate::keyframes::{fixed_value, length_or, spec_fixed_value, spec_length_or, Repeat};
use crate::measure::{Length, Padding};
use crate::movement::MovementType;
use crate::timeline::Frame;
use crate::widget_id::{named_widget_id, widget_id_eq, widget_id_new, widget_id_unique};
use vstd::prelude::*;
use vstd::std_specs::cmp::PartialEqSpecImpl;
use vstd::std_specs::convert::FromSpecImpl;

verus! {

/// A column's animation id. It ties the chain that is built when the state
/// changes to the widget that is drawn from the chain's current values.
#[derive(Debug, Hash)]
pub struct Id(iced_native::widget::Id);

impl Id {
    /// The toolkit's identifier that this one stands for.
    pub closed spec fn widget_id(self) -> iced_native::widget::Id {
        self.0
    }

    /// The name that this identifier was made from; `None` for one that was
    /// made from no name.
    pub closed spec fn name(self) -> Option<Seq<char>> {
        if exists|name: Seq<char>| self.0 == named_widget_id(name) {
            Some(choose|name: Seq<char>| self.0 == named_widget_id(name))
        } else {
            None
        }
    }

    /// Creates a custom [`Id`]: the one of the given name.
    pub fn new(name: String) -> (made: Id)
        ensures
            made.name() == Some(name@),
    {
        Id(widget_id_new(name))
    }

    /// Creates a unique [`Id`].
    ///
    /// The toolkit draws it from a counter of its own, so that every call
    /// gives another id. Of that, the contract holds only that no name
    /// gives this id.
    pub fn unique() -> (made: Id)
        ensures
            made.name() is None,
    {
        Id(widget_id_unique())
    }

    /// An empty chain under this id.
    pub fn to_chain(self) -> (chain: Chain)
        ensures
            chain@ == ChainView::empty(self),
    {
        Chain::new(self)
    }

    /// A chain of `children` under this id.
    pub fn to_chain_with_children(self, children: Vec<Column>) -> (chain: Chain)
        ensures
            chain@ == (ChainView { id: self, links: children@, repeat: Repeat::Never }),
    {
        Chain::with_children(self, children)
    }
}

impl Clone for Id {
    fn clone(&self) -> (copy: Id)
        ensures
            copy == *self,
    {
        Id(self.0.clone())
    }
}

impl PartialEqSpecImpl for Id {
    open spec fn obeys_eq_spec() -> bool {
        true
    }

    open spec fn eq_spec(&self, other: &Id) -> bool {
        *self == *other
    }
}

impl PartialEq for Id {
    fn eq(&self, other: &Id) -> (equal: bool)
        ensures
            equal == (*self == *other),
    {
        widget_id_eq(&self.0, &other.0)
    }
}

impl Eq for Id {

}

impl FromSpecImpl<Id> for iced_native::widget::Id {
    open spec fn obeys_from_spec() -> bool {
        true
    }

    open spec fn from_spec(id: Id) -> iced_native::widget::Id {
        id.widget_id()
    }
}

impl From<Id> for iced_native::widget::Id {
    fn from(id: Id) -> (widget_id: iced_native::widget::Id)
        ensures
            widget_id == id.widget_id(),
    {
        id.0
    }
}

/// Two identifiers of which one has a name are the same identifier exactly
/// when they have the same name. So `new` gives equal identifiers for
/// equal names and different ones for different names, and what `unique`
/// gives equals nothing that `new` gives.
pub proof fn lemma_named_ids_equal_iff_same_name(a: Id, b: Id)
    requires
        a.name() is Some || b.name() is Some,
    ensures
        a == b <==> a.name() == b.name(),
{
}

/// Two identifiers are the same exactly when they stand for the same
/// identifier of the toolkit.
pub proof fn lemma_ids_equal_iff_same_widget_id(a: Id, b: Id)
    ensures
        a == b <==> a.widget_id() == b.widget_id(),
{
}

/// An animated property of a column.
///
/// Frames and interpolated values are addressed by position alone, so the
/// position of each property is part of the interface and never changes.
#[derive(Clone, Copy, Debug, PartialEq, Eq, Structural)]
pub enum Slot {
    Spacing,
    PaddingTop,
    PaddingRight,
    PaddingBottom,
    PaddingLeft,
    Width,
    Height,
}

/// The number of animated properties of a column.
pub const SLOTS: usize = 7;

impl Slot {
    /// The position of this property in a row of frames.
    pub open spec fn spec_index(self) -> int {
        match self {
            Slot::Spacing => 0,
            Slot::PaddingTop => 1,
            Slot::PaddingRight => 2,
            Slot::PaddingBottom => 3,
            Slot::PaddingLeft => 4,
            Slot::Width => 5,
            Slot::Height => 6,
        }
    }

    /// The property at `position`, for a position below [`SLOTS`].
    pub open spec fn at(position: int) -> Slot {
        if position == 0 {
            Slot::Spacing
        } else if position == 1 {
            Slot::PaddingTop
        } else if position == 2 {
            Slot::PaddingRight
        } else if position == 3 {
            Slot::PaddingBottom
        } else if position == 4 {
            Slot::PaddingLeft
        } else if position == 5 {
            Slot::Width
        } else {
            Slot::Height
        }
    }

    /// The position of this property in a row of frames.
    pub fn index(self) -> (index: usize)
        ensures
            index == self.spec_index(),
    {
        match self {
            Slot::Spacing => 0,
            Slot::PaddingTop => 1,
            Slot::PaddingRight => 2,
            Slot::PaddingBottom => 3,
            Slot::PaddingLeft => 4,
            Slot::Width => 5,
            Slot::Height => 6,
        }
    }
}

/// What the properties of a column are to become, when, and along which
/// curve.
#[must_use]
#[derive(Clone, Copy, Debug, PartialEq, Eq, Structural)]
pub struct Column {
    pub at: MovementType,
    pub ease: Ease,
    pub spacing: Option<u32>,
    pub padding: Option<Padding>,
    pub width: Option<Length>,
    pub height: Option<Length>,
    pub is_eager: bool,
}

/// What a column widget is given for one pass of drawing.
#[derive(Clone, Copy, Debug, PartialEq, Eq, Structural)]
pub struct Layout {
    pub spacing: u32,
    pub padding: Padding,
    pub width: Length,
    pub height: Length,
}

/// The scalar to give a spacing or an inset whose animated value is
/// `value`: 0 where it has none.
pub open spec fn spec_pixels_or_zero(value: Option<u32>) -> u32 {
    match value {
        Some(pixels) => pixels,
        None => 0,
    }
}

fn pixels_or_zero(value: Option<u32>) -> (pixels: u32)
    ensures
        pixels == spec_pixels_or_zero(value),
{
    match value {
        Some(pixels) => pixels,
        None => 0,
    }
}

impl Column {
    /// A description with nothing set and the standard curve, of the given
    /// evaluation mode.
    pub open spec fn unset(at: MovementType, is_eager: bool) -> Column {
        Column {
            at,
            ease: Ease::standard(),
            spacing: None,
            padding: None,
            width: None,
            height: None,
            is_eager,
        }
    }

    /// An eager description: each property that is given a value is
    /// animated towards it, and no other property is animated.
    pub fn new(at: MovementType) -> (column: Column)
        ensures
            column == Column::unset(at, true),
    {
        Column {
            at,
            ease: Ease::default(),
            spacing: None,
            width: None,
            height: None,
            padding: None,
            is_eager: true,
        }
    }

    /// A lazy description: every property is animated, towards a value that
    /// is found when the frame is played.
    pub fn lazy(at: MovementType) -> (column: Column)
        ensures
            column == Column::unset(at, false),
    {
        Column {
            at,
            ease: Ease::default(),
            spacing: None,
            width: None,
            height: None,
            padding: None,
            is_eager: false,
        }
    }

    /// The layout of a column whose animated properties currently have the
    /// values `current`, each at the position of its slot.
    ///
    /// Spacing and insets that have no value are 0. A width or height that
    /// has none shrinks to the content.
    pub open spec fn spec_layout(current: Seq<Option<u32>>) -> Layout {
        Layout {
            spacing: spec_pixels_or_zero(current[Slot::Spacing.spec_index()]),
            padding: Padding {
                top: spec_pixels_or_zero(current[Slot::PaddingTop.spec_index()]),
                right: spec_pixels_or_zero(current[Slot::PaddingRight.spec_index()]),
                bottom: spec_pixels_or_zero(current[Slot::PaddingBottom.spec_index()]),
                left: spec_pixels_or_zero(current[Slot::PaddingLeft.spec_index()]),
            },
            width: spec_length_or(current[Slot::Width.spec_index()], Length::Shrink),
            height: spec_length_or(current[Slot::Height.spec_index()], Length::Shrink),
        }
    }

    /// The layout to draw a column with, from the current value of each of
    /// its animated properties: `current[i]` is the value of the property
    /// at position `i`, `None` where that property was never animated.
    pub fn layout(current: &[Option<u32>; SLOTS]) -> (layout: Layout)
        ensures
            layout == Column::spec_layout(current@),
    {
        Layout {
            spacing: pixels_or_zero(current[Slot::Spacing.index()]),
            padding: Padding {
                top: pixels_or_zero(current[Slot::PaddingTop.index()]),
                right: pixels_or_zero(current[Slot::PaddingRight.index()]),
                bottom: pixels_or_zero(current[Slot::PaddingBottom.index()]),
                left: pixels_or_zero(current[Slot::PaddingLeft.index()]),
            },
            width: length_or(current[Slot::Width.index()], Length::Shrink),
            height: length_or(current[Slot::Height.index()], Length::Shrink),
        }
    }

    /// Sets the spacing to reach, as the bit pattern of its number of pixels.
    pub fn spacing(self, spacing: u32) -> (column: Column)
        ensures
            column == (Column { spacing: Some(spacing), ..self }),
    {
        let mut column = self;
        column.spacing = Some(spacing);
        column
    }

    /// Sets the width to reach. Only a fixed width can be reached eagerly.
    pub fn width(self, width: Length) -> (column: Column)
        ensures
            column == (Column { width: Some(width), ..self }),
    {
        let mut column = self;
        column.width = Some(width);
        column
    }

    /// Sets the height to reach. Only a fixed height can be reached eagerly.
    pub fn height(self, height: Length) -> (column: Column)
        ensures
            column == (Column { height: Some(height), ..self }),
    {
        let mut column = self;
        column.height = Some(height);
        column
    }

    /// Sets the padding to reach, the four insets at once.
    pub fn padding(self, padding: Padding) -> (column: Column)
        ensures
            column == (Column { padding: Some(padding), ..self }),
    {
        let mut column = self;
        column.padding = Some(padding);
        column
    }

    /// Sets the curve along which the values are reached.
    pub fn ease(self, ease: Ease) -> (column: Column)
        ensures
            column == (Column { ease, ..self }),
    {
        let mut column = self;
        column.ease = ease;
        column
    }

    /// The scalar that this description names for `slot`, if it names one.
    ///
    /// A width or height names a scalar only when it is a fixed number of
    /// pixels.
    pub open spec fn target(self, slot: Slot) -> Option<u32> {
        match slot {
            Slot::Spacing => self.spacing,
            Slot::PaddingTop => match self.padding {
                Some(padding) => Some(padding.top),
                None => None,
            },
            Slot::PaddingRight => match self.padding {
                Some(padding) => Some(padding.right),
                None => None,
            },
            Slot::PaddingBottom => match self.padding {
                Some(padding) => Some(padding.bottom),
                None => None,
            },
            Slot::PaddingLeft => match self.padding {
                Some(padding) => Some(padding.left),
                None => None,
            },
            Slot::Width => spec_fixed_value(self.width),
            Slot::Height => spec_fixed_value(self.height),
        }
    }

    /// The frame that this description compiles to for `slot`.
    ///
    /// An eager description gives a frame to the properties it names a
    /// scalar for and to no other. A lazy one gives every property a lazy
    /// frame with the placeholder 0, whatever it names.
    pub open spec fn frame(self, slot: Slot) -> Option<Frame> {
        if self.is_eager {
            match self.target(slot) {
                Some(value) => Some(Frame { at: self.at, value, ease: self.ease, is_lazy: false }),
                None => None,
            }
        } else {
            Some(Frame { at: self.at, value: 0, ease: self.ease, is_lazy: true })
        }
    }

    /// The row of frames that this description compiles to.
    pub open spec fn frames(self) -> Seq<Option<Frame>> {
        seq![
            self.frame(Slot::Spacing),
            self.frame(Slot::PaddingTop),
            self.frame(Slot::PaddingRight),
            self.frame(Slot::PaddingBottom),
            self.frame(Slot::PaddingLeft),
            self.frame(Slot::Width),
            self.frame(Slot::Height),
        ]
    }

    /// The eager frame towards `target`, where there is one.
    fn eager_frame(self, target: Option<u32>) -> (frame: Option<Frame>)
        ensures
            frame == match target {
                Some(value) => Some(Frame { at: self.at, value, ease: self.ease, is_lazy: false }),
                None => None,
            },
    {
        match target {
            Some(value) => Some(Frame::eager(self.at, value, self.ease)),
            None => None,
        }
    }
}

impl FromSpecImpl<Column> for Vec<Option<Frame>> {
    /// The row is stated by what it holds, in the contract of `from`: two
    /// vectors that hold the same need not be the same vector.
    open spec fn obeys_from_spec() -> bool {
        false
    }

    open spec fn from_spec(column: Column) -> Vec<Option<Frame>> {
        choose|frames: Vec<Option<Frame>>| frames@ == column.frames()
    }
}

impl From<Column> for Vec<Option<Frame>> {
    /// Compiles a description to its row of frames, one entry per
    /// property, each at the position of its [`Slot`].
    fn from(column: Column) -> (frames: Vec<Option<Frame>>)
        ensures
            frames@ == column.frames(),
    {
        let mut frames: Vec<Option<Frame>> = Vec::with_capacity(SLOTS);
        if column.is_eager {
            let (top, right, bottom, left) = match column.padding {
                Some(padding) => (
                    Some(padding.top),
                    Some(padding.right),
                    Some(padding.bottom),
                    Some(padding.left),
                ),
                None => (None, None, None, None),
            };
            frames.push(column.eager_frame(column.spacing));
            frames.push(column.eager_frame(top));
            frames.push(column.eager_frame(right));
            frames.push(column.eager_frame(bottom));
            frames.push(column.eager_frame(left));
            frames.push(column.eager_frame(fixed_value(column.width)));
            frames.push(column.eager_frame(fixed_value(column.height)));
        } else {
            let placeholder = Some(Frame::lazy(column.at, 0, column.ease));
            while frames.len() < SLOTS
                invariant
                    frames@.len() <= SLOTS,
                    forall|i: int| 0 <= i < frames@.len() ==> frames@[i] == placeholder,
                decreases SLOTS - frames@.len(),
            {
                frames.push(placeholder);
            }
        }
        assert(frames@ =~= column.frames());
        frames
    }
}

/// Every property has a position of its own below [`SLOTS`], every position
/// below [`SLOTS`] is that of a property, and the row that a description
/// compiles to holds at each position the frame of the property there:
/// spacing at 0, the top, right, bottom and left inset at 1 to 4, width at
/// 5, height at 6.
pub proof fn lemma_slot_positions(column: Column, slot: Slot)
    ensures
        Slot::Spacing.spec_index() == 0,
        Slot::PaddingTop.spec_index() == 1,
        Slot::PaddingRight.spec_index() == 2,
        Slot::PaddingBottom.spec_index() == 3,
        Slot::PaddingLeft.spec_index() == 4,
        Slot::Width.spec_index() == 5,
        Slot::Height.spec_index() == 6,
        0 <= slot.spec_index() < SLOTS,
        Slot::at(slot.spec_index()) == slot,
        forall|i: int| 0 <= i < SLOTS ==> (#[trigger] Slot::at(i)).spec_index() == i,
        column.frames().len() == SLOTS,
        column.frames()[slot.spec_index()] == column.frame(slot),
{
}

/// Whether `frames` is a row with a frame at `position` and at no other
/// position.
pub open spec fn single_frame_at(frames: Seq<Option<Frame>>, position: int) -> bool {
    &&& frames.len() == SLOTS
    &&& forall|i: int| 0 <= i < SLOTS ==> (#[trigger] frames[i] is Some <==> i == position)
}

/// An eager description that names a scalar for one property and for no
/// other compiles to one frame, at the position of that property and
/// towards that scalar, and to nothing at every other position.
pub proof fn lemma_eager_single_target(column: Column, slot: Slot)
    requires
        column.is_eager,
        forall|other: Slot| column.target(other) is Some <==> other == slot,
    ensures
        single_frame_at(column.frames(), slot.spec_index()),
        column.frames()[slot.spec_index()] == Some(
            Frame {
                at: column.at,
                value: column.target(slot).unwrap(),
                ease: column.ease,
                is_lazy: false,
            },
        ),
{
    assert(column.target(Slot::Spacing) is Some <==> Slot::Spacing == slot);
    assert(column.target(Slot::PaddingTop) is Some <==> Slot::PaddingTop == slot);
    assert(column.target(Slot::PaddingRight) is Some <==> Slot::PaddingRight == slot);
    assert(column.target(Slot::PaddingBottom) is Some <==> Slot::PaddingBottom == slot);
    assert(column.target(Slot::PaddingLeft) is Some <==> Slot::PaddingLeft == slot);
    assert(column.target(Slot::Width) is Some <==> Slot::Width == slot);
    assert(column.target(Slot::Height) is Some <==> Slot::Height == slot);
}

/// An eager description with one field set, that field being the spacing,
/// or a width or height of a fixed number of pixels, compiles to one frame,
/// at the position of that field's property, and to nothing at every other
/// position.
///
/// The padding is left out because it is four properties in one field, and
/// a width or height that is not fixed because it compiles to no frame.
pub proof fn lemma_eager_single_field(column: Column)
    requires
        column.is_eager,
        column.padding is None,
    ensures
        (column.spacing is Some && column.width is None && column.height is None)
            ==> single_frame_at(column.frames(), Slot::Spacing.spec_index()),
        (column.spacing is None && spec_fixed_value(column.width) is Some && column.height is None)
            ==> single_frame_at(column.frames(), Slot::Width.spec_index()),
        (column.spacing is None && column.width is None && spec_fixed_value(column.height) is Some)
            ==> single_frame_at(column.frames(), Slot::Height.spec_index()),
{
}

/// A lazy description compiles to a lazy frame with the placeholder 0 at
/// every position, whatever was set on it.
pub proof fn lemma_lazy_frames(column: Column)
    requires
        !column.is_eager,
    ensures
        column.frames().len() == SLOTS,
        forall|i: int|
            0 <= i < SLOTS ==> #[trigger] column.frames()[i] == Some(
                Frame { at: column.at, value: 0, ease: column.ease, is_lazy: true },
            ),
{
}

/// An ordered run of column keyframes under one id.
#[derive(Debug)]
pub struct Chain {
    id: Id,
    links: Vec<Column>,
    repeat: Repeat,
}

/// What a [`Chain`] holds.
pub struct ChainView {
    /// The id under which the chain plays.
    pub id: Id,
    /// The links, first to play first.
    pub links: Seq<Column>,
    /// What happens after the last link.
    pub repeat: Repeat,
}

impl ChainView {
    /// The chain without links that plays once.
    pub open spec fn empty(id: Id) -> ChainView {
        ChainView { id, links: Seq::empty(), repeat: Repeat::Never }
    }

    /// This chain with `column` as its new last link.
    pub open spec fn link(self, column: Column) -> ChainView {
        ChainView { links: self.links.push(column), ..self }
    }

    /// This chain, set to start over after its last link.
    pub open spec fn loop_forever(self) -> ChainView {
        ChainView { repeat: Repeat::Forever, ..self }
    }

    /// This chain, set to stop after its last link.
    pub open spec fn loop_once(self) -> ChainView {
        ChainView { repeat: Repeat::Never, ..self }
    }

    /// The rows of frames that the links compile to, in the order of the
    /// links.
    pub open spec fn rows(self) -> Seq<Seq<Option<Frame>>> {
        Seq::new(self.links.len(), |i: int| self.links[i].frames())
    }
}

impl View for Chain {
    type V = ChainView;

    closed spec fn view(&self) -> ChainView {
        ChainView { id: self.id, links: self.links@, repeat: self.repeat }
    }
}

impl Chain {
    /// The chain without links that plays once.
    pub fn new(id: Id) -> (chain: Chain)
        ensures
            chain@ == ChainView::empty(id),
    {
        Chain { id, links: Vec::new(), repeat: Repeat::Never }
    }

    /// The chain of the links `children` that plays once.
    pub fn with_children(id: Id, children: Vec<Column>) -> (chain: Chain)
        ensures
            chain@ == (ChainView { id, links: children@, repeat: Repeat::Never }),
    {
        Chain { id, links: children, repeat: Repeat::Never }
    }

    /// Appends a link.
    pub fn link(self, container: Column) -> (chain: Chain)
        ensures
            chain@ == self@.link(container),
    {
        let mut chain = self;
        chain.links.push(container);
        chain
    }

    /// Has the chain start over after its last link.
    pub fn loop_forever(self) -> (chain: Chain)
        ensures
            chain@ == self@.loop_forever(),
    {
        let mut chain = self;
        chain.repeat = Repeat::Forever;
        chain
    }

    /// Has the chain stop after its last link.
    pub fn loop_once(self) -> (chain: Chain)
        ensures
            chain@ == self@.loop_once(),
    {
        let mut chain = self;
        chain.repeat = Repeat::Never;
        chain
    }
}

impl FromSpecImpl<Chain> for crate::timeline::Chain {
    /// The chain is stated by what it holds, in the contract of `from`.
    open spec fn obeys_from_spec() -> bool {
        false
    }

    open spec fn from_spec(chain: Chain) -> crate::timeline::Chain {
        choose|made: crate::timeline::Chain|
            {
                &&& made.id == chain@.id.widget_id()
                &&& made.repeat == chain@.repeat
                &&& made.rows() == chain@.rows()
            }
    }
}

impl From<Chain> for crate::timeline::Chain {
    /// Compiles a chain for the playback engine: every link to its row of
    /// frames, in the order of the links, under the chain's id and repeat
    /// policy.
    fn from(chain: Chain) -> (made: crate::timeline::Chain)
        ensures
            made.id == chain@.id.widget_id(),
            made.repeat == chain@.repeat,
            made.links@.len() == chain@.links.len(),
            made.rows() == chain@.rows(),
    {
        let Chain { id, links, repeat } = chain;
        let mut rows: Vec<Vec<Option<Frame>>> = Vec::new();
        let mut i: usize = 0;
        while i < links.len()
            invariant
                i <= links@.len(),
                rows@.len() == i,
                forall|k: int| 0 <= k < i ==> (#[trigger] rows@[k])@ == links@[k].frames(),
            decreases links@.len() - i,
        {
            rows.push(Vec::from(links[i]));
            i += 1;
        }
        let made = crate::timeline::Chain::new(iced_native::widget::Id::from(id), repeat, rows);
        assert(made.rows() =~= chain@.rows());
        made
    }
}

/// Linking keeps the order: the rows of a chain with a new last link are
/// the rows it had, followed by the row of that link. So a chain that was
/// linked `a`, then `b`, then `c` compiles to the rows of `a`, `b` and `c`
/// in that order.
pub proof fn lemma_link_keeps_order(chain: ChainView, a: Column, b: Column, c: Column)
    ensures
        chain.link(a).rows() == chain.rows().push(a.frames()),
        chain.link(a).link(b).link(c).rows() == chain.rows() + seq![
            a.frames(),
            b.frames(),
            c.frames(),
        ],
        ChainView::empty(chain.id).link(a).link(b).link(c).rows() == seq![
            a.frames(),
            b.frames(),
            c.frames(),
        ],
{
    assert(chain.link(a).rows() =~= chain.rows().push(a.frames()));
    assert(chain.link(a).link(b).link(c).rows() =~= chain.rows() + seq![
        a.frames(),
        b.frames(),
        c.frames(),
    ]);
    assert(ChainView::empty(chain.id).link(a).link(b).link(c).rows() =~= seq![
        a.frames(),
        b.frames(),
        c.frames(),
    ]);
}

/// A new chain plays once, and of several settings of the repeat policy the
/// last one holds. Neither the links nor the id change with the policy.
pub proof fn lemma_last_repeat_holds(chain: ChainView)
    ensures
        ChainView::empty(chain.id).repeat == Repeat::Never,
        chain.loop_forever().loop_once().repeat == Repeat::Never,
        chain.loop_once().loop_forever().repeat == Repeat::Forever,
        chain.loop_forever().loop_once() == chain.loop_once(),
        chain.loop_once().loop_forever() == chain.loop_forever(),
        chain.loop_forever().links == chain.links && chain.loop_forever().id == chain.id,
        chain.loop_once().links == chain.links && chain.loop_once().id == chain.id,
{
}

} // verus!
