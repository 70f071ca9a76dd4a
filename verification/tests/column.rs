use column_keyframes::ease::{Cubic, Ease, Linear, Quadratic};
use column_keyframes::keyframes::column::{Column, Layout, Slot, SLOTS};
use column_keyframes::keyframes::{fixed_value, length_or};
use column_keyframes::measure::{Length, Padding};
use column_keyframes::movement::MovementType;
use column_keyframes::timeline::Frame;

fn bits(value: f32) -> u32 {
    value.to_bits()
}

fn at() -> MovementType {
    MovementType::Absolute(250)
}

fn standard() -> Ease {
    Ease::Linear(Linear::InOut)
}

fn compile(column: Column) -> Vec<Option<Frame>> {
    column.into()
}

fn positions_with_frame(frames: &[Option<Frame>]) -> Vec<usize> {
    let mut found = Vec::new();
    for (position, frame) in frames.iter().enumerate() {
        if frame.is_some() {
            found.push(position);
        }
    }
    found
}

#[test]
fn eager_with_nothing_set_compiles_to_seven_empty_entries() {
    let frames = compile(Column::new(at()));
    assert_eq!(frames, vec![None; 7]);
}

#[test]
fn eager_with_only_spacing_has_one_frame_at_position_0() {
    let frames = compile(Column::new(at()).spacing(bits(4.5)));
    assert_eq!(frames.len(), 7);
    assert_eq!(positions_with_frame(&frames), vec![0]);
    assert_eq!(
        frames[0],
        Some(Frame { at: at(), value: bits(4.5), ease: standard(), is_lazy: false })
    );
}

#[test]
fn eager_with_only_fixed_width_has_one_frame_at_position_5() {
    let frames = compile(Column::new(at()).width(Length::Fixed(bits(120.0))));
    assert_eq!(frames.len(), 7);
    assert_eq!(positions_with_frame(&frames), vec![5]);
    assert_eq!(
        frames[5],
        Some(Frame { at: at(), value: bits(120.0), ease: standard(), is_lazy: false })
    );
}

#[test]
fn eager_with_only_fixed_height_has_one_frame_at_position_6() {
    let frames = compile(Column::new(at()).height(Length::Fixed(bits(33.0))));
    assert_eq!(frames.len(), 7);
    assert_eq!(positions_with_frame(&frames), vec![6]);
    assert_eq!(
        frames[6],
        Some(Frame { at: at(), value: bits(33.0), ease: standard(), is_lazy: false })
    );
}

#[test]
fn eager_with_only_padding_has_frames_at_positions_1_to_4() {
    let padding = Padding { top: bits(1.0), right: bits(2.0), bottom: bits(3.0), left: bits(4.0) };
    let frames = compile(Column::new(at()).padding(padding));
    assert_eq!(positions_with_frame(&frames), vec![1, 2, 3, 4]);
    assert_eq!(frames[1].unwrap().value, bits(1.0));
    assert_eq!(frames[2].unwrap().value, bits(2.0));
    assert_eq!(frames[3].unwrap().value, bits(3.0));
    assert_eq!(frames[4].unwrap().value, bits(4.0));
    for position in 1..5 {
        let frame = frames[position].unwrap();
        assert!(!frame.is_lazy);
        assert_eq!(frame.at, at());
        assert_eq!(frame.ease, standard());
    }
}

#[test]
fn eager_width_without_fixed_measure_is_dropped() {
    for width in [Length::Fill, Length::Shrink, Length::FillPortion(3)] {
        let frames = compile(Column::new(at()).width(width).height(width));
        assert_eq!(frames, vec![None; 7]);
    }
}

#[test]
fn eager_spacing_and_fixed_width() {
    let frames = compile(Column::new(at()).spacing(bits(10.0)).width(Length::Fixed(bits(50.0))));
    let values: Vec<Option<f32>> =
        frames.iter().map(|frame| frame.map(|f| f32::from_bits(f.value))).collect();
    assert_eq!(values, vec![Some(10.0), None, None, None, None, Some(50.0), None]);
    for frame in frames.iter().flatten() {
        assert!(!frame.is_lazy);
        assert_eq!(frame.ease, standard());
        assert_eq!(frame.at, at());
    }
}

#[test]
fn eager_with_everything_set_fills_every_position_in_order() {
    let padding = Padding { top: bits(1.0), right: bits(2.0), bottom: bits(3.0), left: bits(4.0) };
    let column = Column::new(at())
        .spacing(bits(0.5))
        .padding(padding)
        .width(Length::Fixed(bits(5.0)))
        .height(Length::Fixed(bits(6.0)));
    let values: Vec<f32> =
        compile(column).iter().map(|frame| f32::from_bits(frame.unwrap().value)).collect();
    assert_eq!(values, vec![0.5, 1.0, 2.0, 3.0, 4.0, 5.0, 6.0]);
}

#[test]
fn lazy_with_nothing_set_compiles_to_seven_placeholders() {
    let frames = compile(Column::lazy(at()));
    assert_eq!(frames.len(), 7);
    for frame in &frames {
        let frame = frame.expect("a lazy description fills every position");
        assert!(frame.is_lazy);
        assert_eq!(f32::from_bits(frame.value), 0.0);
        assert_eq!(frame.value, 0);
    }
}

#[test]
fn lazy_ignores_what_was_set() {
    let padding = Padding { top: bits(1.0), right: bits(2.0), bottom: bits(3.0), left: bits(4.0) };
    let column = Column::lazy(at())
        .spacing(bits(9.0))
        .padding(padding)
        .width(Length::Fill)
        .height(Length::Fixed(bits(7.0)))
        .ease(Ease::Cubic(Cubic::Out));
    let placeholder =
        Some(Frame { at: at(), value: 0, ease: Ease::Cubic(Cubic::Out), is_lazy: true });
    assert_eq!(compile(column), vec![placeholder; 7]);
}

#[test]
fn frames_carry_the_timing_and_the_chosen_ease() {
    let timing = MovementType::Relative(40);
    let column = Column::new(timing).ease(Ease::Quadratic(Quadratic::In)).spacing(bits(2.0));
    assert_eq!(
        compile(column)[0],
        Some(Frame {
            at: timing,
            value: bits(2.0),
            ease: Ease::Quadratic(Quadratic::In),
            is_lazy: false
        })
    );
}

#[test]
fn a_later_setting_replaces_an_earlier_one() {
    let column = Column::new(at()).spacing(bits(1.0)).spacing(bits(2.0));
    assert_eq!(compile(column)[0].unwrap().value, bits(2.0));
    let column = Column::new(at()).width(Length::Fixed(bits(1.0))).width(Length::Shrink);
    assert_eq!(compile(column)[5], None);
}

#[test]
fn new_and_lazy_start_unset_with_the_standard_ease() {
    let eager = Column::new(at());
    assert_eq!(
        eager,
        Column {
            at: at(),
            ease: standard(),
            spacing: None,
            padding: None,
            width: None,
            height: None,
            is_eager: true
        }
    );
    let lazy = Column::lazy(at());
    assert_eq!(lazy, Column { is_eager: false, ..eager });
    assert_eq!(Ease::default(), standard());
}

#[test]
fn setters_touch_one_field_each() {
    let base = Column::new(at());
    let padding = Padding { top: 1, right: 2, bottom: 3, left: 4 };
    assert_eq!(base.spacing(7), Column { spacing: Some(7), ..base });
    assert_eq!(base.padding(padding), Column { padding: Some(padding), ..base });
    assert_eq!(base.width(Length::Fill), Column { width: Some(Length::Fill), ..base });
    assert_eq!(base.height(Length::Shrink), Column { height: Some(Length::Shrink), ..base });
    assert_eq!(
        base.ease(Ease::Cubic(Cubic::InOut)),
        Column { ease: Ease::Cubic(Cubic::InOut), ..base }
    );
}

#[test]
fn slots_keep_their_positions() {
    assert_eq!(SLOTS, 7);
    assert_eq!(Slot::Spacing.index(), 0);
    assert_eq!(Slot::PaddingTop.index(), 1);
    assert_eq!(Slot::PaddingRight.index(), 2);
    assert_eq!(Slot::PaddingBottom.index(), 3);
    assert_eq!(Slot::PaddingLeft.index(), 4);
    assert_eq!(Slot::Width.index(), 5);
    assert_eq!(Slot::Height.index(), 6);
}

#[test]
fn each_property_lands_at_the_position_of_its_slot() {
    let padding = Padding { top: 11, right: 12, bottom: 13, left: 14 };
    let column = Column::new(at())
        .spacing(10)
        .padding(padding)
        .width(Length::Fixed(15))
        .height(Length::Fixed(16));
    let frames = compile(column);
    assert_eq!(frames[Slot::Spacing.index()].unwrap().value, 10);
    assert_eq!(frames[Slot::PaddingTop.index()].unwrap().value, 11);
    assert_eq!(frames[Slot::PaddingRight.index()].unwrap().value, 12);
    assert_eq!(frames[Slot::PaddingBottom.index()].unwrap().value, 13);
    assert_eq!(frames[Slot::PaddingLeft.index()].unwrap().value, 14);
    assert_eq!(frames[Slot::Width.index()].unwrap().value, 15);
    assert_eq!(frames[Slot::Height.index()].unwrap().value, 16);
}

#[test]
fn frame_factories_set_the_flag() {
    let eager = Frame::eager(at(), bits(3.0), standard());
    assert_eq!(eager, Frame { at: at(), value: bits(3.0), ease: standard(), is_lazy: false });
    let lazy = Frame::lazy(at(), 0, standard());
    assert_eq!(lazy, Frame { at: at(), value: 0, ease: standard(), is_lazy: true });
}

#[test]
fn fixed_value_is_there_for_fixed_lengths_only() {
    assert_eq!(fixed_value(Some(Length::Fixed(bits(8.0)))), Some(bits(8.0)));
    assert_eq!(fixed_value(Some(Length::Fill)), None);
    assert_eq!(fixed_value(Some(Length::FillPortion(2))), None);
    assert_eq!(fixed_value(Some(Length::Shrink)), None);
    assert_eq!(fixed_value(None), None);
}

#[test]
fn length_or_falls_back_to_the_default() {
    assert_eq!(length_or(Some(bits(8.0)), Length::Shrink), Length::Fixed(bits(8.0)));
    assert_eq!(length_or(None, Length::Shrink), Length::Shrink);
    assert_eq!(length_or(None, Length::Fill), Length::Fill);
}

#[test]
fn layout_of_a_column_that_was_never_animated() {
    let layout = Column::layout(&[None; 7]);
    assert_eq!(
        layout,
        Layout {
            spacing: bits(0.0),
            padding: Padding { top: 0, right: 0, bottom: 0, left: 0 },
            width: Length::Shrink,
            height: Length::Shrink
        }
    );
}

#[test]
fn layout_reads_each_property_at_its_position() {
    let current = [
        Some(bits(1.0)),
        Some(bits(2.0)),
        Some(bits(3.0)),
        Some(bits(4.0)),
        Some(bits(5.0)),
        Some(bits(6.0)),
        Some(bits(7.0)),
    ];
    assert_eq!(
        Column::layout(&current),
        Layout {
            spacing: bits(1.0),
            padding: Padding {
                top: bits(2.0),
                right: bits(3.0),
                bottom: bits(4.0),
                left: bits(5.0)
            },
            width: Length::Fixed(bits(6.0)),
            height: Length::Fixed(bits(7.0))
        }
    );
}

#[test]
fn layout_mixes_values_and_defaults() {
    let current = [None, None, Some(bits(3.0)), None, None, None, Some(bits(7.0))];
    let layout = Column::layout(&current);
    assert_eq!(layout.spacing, 0);
    assert_eq!(layout.padding, Padding { top: 0, right: bits(3.0), bottom: 0, left: 0 });
    assert_eq!(layout.width, Length::Shrink);
    assert_eq!(layout.height, Length::Fixed(bits(7.0)));
}
