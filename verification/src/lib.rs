//! Keyframes for the animatable layout properties of a column widget.
//!
//! A [`keyframes::column::Column`] names the values that a column's spacing,
//! padding, width and height are to reach, together with a timing and an
//! easing curve. It compiles to a row of seven optional
//! [`timeline::Frame`]s, one per property, at positions that never change.
//! A [`keyframes::column::Chain`] strings such descriptions together under
//! one [`keyframes::column::Id`] and compiles to the [`timeline::Chain`] that
//! a playback engine consumes.
//!
//! Scalars are carried as the IEEE-754 single-precision bit pattern of the
//! number (`u32`): the library moves them around and never computes on them.

pub mod ease;
pub mod keyframes;
pub mod measure;
pub mod movement;
pub mod timeline;
pub mod widget_id;
