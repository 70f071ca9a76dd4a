//! The identifier type of the widget toolkit, and what is taken on trust
//! about it.
//!
//! An identifier is either made from a name or drawn from a counter that the
//! toolkit keeps for the whole process. The toolkit compares identifiers by
//! what they were made from, and that comparison is what `==` means for
//! them in this library's contracts.

use iced_native::widget::Id as WidgetId;
use vstd::prelude::*;

verus! {

/// `iced_native::widget::Id`, the toolkit's identifier. The library carries
/// such values and never looks inside one.
#[verifier::external_type_specification]
#[verifier::external_body]
pub struct ExWidgetId(WidgetId);

/// The identifier that `iced_native::widget::Id::new` makes from `name`.
pub uninterp spec fn named_widget_id(name: Seq<char>) -> WidgetId;

/// Calls `iced_native::widget::Id::new`.
///
/// Taken on trust: the identifier depends on the characters of the name
/// alone, and two names that differ give identifiers that differ. The
/// toolkit keeps the name in the identifier and compares identifiers by it.
#[verifier::external_body]
pub(crate) fn widget_id_new(name: String) -> (id: WidgetId)
    ensures
        id == named_widget_id(name@),
        forall|other: Seq<char>| id == #[trigger] named_widget_id(other) ==> other == name@,
{
    WidgetId::new(name)
}

/// Calls `iced_native::widget::Id::unique`.
///
/// Taken on trust: the identifier is one that no name gives. The toolkit
/// makes it from a number, and an identifier made from a number never
/// equals one made from a name. That it also differs from every identifier
/// drawn before rests on the toolkit's counter and is not stated here.
#[verifier::external_body]
pub(crate) fn widget_id_unique() -> (id: WidgetId)
    ensures
        forall|name: Seq<char>| id != #[trigger] named_widget_id(name),
{
    WidgetId::unique()
}

/// `clone` of `iced_native::widget::Id`, which the toolkit derives.
///
/// Taken on trust: the copy is the same identifier.
pub assume_specification[ <WidgetId as Clone>::clone ](id: &WidgetId) -> (copy: WidgetId)
    ensures
        copy == *id,
;

/// Compares two identifiers with `==` of `iced_native::widget::Id`, which
/// the toolkit derives.
///
/// Taken on trust: it holds exactly when the two are the same identifier.
#[verifier::external_body]
pub(crate) fn widget_id_eq(a: &WidgetId, b: &WidgetId) -> (equal: bool)
    ensures
        equal == (*a == *b),
{
    a == b
}

} // verus!
