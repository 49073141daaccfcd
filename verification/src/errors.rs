use vstd::prelude::*;

verus! {

/// What [`BuilderErrors::GetCurrentWidgetError`] says where no widget is
/// focused.
pub const NO_FOCUSED_WIDGET: &'static str = "there is no focused widget";

/// Errors for the UI Builder.
#[derive(Debug, Clone, Copy, PartialEq, Eq)]
pub enum BuilderErrors {
    /// Error to be used when the Builder fails to get the current widget,
    /// with the reason in words.
    GetCurrentWidgetError(&'static str),
    /// A widget is already registered under the identifier.
    DuplicateIdentifier,
    /// The focused widget cannot hold children.
    ParentNotContainer,
    /// No widget is registered under the identifier.
    UnknownIdentifier,
    /// The focused widget does not have the shape that was asked for.
    WrongWidgetShape,
    /// The name is not one of the layers of a docked surface.
    InvalidLayer,
    /// The name is not one of the alignments of a widget.
    InvalidAlignment,
}

} // verus!
