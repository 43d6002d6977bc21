//! Plain vocabulary shared with the user-interface layer of the
//! surrounding engine: alignment, visibility, orientation and sizing of
//! widgets, and the kinds of routed-event handlers a widget can carry.
//! These carry no behaviour of their own.

use vstd::prelude::*;

verus! {

/// Horizontal placement of a widget inside the space given to it.
#[derive(Copy, Clone, PartialEq, Debug)]
pub enum HorizontalAlignment {
    Stretch,
    Left,
    Center,
    Right,
}

/// Vertical placement of a widget inside the space given to it.
#[derive(Copy, Clone, PartialEq, Debug)]
pub enum VerticalAlignment {
    Stretch,
    Top,
    Center,
    Bottom,
}

/// Whether a widget is drawn, and whether it takes part in layout.
#[derive(Copy, Clone, PartialEq, Debug)]
pub enum Visibility {
    Visible,
    Collapsed,
    Hidden,
}

/// The axis a scrolling or stacking widget runs along.
#[derive(Copy, Clone, Debug)]
pub enum Orientation {
    Vertical,
    Horizontal,
}

/// How a grid row or column takes its size: fixed, from its content, or
/// from the space left over.
#[derive(PartialEq)]
pub enum SizeMode {
    Strict,
    Auto,
    Stretch,
}

/// The kinds of routed-event handler a widget can carry, with `Count`
/// closing the list.
#[derive(Copy, Clone, PartialEq, Debug)]
pub enum RoutedEventHandlerType {
    MouseMove,
    MouseEnter,
    MouseLeave,
    MouseDown,
    MouseUp,
    Count,
}

} // verus!
