use crate::cell::UniverseCell;
use vstd::prelude::*;

verus! {

/// The pointer buttons that the drawing area listens to.
#[derive(Debug, Clone, Copy, PartialEq, Eq, Structural)]
pub enum PointerButton {
    Primary,
    Secondary,
}

impl PointerButton {
    /// The value that the button gives to a cell.
    pub open spec fn paint(self) -> UniverseCell {
        match self {
            PointerButton::Primary => UniverseCell::Alive,
            PointerButton::Secondary => UniverseCell::Dead,
        }
    }

    /// The value that this button gives to a cell: the primary button brings it to
    /// life, the secondary one kills it.
    pub fn painted_cell(&self) -> (cell: UniverseCell)
        ensures
            cell == self.paint(),
    {
        match self {
            PointerButton::Primary => UniverseCell::Alive,
            PointerButton::Secondary => UniverseCell::Dead,
        }
    }
}

/// The kinds of gesture that the drawing area listens to.
#[derive(Debug, Clone, Copy, PartialEq, Eq, Structural)]
pub enum GestureKind {
    Click,
    Drag,
}

/// A gesture controller that the drawing area needs.
#[derive(Debug, Clone, Copy, PartialEq, Eq, Structural)]
pub struct GestureBinding {
    pub kind: GestureKind,
    pub button: PointerButton,
}

/// Where a drag has gone.
#[derive(Debug, Clone, Copy, PartialEq, Eq, Structural)]
pub enum DragPosition {
    /// The gesture has no offset.
    OffsetUnknown,
    /// The gesture has an offset, but no point that it started from.
    StartUnknown,
    /// The start of the drag plus its offset.
    At { x: i32, y: i32 },
}

/// What happens to the drawing area. Positions are in whole pixels.
#[derive(Debug, Clone, Copy)]
pub enum AreaEvent {
    Pressed { button: PointerButton, x: i32, y: i32 },
    Released { button: PointerButton },
    UnpairedRelease { button: PointerButton },
    DragBegan { button: PointerButton, start: Option<(i32, i32)> },
    DragMoved { button: PointerButton, position: DragPosition },
    Resized,
}

} // verus!
