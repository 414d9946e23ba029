use crate::universe::{Universe, UniverseView};
use vstd::prelude::*;

verus! {

/// What can be asked of a grid from outside its own thread.
#[derive(Debug)]
pub enum UniverseGridRequest {
    /// Restores normal rendering operations
    Unfreeze,
    /// Requests the grid to redraw itself. If the value is `Some(universe)` the
    /// contained value will replace the current model inside the widget
    Redraw(Option<Universe>),
}

/// The mathematical content of a request.
pub enum RequestView {
    Unfreeze,
    Redraw(Option<UniverseView>),
}

/// The mathematical content of a universe that may be missing.
pub open spec fn optional_view(universe: Option<Universe>) -> Option<UniverseView> {
    match universe {
        Some(u) => Some(u@),
        None => None,
    }
}

impl View for UniverseGridRequest {
    type V = RequestView;

    open spec fn view(&self) -> RequestView {
        match *self {
            UniverseGridRequest::Unfreeze => RequestView::Unfreeze,
            UniverseGridRequest::Redraw(universe) => RequestView::Redraw(optional_view(universe)),
        }
    }
}

impl UniverseGridRequest {
    /// A universe that comes with the request is rectangular.
    pub open spec fn wf(&self) -> bool {
        match *self {
            UniverseGridRequest::Redraw(Some(universe)) => universe.wf(),
            _ => true,
        }
    }
}

} // verus!
