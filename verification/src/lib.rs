//! The state of a Game of Life grid widget: the universe it shows, how pointer
//! gestures edit that universe, what a frame paints, and when the simulation
//! runs. Every operation is a verified step from one state to the next; what a
//! toolkit has to do about a step comes back as a list of effects.

pub mod area_laws;
pub mod cell;
pub mod effect;
pub mod frame_laws;
pub mod geometry;
pub mod grid;
pub mod laws;
pub mod life_laws;
pub mod paint;
pub mod pointer;
pub mod property;
pub mod request;
pub mod state;
pub mod step_laws;
pub mod ticker;
pub mod universe;

pub use cell::UniverseCell;
pub use effect::GridEffect;
pub use geometry::{is_addressable, widget_area_point_to_universe_cell, DrawingArea};
pub use grid::{GameOfLifeUniverseGrid, Processed, Started};
pub use paint::{PaintOp, Ratio};
pub use pointer::{AreaEvent, DragPosition, GestureBinding, GestureKind, PointerButton};
pub use property::{
    GridProperty, PropertyAccess, PropertyDefault, PropertySpec, PropertyValue,
};
pub use request::UniverseGridRequest;
pub use state::{
    Rgba, UniverseGridInteractionState, UniverseGridMode, DEFAULT_SIDE, UNFREEZE_DELAY_MS,
};
pub use ticker::{Ticker, TickerAction, TickerEvent, TICK_PERIOD_MS};
pub use universe::{Universe, UniversePoint, UniverseSnapshot};
