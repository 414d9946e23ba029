use crate::cell::UniverseCell;
use crate::effect::GridEffect;
use crate::geometry::DrawingArea;
use crate::pointer::{AreaEvent, DragPosition};
use crate::request::RequestView;
use crate::universe::UniverseView;
use vstd::prelude::*;

verus! {

/// How long the grid stays frozen after a resize.
pub const UNFREEZE_DELAY_MS: u64 = 500;

/// The side of the universe that is made when there is none to take the size of.
pub const DEFAULT_SIDE: usize = 200;

/// What a grid is used for at the moment.
#[derive(Debug, Clone, Copy, PartialEq, Eq, Structural)]
pub enum UniverseGridMode {
    /// The pointer edits the universe.
    Design,
    /// The universe evolves, or waits to evolve.
    Run,
}

impl Default for UniverseGridMode {
    fn default() -> (mode: Self)
        ensures
            mode is Run,
    {
        UniverseGridMode::Run
    }
}

/// Whether a pointer interaction that edits the universe is under way.
#[derive(Debug, Clone, Copy, PartialEq, Eq, Structural)]
pub enum UniverseGridInteractionState {
    Idle,
    Ongoing,
}

impl Default for UniverseGridInteractionState {
    fn default() -> (state: Self)
        ensures
            state is Idle,
    {
        UniverseGridInteractionState::Idle
    }
}

/// A color. Each component is the bit pattern of a single precision number.
#[derive(Debug, Clone, Copy, PartialEq, Eq, Structural)]
pub struct Rgba {
    pub red: u32,
    pub green: u32,
    pub blue: u32,
    pub alpha: u32,
}

/// The mathematical content of a grid.
#[verifier::ext_equal]
pub struct GridState {
    pub mode: UniverseGridMode,
    pub frozen: bool,
    pub universe: Option<UniverseView>,
    pub running: bool,
    pub allow_draw_on_resize: bool,
    pub fg_color: Option<Rgba>,
    pub bg_color: Option<Rgba>,
    pub interaction: UniverseGridInteractionState,
}

impl GridState {
    /// The universe is rectangular, and a grid that is running is in run mode.
    pub open spec fn wf(self) -> bool {
        &&& self.universe matches Some(u) ==> u.wf() && u.rows <= usize::MAX && u.columns
            <= usize::MAX
        &&& self.running ==> self.mode is Run
    }

    /// The state of a grid that was given nothing to show yet.
    pub open spec fn blank() -> GridState {
        GridState {
            mode: UniverseGridMode::Run,
            frozen: false,
            universe: None,
            running: false,
            allow_draw_on_resize: false,
            fg_color: None,
            bg_color: None,
            interaction: UniverseGridInteractionState::Idle,
        }
    }

    /// The state of a newly made grid.
    pub open spec fn initial(universe: UniverseView, fg_color: Rgba, bg_color: Rgba) -> GridState {
        GridState {
            universe: Some(universe),
            fg_color: Some(fg_color),
            bg_color: Some(bg_color),
            ..GridState::blank()
        }
    }

    /// The mode can be changed only while the grid is not running.
    pub open spec fn with_mode(self, value: UniverseGridMode) -> GridState {
        if self.running {
            self
        } else {
            GridState { mode: value, ..self }
        }
    }

    pub open spec fn with_frozen(self, value: bool) -> GridState {
        GridState { frozen: value, ..self }
    }

    pub open spec fn with_universe(self, universe: UniverseView) -> GridState {
        GridState { universe: Some(universe), ..self }
    }

    /// The state after the simulation was started.
    pub open spec fn started(self) -> GridState {
        GridState { running: true, ..self.with_mode(UniverseGridMode::Run) }
    }

    pub open spec fn start_effects(self) -> Seq<GridEffect> {
        if self.universe is Some {
            seq![
                GridEffect::NotifyMode,
                GridEffect::InstallStopper,
                GridEffect::SpawnTicker,
                GridEffect::NotifyIsRunning,
            ]
        } else {
            seq![
                GridEffect::NotifyMode,
                GridEffect::InstallStopper,
                GridEffect::WarnNoUniverse,
            ]
        }
    }

    /// The state after the simulation was stopped.
    pub open spec fn stopped(self) -> GridState {
        GridState { running: false, ..self }
    }

    pub open spec fn stop_effects(self) -> Seq<GridEffect> {
        seq![GridEffect::DropStopper, GridEffect::NotifyIsRunning]
    }

    pub open spec fn toggled(self) -> GridState {
        if self.running {
            self.stopped()
        } else {
            self.started()
        }
    }

    pub open spec fn toggle_effects(self) -> Seq<GridEffect> {
        if self.running {
            self.stop_effects()
        } else {
            self.start_effects()
        }
    }

    /// The number of rows that a new random universe gets.
    pub open spec fn seed_rows(self) -> nat {
        match self.universe {
            Some(u) => u.rows,
            None => DEFAULT_SIDE as nat,
        }
    }

    /// The number of columns that a new random universe gets.
    pub open spec fn seed_columns(self) -> nat {
        match self.universe {
            Some(u) => u.columns,
            None => DEFAULT_SIDE as nat,
        }
    }

    /// The state after a new universe of the current size was filled with `cells`.
    pub open spec fn seeded(self, cells: Seq<UniverseCell>) -> GridState {
        self.with_universe(
            UniverseView { rows: self.seed_rows(), columns: self.seed_columns(), cells },
        )
    }

    /// The state after a request was processed.
    pub open spec fn after_request(self, request: RequestView) -> GridState {
        match request {
            RequestView::Unfreeze => self.with_frozen(false),
            RequestView::Redraw(Some(universe)) => self.with_universe(universe),
            RequestView::Redraw(None) => self,
        }
    }

    /// There is a cell for the position `x`, `y`, if there is a universe at all.
    pub open spec fn alterable(self, area: DrawingArea, x: i32, y: i32) -> bool {
        self.universe matches Some(u) ==> u.addressable(area, x, y)
    }

    /// The state after the cell under `x`, `y` was given `value`, or inverted when
    /// there is no value.
    pub open spec fn altered(
        self,
        area: DrawingArea,
        x: i32,
        y: i32,
        value: Option<UniverseCell>,
    ) -> GridState {
        match self.universe {
            Some(u) => {
                let row = u.row_under(area, x, y);
                let column = u.column_under(area, x, y);
                let next = match value {
                    Some(v) => v,
                    None => u.at(row, column).opposite(),
                };
                self.with_universe(u.with_cell(row, column, next))
            },
            None => self,
        }
    }

    pub open spec fn alter_effects(self) -> Seq<GridEffect> {
        if self.universe is Some {
            seq![GridEffect::QueueDraw]
        } else {
            seq![]
        }
    }

    /// The state after the pointer was pressed at `x`, `y`.
    pub open spec fn clicked(
        self,
        area: DrawingArea,
        x: i32,
        y: i32,
        value: Option<UniverseCell>,
    ) -> GridState {
        if self.mode is Design {
            (GridState { interaction: UniverseGridInteractionState::Ongoing, ..self }).altered(
                area,
                x,
                y,
                value,
            )
        } else {
            self
        }
    }

    pub open spec fn click_effects(self) -> Seq<GridEffect> {
        if self.mode is Design {
            self.alter_effects()
        } else {
            seq![]
        }
    }

    /// The state after the pointer was released.
    pub open spec fn released(self) -> GridState {
        GridState { interaction: UniverseGridInteractionState::Idle, ..self }
    }

    /// The state after a drag began at `start`, where that is known.
    pub open spec fn drag_began(
        self,
        area: DrawingArea,
        start: Option<(i32, i32)>,
        value: Option<UniverseCell>,
    ) -> GridState {
        match start {
            Some((x, y)) if self.interaction is Ongoing => self.altered(area, x, y, value),
            _ => self,
        }
    }

    pub open spec fn drag_begin_effects(self, start: Option<(i32, i32)>) -> Seq<GridEffect> {
        if self.interaction is Ongoing && start is Some {
            self.alter_effects()
        } else {
            seq![]
        }
    }

    /// The state after a drag went on to `position`.
    pub open spec fn dragged(
        self,
        area: DrawingArea,
        position: DragPosition,
        value: Option<UniverseCell>,
    ) -> GridState {
        match position {
            DragPosition::At { x, y } if self.interaction is Ongoing => self.altered(
                area,
                x,
                y,
                value,
            ),
            _ => self,
        }
    }

    pub open spec fn drag_effects(self, position: DragPosition) -> Seq<GridEffect> {
        if self.interaction is Ongoing && position is At {
            self.alter_effects()
        } else {
            seq![]
        }
    }

    /// The state after the area changed its size.
    pub open spec fn resized(self) -> GridState {
        if self.allow_draw_on_resize {
            self
        } else {
            self.with_frozen(true)
        }
    }

    pub open spec fn resize_effects(self) -> Seq<GridEffect> {
        if self.allow_draw_on_resize {
            seq![]
        } else {
            seq![GridEffect::ScheduleUnfreeze { delay_ms: UNFREEZE_DELAY_MS }]
        }
    }

    /// Every position at which `event` would edit the universe has a cell.
    pub open spec fn accepts(self, area: DrawingArea, event: AreaEvent) -> bool {
        match event {
            AreaEvent::Pressed { x, y, .. } => self.mode is Design ==> self.alterable(area, x, y),
            AreaEvent::DragBegan { start: Some((x, y)), .. } => self.interaction is Ongoing
                ==> self.alterable(area, x, y),
            AreaEvent::DragMoved { position: DragPosition::At { x, y }, .. } =>
                self.interaction is Ongoing ==> self.alterable(area, x, y),
            AreaEvent::DragMoved { position: DragPosition::StartUnknown, .. } =>
                !(self.interaction is Ongoing),
            _ => true,
        }
    }

    /// The state after an event of the drawing area.
    pub open spec fn after_event(self, area: DrawingArea, event: AreaEvent) -> GridState {
        match event {
            AreaEvent::Pressed { button, x, y } => self.clicked(area, x, y, Some(button.paint())),
            AreaEvent::Released { .. } => self.released(),
            AreaEvent::UnpairedRelease { .. } => self.released(),
            AreaEvent::DragBegan { button, start } => self.drag_began(
                area,
                start,
                Some(button.paint()),
            ),
            AreaEvent::DragMoved { button, position } => self.dragged(
                area,
                position,
                Some(button.paint()),
            ),
            AreaEvent::Resized => self.resized(),
        }
    }

    pub open spec fn event_effects(self, event: AreaEvent) -> Seq<GridEffect> {
        match event {
            AreaEvent::Pressed { .. } => self.click_effects(),
            AreaEvent::Released { .. } => seq![],
            AreaEvent::UnpairedRelease { .. } => seq![],
            AreaEvent::DragBegan { start, .. } => self.drag_begin_effects(start),
            AreaEvent::DragMoved { position, .. } => self.drag_effects(position),
            AreaEvent::Resized => self.resize_effects(),
        }
    }
}

} // verus!
