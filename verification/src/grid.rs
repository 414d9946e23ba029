use crate::cell::UniverseCell;
use crate::effect::GridEffect;
use crate::geometry::{is_addressable, widget_area_point_to_universe_cell, DrawingArea};
use crate::paint::{push_live_ops, PaintOp};
use crate::pointer::{AreaEvent, DragPosition, GestureBinding, GestureKind, PointerButton};
use crate::property::{
    GridProperty, PropertyAccess, PropertyDefault, PropertySpec, PropertyValue,
};
use crate::request::{optional_view, UniverseGridRequest};
use crate::state::{
    GridState, Rgba, UniverseGridInteractionState, UniverseGridMode, DEFAULT_SIDE,
    UNFREEZE_DELAY_MS,
};
use crate::ticker::Ticker;
use crate::universe::{Universe, UniversePoint, UniverseSnapshot, UniverseView};
use core::ops::Not;
use vstd::prelude::*;

verus! {

/// The state of a grid widget.
#[derive(Debug)]
pub struct GameOfLifeUniverseGrid {
    mode: UniverseGridMode,
    frozen: bool,
    universe: Option<Universe>,
    running: bool,
    allow_draw_on_resize: bool,
    fg_color: Option<Rgba>,
    bg_color: Option<Rgba>,
    interaction_state: UniverseGridInteractionState,
}

impl View for GameOfLifeUniverseGrid {
    type V = GridState;

    closed spec fn view(&self) -> GridState {
        GridState {
            mode: self.mode,
            frozen: self.frozen,
            universe: optional_view(self.universe),
            running: self.running,
            allow_draw_on_resize: self.allow_draw_on_resize,
            fg_color: self.fg_color,
            bg_color: self.bg_color,
            interaction: self.interaction_state,
        }
    }
}

impl Default for GameOfLifeUniverseGrid {
    /// A grid without a universe and without colors.
    fn default() -> (grid: Self)
        ensures
            grid.wf(),
            grid@ == GridState::blank(),
    {
        GameOfLifeUniverseGrid {
            mode: UniverseGridMode::default(),
            frozen: false,
            universe: None,
            running: false,
            allow_draw_on_resize: false,
            fg_color: None,
            bg_color: None,
            interaction_state: UniverseGridInteractionState::default(),
        }
    }
}

/// The answer to a processed request.
#[derive(Debug)]
pub struct Processed {
    pub effects: Vec<GridEffect>,
    /// Whether further requests shall be delivered.
    pub go_on: bool,
}

/// The answer to a start of the simulation.
#[derive(Debug)]
pub struct Started {
    pub effects: Vec<GridEffect>,
    /// The simulation to run, where there is a universe to simulate.
    pub ticker: Option<Ticker>,
}

impl Started {
    /// The ticker, if there is one, starts from `universe`.
    pub open spec fn simulates(&self, universe: Option<UniverseView>) -> bool {
        match (self.ticker, universe) {
            (Some(ticker), Some(u)) => ticker.wf() && ticker@ == u,
            (None, None) => true,
            _ => false,
        }
    }
}

impl GameOfLifeUniverseGrid {
    pub open spec fn wf(&self) -> bool {
        self@.wf()
    }

    /// A grid over a universe of the given size and cells, listed row after row.
    /// It starts in run mode.
    pub fn new(
        universe_width: usize,
        universe_height: usize,
        cells: Vec<UniverseCell>,
        fg_color: Rgba,
        bg_color: Rgba,
    ) -> (grid: Self)
        requires
            cells@.len() == universe_width * universe_height,
        ensures
            grid.wf(),
            grid@ == GridState::initial(
                UniverseView {
                    rows: universe_width as nat,
                    columns: universe_height as nat,
                    cells: cells@,
                },
                fg_color,
                bg_color,
            ),
    {
        let mut this: GameOfLifeUniverseGrid = Self::default();

        this.universe = Some(Universe::from_cells(universe_width, universe_height, cells));

        // Start universe in running mode
        this.mode = UniverseGridMode::Run;

        this.fg_color = Some(fg_color);
        this.bg_color = Some(bg_color);

        this
    }

    /// The properties of a grid.
    pub fn properties() -> (specs: Vec<PropertySpec>)
        ensures
            specs@ == seq![
                PropertySpec {
                    property: GridProperty::Mode,
                    default: PropertyDefault::Enumerated(1),
                    access: PropertyAccess::ReadWrite,
                },
                PropertySpec {
                    property: GridProperty::AllowDrawOnResize,
                    default: PropertyDefault::Boolean(false),
                    access: PropertyAccess::ReadWrite,
                },
                PropertySpec {
                    property: GridProperty::Frozen,
                    default: PropertyDefault::Boolean(false),
                    access: PropertyAccess::ReadWrite,
                },
                PropertySpec {
                    property: GridProperty::IsRunning,
                    default: PropertyDefault::Boolean(false),
                    access: PropertyAccess::Readable,
                },
            ],
    {
        vec![
            PropertySpec {
                property: GridProperty::Mode,
                default: PropertyDefault::Enumerated(1),
                access: PropertyAccess::ReadWrite,
            },
            PropertySpec {
                property: GridProperty::AllowDrawOnResize,
                default: PropertyDefault::Boolean(false),
                access: PropertyAccess::ReadWrite,
            },
            PropertySpec {
                property: GridProperty::Frozen,
                default: PropertyDefault::Boolean(false),
                access: PropertyAccess::ReadWrite,
            },
            PropertySpec {
                property: GridProperty::IsRunning,
                default: PropertyDefault::Boolean(false),
                access: PropertyAccess::Readable,
            },
        ]
    }

    /// Tells whether the property of a given name can be set to a value of the
    /// type of `value`.
    pub fn can_set_property(name: &str, value: &PropertyValue) -> (settable: bool)
        ensures
            settable == GridState::settable(name@, *value),
    {
        match (GridProperty::from_name(name), value) {
            (Some(GridProperty::AllowDrawOnResize), PropertyValue::Boolean(_)) => true,
            (Some(GridProperty::Mode), PropertyValue::Mode(_)) => true,
            (Some(GridProperty::Frozen), PropertyValue::Boolean(_)) => true,
            _ => false,
        }
    }

    /// Sets the property of a given name.
    pub fn set_property(&mut self, name: &str, value: PropertyValue) -> (effects: Vec<GridEffect>)
        requires
            old(self).wf(),
            GridState::settable(name@, value),
        ensures
            final(self).wf(),
            final(self)@ == old(self)@.with_property(name@, value),
            effects@ == GridState::property_effects(name@, value),
    {
        match (GridProperty::from_name(name), value) {
            (Some(GridProperty::AllowDrawOnResize), PropertyValue::Boolean(value)) => {
                self.set_allow_draw_on_resize(value);
                Vec::new()
            },
            (Some(GridProperty::Mode), PropertyValue::Mode(value)) => self.set_mode(value),
            (Some(GridProperty::Frozen), PropertyValue::Boolean(value)) => self.set_frozen(value),
            _ => Vec::new(),
        }
    }

    /// The value of the property of a given name.
    pub fn property(&self, name: &str) -> (value: PropertyValue)
        requires
            GridProperty::titled(name@) is Some,
        ensures
            value == self@.property_value(GridProperty::titled(name@)->0),
    {
        match GridProperty::from_name(name) {
            Some(GridProperty::Mode) => PropertyValue::Mode(self.mode),
            Some(GridProperty::Frozen) => PropertyValue::Boolean(self.frozen),
            Some(GridProperty::AllowDrawOnResize) => PropertyValue::Boolean(
                self.allow_draw_on_resize,
            ),
            _ => PropertyValue::Boolean(self.is_running()),
        }
    }

    /// The gesture controllers that the drawing area needs. What they report is
    /// handed to `on_drawing_area_event`.
    pub fn setup_drawing_area() -> (bindings: Vec<GestureBinding>)
        ensures
            bindings@ == seq![
                GestureBinding { kind: GestureKind::Click, button: PointerButton::Primary },
                GestureBinding { kind: GestureKind::Click, button: PointerButton::Secondary },
                GestureBinding { kind: GestureKind::Drag, button: PointerButton::Primary },
                GestureBinding { kind: GestureKind::Drag, button: PointerButton::Secondary },
            ],
    {
        vec![
            GestureBinding { kind: GestureKind::Click, button: PointerButton::Primary },
            GestureBinding { kind: GestureKind::Click, button: PointerButton::Secondary },
            GestureBinding { kind: GestureKind::Drag, button: PointerButton::Primary },
            GestureBinding { kind: GestureKind::Drag, button: PointerButton::Secondary },
        ]
    }

    /// Tells whether every position at which `event` would edit the universe has a
    /// cell.
    pub fn accepts(&self, drawing_area: &DrawingArea, event: &AreaEvent) -> (accepted: bool)
        ensures
            accepted == self@.accepts(*drawing_area, *event),
    {
        match *event {
            AreaEvent::Pressed { x, y, .. } => {
                self.mode != UniverseGridMode::Design || self.can_alter(drawing_area, x, y)
            },
            AreaEvent::DragBegan { start: Some((x, y)), .. } => {
                self.interaction_state != UniverseGridInteractionState::Ongoing || self.can_alter(
                    drawing_area,
                    x,
                    y,
                )
            },
            AreaEvent::DragMoved { position: DragPosition::At { x, y }, .. } => {
                self.interaction_state != UniverseGridInteractionState::Ongoing || self.can_alter(
                    drawing_area,
                    x,
                    y,
                )
            },
            AreaEvent::DragMoved { position: DragPosition::StartUnknown, .. } => {
                self.interaction_state != UniverseGridInteractionState::Ongoing
            },
            _ => true,
        }
    }

    /// Reacts to what happens to the drawing area.
    pub fn on_drawing_area_event(&mut self, drawing_area: &DrawingArea, event: AreaEvent) -> (effects:
        Vec<GridEffect>)
        requires
            old(self).wf(),
            old(self)@.accepts(*drawing_area, event),
        ensures
            final(self).wf(),
            final(self)@ == old(self)@.after_event(*drawing_area, event),
            effects@ == old(self)@.event_effects(event),
    {
        match event {
            AreaEvent::Pressed { button, x, y } => {
                self.on_drawing_area_clicked(drawing_area, x, y, Some(button.painted_cell()))
            },
            AreaEvent::Released { .. } => {
                self.on_drawing_area_click_released();
                Vec::new()
            },
            AreaEvent::UnpairedRelease { .. } => {
                self.on_drawing_area_click_unpaired_released();
                Vec::new()
            },
            AreaEvent::DragBegan { button, start } => {
                self.on_drawing_area_drag_begin(drawing_area, start, Some(button.painted_cell()))
            },
            AreaEvent::DragMoved { button, position } => {
                self.on_drawing_area_drag_move(drawing_area, position, Some(button.painted_cell()))
            },
            AreaEvent::Resized => self.on_drawing_area_resized(),
        }
    }

    /// Freezes the grid for a moment, unless it may be drawn while it is resized.
    pub fn on_drawing_area_resized(&mut self) -> (effects: Vec<GridEffect>)
        requires
            old(self).wf(),
        ensures
            final(self).wf(),
            final(self)@ == old(self)@.resized(),
            effects@ == old(self)@.resize_effects(),
    {
        if !self.allow_draw_on_resize() {
            let mut effects: Vec<GridEffect> = self.set_frozen(true);
            effects.push(GridEffect::ScheduleUnfreeze { delay_ms: UNFREEZE_DELAY_MS });
            effects
        } else {
            Vec::new()
        }
    }

    /// Carries a request out.
    pub fn process_action(&mut self, action: UniverseGridRequest) -> (processed: Processed)
        requires
            old(self).wf(),
            action.wf(),
        ensures
            final(self).wf(),
            final(self)@ == old(self)@.after_request(action@),
            final(self)@ == match action {
                UniverseGridRequest::Unfreeze => (GridState { frozen: false, ..old(self)@ }),
                UniverseGridRequest::Redraw(Some(universe)) => (GridState {
                    universe: Some(universe@),
                    ..old(self)@
                }),
                UniverseGridRequest::Redraw(None) => old(self)@,
            },
            processed.effects@ == seq![GridEffect::QueueDraw],
            processed.go_on,
    {
        let effects: Vec<GridEffect> = match action {
            UniverseGridRequest::Unfreeze => self.set_frozen(false),
            UniverseGridRequest::Redraw(new_universe_state) => {
                if let Some(new_universe_state) = new_universe_state {
                    self.universe = Some(new_universe_state);
                }
                self.redraw()
            },
        };
        Processed { effects, go_on: true }
    }

    /// Starts an interaction and edits the cell under the pointer, in design mode.
    pub fn on_drawing_area_clicked(
        &mut self,
        drawing_area: &DrawingArea,
        x: i32,
        y: i32,
        alter_state: Option<UniverseCell>,
    ) -> (effects: Vec<GridEffect>)
        requires
            old(self).wf(),
            old(self)@.mode is Design ==> old(self)@.alterable(*drawing_area, x, y),
        ensures
            final(self).wf(),
            final(self)@ == old(self)@.clicked(*drawing_area, x, y, alter_state),
            effects@ == old(self)@.click_effects(),
    {
        if self.mode() == UniverseGridMode::Design {
            self.interaction_state = UniverseGridInteractionState::Ongoing;
            self.alter_universe_point(drawing_area, x, y, alter_state)
        } else {
            Vec::new()
        }
    }

    /// Ends an interaction.
    pub fn on_drawing_area_click_released(&mut self)
        requires
            old(self).wf(),
        ensures
            final(self).wf(),
            final(self)@ == old(self)@.released(),
    {
        self.interaction_state = UniverseGridInteractionState::Idle;
    }

    /// Ends an interaction whose release came without its press.
    pub fn on_drawing_area_click_unpaired_released(&mut self)
        requires
            old(self).wf(),
        ensures
            final(self).wf(),
            final(self)@ == old(self)@.released(),
    {
        self.interaction_state = UniverseGridInteractionState::Idle;
    }

    /// Edits the cell where a drag begins, during an interaction.
    pub fn on_drawing_area_drag_begin(
        &mut self,
        drawing_area: &DrawingArea,
        start_point: Option<(i32, i32)>,
        alter_state: Option<UniverseCell>,
    ) -> (effects: Vec<GridEffect>)
        requires
            old(self).wf(),
            old(self)@.interaction is Ongoing ==> (start_point matches Some((x, y))
                ==> old(self)@.alterable(*drawing_area, x, y)),
        ensures
            final(self).wf(),
            final(self)@ == old(self)@.drag_began(*drawing_area, start_point, alter_state),
            effects@ == old(self)@.drag_begin_effects(start_point),
    {
        if self.interaction_state == UniverseGridInteractionState::Ongoing {
            if let Some((x, y)) = start_point {
                return self.alter_universe_point(drawing_area, x, y, alter_state);
            }
        }
        Vec::new()
    }

    /// Edits the cell that a drag has come to, during an interaction.
    pub fn on_drawing_area_drag_move(
        &mut self,
        drawing_area: &DrawingArea,
        position: DragPosition,
        alter_state: Option<UniverseCell>,
    ) -> (effects: Vec<GridEffect>)
        requires
            old(self).wf(),
            old(self)@.interaction is Ongoing ==> match position {
                DragPosition::At { x, y } => old(self)@.alterable(*drawing_area, x, y),
                DragPosition::StartUnknown => false,
                DragPosition::OffsetUnknown => true,
            },
        ensures
            final(self).wf(),
            final(self)@ == old(self)@.dragged(*drawing_area, position, alter_state),
            effects@ == old(self)@.drag_effects(position),
    {
        if self.interaction_state == UniverseGridInteractionState::Ongoing {
            if let DragPosition::At { x, y } = position {
                return self.alter_universe_point(drawing_area, x, y, alter_state);
            }
        }
        Vec::new()
    }

    /// Tells whether there is a cell for the position `x`, `y`, if there is a
    /// universe at all.
    pub fn can_alter(&self, drawing_area: &DrawingArea, x: i32, y: i32) -> (alterable: bool)
        ensures
            alterable == self@.alterable(*drawing_area, x, y),
    {
        match &self.universe {
            Some(universe) => is_addressable(drawing_area, universe, x, y),
            None => true,
        }
    }

    /// Alters the universe cell visually located at `x` and `y` coordinates. If `Some(value)`
    /// is provided it will be used as the new cell value, else the opposite value of the current
    /// one will be set
    pub fn alter_universe_point(
        &mut self,
        drawing_area: &DrawingArea,
        x: i32,
        y: i32,
        value: Option<UniverseCell>,
    ) -> (effects: Vec<GridEffect>)
        requires
            old(self).wf(),
            old(self)@.alterable(*drawing_area, x, y),
        ensures
            final(self).wf(),
            final(self)@ == old(self)@.altered(*drawing_area, x, y, value),
            effects@ == old(self)@.alter_effects(),
    {
        let point: Option<UniversePoint> = widget_area_point_to_universe_cell(
            drawing_area,
            self.universe.as_ref(),
            x,
            y,
        );
        if let Some(universe_point) = point {
            if let Some(universe) = &mut self.universe {
                let next_value: UniverseCell = match value {
                    Some(v) => v,
                    None => universe_point.cell().not(),
                };
                universe.set_cell(universe_point.row(), universe_point.column(), next_value);
            }
            self.redraw()
        } else {
            Vec::new()
        }
    }

    /// Tells whether a frame can be painted.
    pub fn can_render(&self) -> (renderable: bool)
        ensures
            renderable == self@.renderable(),
    {
        self.frozen || (self.fg_color.is_some() && self.bg_color.is_some())
    }

    /// What a frame of `width` by `height` pixels consists of.
    pub fn render(&self, width: i32, height: i32) -> (ops: Vec<PaintOp>)
        requires
            self.wf(),
            self@.renderable(),
        ensures
            ops@ == self@.frame(width, height),
    {
        let mut ops: Vec<PaintOp> = Vec::new();
        if !self.frozen() {
            // Determine colors
            let fg_color: Rgba = self.fg_color.unwrap();
            let bg_color: Rgba = self.bg_color.unwrap();

            ops.push(PaintOp::SetSource(bg_color));
            ops.push(PaintOp::FillArea { width, height });

            if let Some(universe) = &self.universe {
                ops.push(PaintOp::SetSource(fg_color));
                push_live_ops(universe, width, height, &mut ops);
            } else {
                ops.push(PaintOp::NoUniverse);
            }
        }
        ops
    }

    pub fn mode(&self) -> (mode: UniverseGridMode)
        ensures
            mode == self@.mode,
    {
        self.mode
    }

    /// Changes the mode, unless the grid is running.
    pub fn set_mode(&mut self, value: UniverseGridMode) -> (effects: Vec<GridEffect>)
        requires
            old(self).wf(),
        ensures
            final(self).wf(),
            final(self)@ == old(self)@.with_mode(value),
            effects@ == seq![GridEffect::NotifyMode],
    {
        if !self.is_running() {
            self.mode = value;
        }
        vec![GridEffect::NotifyMode]
    }

    pub fn is_running(&self) -> (running: bool)
        ensures
            running == self@.running,
    {
        self.running
    }

    /// Freezes or unfreezes the grid. It is drawn again when it is unfrozen.
    pub fn set_frozen(&mut self, value: bool) -> (effects: Vec<GridEffect>)
        requires
            old(self).wf(),
        ensures
            final(self).wf(),
            final(self)@ == old(self)@.with_frozen(value),
            effects@ == if value {
                seq![]
            } else {
                seq![GridEffect::QueueDraw]
            },
    {
        let effects: Vec<GridEffect> = match value {
            false => vec![GridEffect::QueueDraw],
            _ => Vec::new(),
        };
        self.frozen = value;
        effects
    }

    pub fn frozen(&self) -> (frozen: bool)
        ensures
            frozen == self@.frozen,
    {
        self.frozen
    }

    pub fn allow_draw_on_resize(&self) -> (allowed: bool)
        ensures
            allowed == self@.allow_draw_on_resize,
    {
        self.allow_draw_on_resize
    }

    pub fn set_allow_draw_on_resize(&mut self, value: bool)
        requires
            old(self).wf(),
        ensures
            final(self).wf(),
            final(self)@ == (GridState { allow_draw_on_resize: value, ..old(self)@ }),
    {
        self.allow_draw_on_resize = value;
    }

    /// Starts the simulation on a copy of the universe. A simulation that was
    /// running before ends when its stopper is replaced.
    pub fn run(&mut self) -> (started: Started)
        requires
            old(self).wf(),
        ensures
            final(self).wf(),
            final(self)@ == old(self)@.started(),
            started.effects@ == old(self)@.start_effects(),
            started.simulates(old(self)@.universe),
            started.ticker is Some <==> old(self)@.universe is Some,
            started.ticker is Some <==> started.effects@.contains(GridEffect::SpawnTicker),
            started.ticker matches Some(ticker) ==> ticker.wf() && Some(ticker@)
                == old(self)@.universe,
    {
        let mut effects: Vec<GridEffect> = self.set_mode(UniverseGridMode::Run);
        self.running = true;
        effects.push(GridEffect::InstallStopper);

        let ticker: Option<Ticker> = if let Some(universe) = &self.universe {
            effects.push(GridEffect::SpawnTicker);
            effects.push(GridEffect::NotifyIsRunning);
            Some(Ticker::new(universe.clone()))
        } else {
            effects.push(GridEffect::WarnNoUniverse);
            None
        };
        proof {
            crate::step_laws::law_start_asks_for_a_ticker(old(self)@);
            assert(effects@ == old(self)@.start_effects());
        }
        Started { effects, ticker }
    }

    /// Stops the simulation.
    pub fn halt(&mut self) -> (effects: Vec<GridEffect>)
        requires
            old(self).wf(),
        ensures
            final(self).wf(),
            final(self)@ == old(self)@.stopped(),
            effects@ == old(self)@.stop_effects(),
    {
        self.running = false;
        vec![GridEffect::DropStopper, GridEffect::NotifyIsRunning]
    }

    /// Stops the simulation if it is running, and starts it if it is not.
    pub fn toggle_run(&mut self) -> (started: Started)
        requires
            old(self).wf(),
        ensures
            final(self).wf(),
            final(self)@ == old(self)@.toggled(),
            started.effects@ == old(self)@.toggle_effects(),
            started.simulates(
                if old(self)@.running {
                    None
                } else {
                    old(self)@.universe
                },
            ),
            started.ticker is Some <==> !old(self)@.running && old(self)@.universe is Some,
            started.ticker is Some <==> started.effects@.contains(GridEffect::SpawnTicker),
            started.ticker matches Some(ticker) ==> ticker.wf() && Some(ticker@)
                == old(self)@.universe,
    {
        if self.is_running() {
            Started { effects: self.halt(), ticker: None }
        } else {
            self.run()
        }
    }

    /// Tells whether there is a universe.
    pub fn has_universe(&self) -> (present: bool)
        ensures
            present == (self@.universe is Some),
    {
        self.universe.is_some()
    }

    pub fn get_universe_snapshot(&self) -> (snapshot: UniverseSnapshot)
        requires
            self@.universe is Some,
        ensures
            self@.universe == Some(snapshot@),
    {
        self.universe.as_ref().unwrap().snapshot()
    }

    /// The number of rows and of columns that a new random universe gets: those of
    /// the current universe, or a default where there is none.
    pub fn seed_size(&self) -> (size: (usize, usize))
        ensures
            size.0 == self@.seed_rows(),
            size.1 == self@.seed_columns(),
    {
        match &self.universe {
            Some(universe) => (universe.rows(), universe.columns()),
            None => (DEFAULT_SIDE, DEFAULT_SIDE),
        }
    }

    /// Replaces the universe by one of the same size with the given cells, drawn at
    /// random and listed row after row.
    pub fn random_seed(&mut self, cells: Vec<UniverseCell>) -> (effects: Vec<GridEffect>)
        requires
            old(self).wf(),
            cells@.len() == old(self)@.seed_rows() * old(self)@.seed_columns(),
        ensures
            final(self).wf(),
            final(self)@ == old(self)@.seeded(cells@),
            effects@ == seq![GridEffect::QueueDraw],
    {
        let (rows, cols): (usize, usize) = self.seed_size();
        let new_universe: Universe = Universe::from_cells(rows, cols, cells);
        self.process_action(UniverseGridRequest::Redraw(Some(new_universe))).effects
    }

    pub fn set_universe(&mut self, universe: Universe) -> (effects: Vec<GridEffect>)
        requires
            old(self).wf(),
            universe.wf(),
        ensures
            final(self).wf(),
            final(self)@ == old(self)@.with_universe(universe@),
            effects@ == seq![GridEffect::QueueDraw],
    {
        self.universe = Some(universe);
        self.redraw()
    }

    /// Asks for the grid to be drawn again.
    pub fn redraw(&self) -> (effects: Vec<GridEffect>)
        ensures
            effects@ == seq![GridEffect::QueueDraw],
    {
        vec![GridEffect::QueueDraw]
    }

    pub fn set_cell_color(&mut self, color: Option<Rgba>) -> (effects: Vec<GridEffect>)
        requires
            old(self).wf(),
        ensures
            final(self).wf(),
            final(self)@ == (GridState { fg_color: color, ..old(self)@ }),
            effects@ == seq![GridEffect::QueueDraw],
    {
        self.fg_color = color;
        self.redraw()
    }

    pub fn set_background_color(&mut self, color: Option<Rgba>) -> (effects: Vec<GridEffect>)
        requires
            old(self).wf(),
        ensures
            final(self).wf(),
            final(self)@ == (GridState { bg_color: color, ..old(self)@ }),
            effects@ == seq![GridEffect::QueueDraw],
    {
        self.bg_color = color;
        self.redraw()
    }

    pub fn rows(&self) -> (rows: usize)
        requires
            self@.universe is Some,
        ensures
            rows == self@.universe->0.rows,
    {
        self.universe.as_ref().unwrap().rows()
    }

    pub fn columns(&self) -> (columns: usize)
        requires
            self@.universe is Some,
        ensures
            columns == self@.universe->0.columns,
    {
        self.universe.as_ref().unwrap().columns()
    }
}

} // verus!
