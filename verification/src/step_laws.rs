//! What each step of a grid does to each part of its state and what it asks of its
//! surroundings.

use crate::cell::UniverseCell;
use crate::effect::GridEffect;
use crate::geometry::DrawingArea;
use crate::grid::Started;
use crate::pointer::{AreaEvent, DragPosition, PointerButton};
use crate::property::{GridProperty, PropertyValue};
use crate::request::{optional_view, RequestView, UniverseGridRequest};
use crate::state::{GridState, Rgba, UniverseGridInteractionState, UniverseGridMode};
use crate::ticker::{TickerAction, TickerActionView, TickerEvent};
use crate::universe::{Universe, UniverseView};
use vstd::prelude::*;

verus! {

/// Some `first` stands before some `second`.
pub open spec fn comes_before(
    effects: Seq<GridEffect>,
    first: GridEffect,
    second: GridEffect,
) -> bool {
    exists|i: int, j: int|
        0 <= i < j < effects.len() && #[trigger] effects[i] == first && #[trigger] effects[j]
            == second
}

/// `effect` stands in the list, and at one position only.
pub open spec fn asked_once(effects: Seq<GridEffect>, effect: GridEffect) -> bool {
    &&& effects.contains(effect)
    &&& forall|i: int, j: int|
        0 <= i < effects.len() && 0 <= j < effects.len() && effects[i] == effect && effects[j]
            == effect ==> i == j
}

/// `after` is `before` but for one cell of the universe, the one at `row` and `column`,
/// which has `value`.
pub open spec fn edited(
    before: GridState,
    after: GridState,
    row: int,
    column: int,
    value: UniverseCell,
) -> bool {
    let u = before.universe->0;
    let v = after.universe->0;
    &&& before.universe is Some
    &&& after.universe is Some
    &&& after == (GridState { universe: after.universe, ..before })
    &&& v.rows == u.rows
    &&& v.columns == u.columns
    &&& v.cells.len() == u.cells.len()
    &&& v.cells[row * u.columns + column] == value
    &&& forall|i: int|
        0 <= i < u.cells.len() && i != row * u.columns + column ==> v.cells[i] == u.cells[i]
}

/// The value that a button leaves behind.
pub open spec fn left_behind(button: PointerButton) -> UniverseCell {
    if button is Primary {
        UniverseCell::Alive
    } else {
        UniverseCell::Dead
    }
}

/// A state is valid if its universe has one cell for each place and fits the machine, and
/// if it is in run mode wherever it is running.
pub proof fn law_valid_states(state: GridState)
    ensures
        state.wf() <==> {
            &&& state.universe is Some ==> {
                &&& state.universe->0.cells.len() == state.universe->0.rows
                    * state.universe->0.columns
                &&& state.universe->0.rows <= usize::MAX
                &&& state.universe->0.columns <= usize::MAX
            }
            &&& !(state.running && state.mode is Design)
        },
{
}

/// A new grid shows its universe in its colors, in run mode; it is neither running nor
/// frozen, and no interaction is under way.
pub proof fn law_new_grid(universe: UniverseView, fg_color: Rgba, bg_color: Rgba)
    ensures
        ({
            let state = GridState::initial(universe, fg_color, bg_color);
            &&& state.universe == Some(universe)
            &&& state.fg_color == Some(fg_color)
            &&& state.bg_color == Some(bg_color)
            &&& state.mode is Run
            &&& !state.running
            &&& !state.frozen
            &&& !state.allow_draw_on_resize
            &&& state.interaction is Idle
        }),
        ({
            let state = GridState::blank();
            &&& state.universe is None
            &&& state.fg_color is None
            &&& state.bg_color is None
            &&& state.mode is Run
            &&& !state.running
            &&& !state.frozen
            &&& !state.allow_draw_on_resize
            &&& state.interaction is Idle
        }),
{
}

/// Freezing and unfreezing, and giving a new universe, change that part of the state and
/// no other.
pub proof fn law_setting_changes_one_part(state: GridState, frozen: bool, universe: UniverseView)
    ensures
        state.with_frozen(frozen) == (GridState { frozen, ..state }),
        state.with_universe(universe) == (GridState { universe: Some(universe), ..state }),
        state.running ==> state.with_mode(UniverseGridMode::Design) == state,
        state.running ==> state.with_mode(UniverseGridMode::Run) == state,
        !state.running ==> state.with_mode(UniverseGridMode::Design) == (GridState {
            mode: UniverseGridMode::Design,
            ..state
        }),
        !state.running ==> state.with_mode(UniverseGridMode::Run) == (GridState {
            mode: UniverseGridMode::Run,
            ..state
        }),
{
}

/// A start announces the mode, then puts a stopper in place, once. Where there is a
/// universe it then spawns one ticker and after that announces that the grid runs; where
/// there is none it warns instead. It asks for nothing else.
pub proof fn law_start_asks_for_a_ticker(state: GridState)
    ensures
        ({
            let effects = state.start_effects();
            &&& asked_once(effects, GridEffect::NotifyMode)
            &&& asked_once(effects, GridEffect::InstallStopper)
            &&& comes_before(effects, GridEffect::NotifyMode, GridEffect::InstallStopper)
            &&& state.universe is Some ==> {
                &&& asked_once(effects, GridEffect::SpawnTicker)
                &&& asked_once(effects, GridEffect::NotifyIsRunning)
                &&& comes_before(effects, GridEffect::InstallStopper, GridEffect::SpawnTicker)
                &&& comes_before(effects, GridEffect::SpawnTicker, GridEffect::NotifyIsRunning)
                &&& effects.len() == 4
            }
            &&& state.universe is None ==> {
                &&& asked_once(effects, GridEffect::WarnNoUniverse)
                &&& comes_before(effects, GridEffect::InstallStopper, GridEffect::WarnNoUniverse)
                &&& effects.len() == 3
            }
            &&& effects.contains(GridEffect::SpawnTicker) <==> state.universe is Some
        }),
{
    let effects = state.start_effects();
    assert(effects[0] == GridEffect::NotifyMode);
    assert(effects[1] == GridEffect::InstallStopper);
    if state.universe is Some {
        assert(effects[2] == GridEffect::SpawnTicker);
        assert(effects[3] == GridEffect::NotifyIsRunning);
    } else {
        assert(effects[2] == GridEffect::WarnNoUniverse);
    }
}

/// A stop drops the stopper and then announces that the grid no longer runs. It asks for
/// nothing else.
pub proof fn law_stop_drops_the_stopper(state: GridState)
    ensures
        ({
            let effects = state.stop_effects();
            &&& asked_once(effects, GridEffect::DropStopper)
            &&& asked_once(effects, GridEffect::NotifyIsRunning)
            &&& comes_before(effects, GridEffect::DropStopper, GridEffect::NotifyIsRunning)
            &&& effects.len() == 2
        }),
{
    let effects = state.stop_effects();
    assert(effects[0] == GridEffect::DropStopper);
    assert(effects[1] == GridEffect::NotifyIsRunning);
}

/// Toggling is stopping where the grid runs and starting where it does not, in the state
/// that it leaves and in what it asks for.
pub proof fn law_toggle_is_start_or_stop(state: GridState)
    requires
        state.wf(),
    ensures
        state.running ==> {
            &&& state.toggled() == (GridState { running: false, ..state })
            &&& state.toggle_effects() == state.stop_effects()
            &&& asked_once(state.toggle_effects(), GridEffect::DropStopper)
            &&& !state.toggle_effects().contains(GridEffect::SpawnTicker)
            &&& !state.toggle_effects().contains(GridEffect::InstallStopper)
        },
        !state.running ==> {
            &&& state.toggled() == (GridState {
                running: true,
                mode: UniverseGridMode::Run,
                ..state
            })
            &&& state.toggle_effects() == state.start_effects()
            &&& asked_once(state.toggle_effects(), GridEffect::InstallStopper)
            &&& !state.toggle_effects().contains(GridEffect::DropStopper)
            &&& state.universe is Some ==> {
                &&& asked_once(state.toggle_effects(), GridEffect::SpawnTicker)
                &&& comes_before(
                    state.toggle_effects(),
                    GridEffect::InstallStopper,
                    GridEffect::SpawnTicker,
                )
            }
        },
{
    law_start_asks_for_a_ticker(state);
    law_stop_drops_the_stopper(state);
}

/// An answer to a start simulates a universe if it holds a ticker that has this universe,
/// and simulates none if it holds no ticker.
pub proof fn law_started_simulates(started: Started, universe: UniverseView)
    ensures
        started.simulates(Some(universe)) <==> (started.ticker is Some && started.ticker->0.wf()
            && started.ticker->0@ == universe),
        started.simulates(None) <==> started.ticker is None,
{
}

/// A resize that may not be drawn freezes the grid and asks once for it to be unfrozen
/// half a second later, and for nothing else, whatever else the state is. A resize that
/// may be drawn does and asks nothing.
pub proof fn law_every_freeze_is_followed_by_an_unfreeze(state: GridState, area: DrawingArea)
    ensures
        !state.allow_draw_on_resize ==> {
            &&& state.resized() == (GridState { frozen: true, ..state })
            &&& asked_once(state.resize_effects(), GridEffect::ScheduleUnfreeze { delay_ms: 500 })
            &&& state.resize_effects().len() == 1
        },
        state.allow_draw_on_resize ==> state.resized() == state && state.resize_effects().len()
            == 0,
        state.after_event(area, AreaEvent::Resized) == state.resized(),
        state.event_effects(AreaEvent::Resized) == state.resize_effects(),
{
    if !state.allow_draw_on_resize {
        assert(state.resize_effects()[0] == (GridEffect::ScheduleUnfreeze { delay_ms: 500 }));
    }
}

/// A position can be edited if there is no universe to edit, or a cell for it.
pub proof fn law_editable_positions(state: GridState, area: DrawingArea, x: i32, y: i32)
    ensures
        state.alterable(area, x, y) <==> (state.universe is None
            || state.universe->0.addressable(area, x, y)),
{
}

/// An edit with a value gives this value to the cell under the position, and one without
/// gives it the value that it does not have. No other cell and nothing else changes, and
/// one draw is asked for. Where there is no universe, nothing changes and nothing is asked.
pub proof fn law_edit_of_one_cell(
    state: GridState,
    area: DrawingArea,
    x: i32,
    y: i32,
    value: UniverseCell,
)
    requires
        state.wf(),
        state.universe is Some ==> state.universe->0.addressable(area, x, y),
    ensures
        state.universe is Some ==> {
            let u = state.universe->0;
            let row = u.row_under(area, x, y);
            let column = u.column_under(area, x, y);
            let inverted = state.altered(area, x, y, None);
            &&& edited(state, state.altered(area, x, y, Some(value)), row, column, value)
            &&& edited(
                state,
                inverted,
                row,
                column,
                inverted.universe->0.cells[row * u.columns + column],
            )
            &&& inverted.universe->0.cells[row * u.columns + column] != u.cells[row * u.columns
                + column]
            &&& asked_once(state.alter_effects(), GridEffect::QueueDraw)
            &&& state.alter_effects().len() == 1
        },
        state.universe is None ==> {
            &&& state.altered(area, x, y, Some(value)) == state
            &&& state.altered(area, x, y, None) == state
            &&& state.alter_effects().len() == 0
        },
{
    if state.universe is Some {
        let u = state.universe->0;
        let row = u.row_under(area, x, y);
        let column = u.column_under(area, x, y);
        crate::laws::law_alter_edits_one_cell(state, area, x, y, Some(value));
        crate::universe::lemma_index_of_place(u, row, column);
        assert(state.alter_effects()[0] == GridEffect::QueueDraw);
    }
}

/// A press in design mode begins an interaction and edits the cell under it: the primary
/// button brings it to life, the secondary one kills it. In run mode a press does and asks
/// nothing.
pub proof fn law_press_edits_in_design_mode(
    state: GridState,
    area: DrawingArea,
    button: PointerButton,
    x: i32,
    y: i32,
    value: Option<UniverseCell>,
)
    requires
        state.wf(),
        state.universe is Some ==> state.universe->0.addressable(area, x, y),
    ensures
        ({
            let event = AreaEvent::Pressed { button, x, y };
            let begun = GridState { interaction: UniverseGridInteractionState::Ongoing, ..state };
            let after = state.after_event(area, event);
            let effects = state.event_effects(event);
            &&& state.mode is Run ==> after == state && effects.len() == 0
            &&& state.mode is Design && state.universe is None ==> after == begun && effects.len()
                == 0
            &&& state.mode is Design && state.universe is Some ==> {
                &&& edited(
                    begun,
                    after,
                    state.universe->0.row_under(area, x, y),
                    state.universe->0.column_under(area, x, y),
                    left_behind(button),
                )
                &&& asked_once(effects, GridEffect::QueueDraw)
                &&& effects.len() == 1
            }
            &&& state.mode is Run ==> state.clicked(area, x, y, value) == state
            &&& state.mode is Design ==> state.clicked(area, x, y, value) == begun.altered(
                area,
                x,
                y,
                value,
            )
            &&& state.click_effects() == effects
        }),
{
    let begun = GridState { interaction: UniverseGridInteractionState::Ongoing, ..state };
    law_edit_of_one_cell(begun, area, x, y, left_behind(button));
    assert(state.alter_effects() == begun.alter_effects());
    assert(button.paint() == left_behind(button));
}

/// During an interaction a drag edits the cell where it begins and each cell that it comes
/// to: the primary button brings it to life, the secondary one kills it. Outside an
/// interaction, or without a known position, a drag does and asks nothing.
pub proof fn law_drag_edits_during_an_interaction(
    state: GridState,
    area: DrawingArea,
    button: PointerButton,
    x: i32,
    y: i32,
    value: Option<UniverseCell>,
)
    requires
        state.wf(),
        state.universe is Some ==> state.universe->0.addressable(area, x, y),
    ensures
        ({
            let began = AreaEvent::DragBegan { button, start: Some((x, y)) };
            let moved = AreaEvent::DragMoved { button, position: DragPosition::At { x, y } };
            let here = DragPosition::At { x, y };
            &&& !(state.interaction is Ongoing) || state.universe is None ==> {
                &&& state.after_event(area, began) == state
                &&& state.after_event(area, moved) == state
                &&& state.event_effects(began).len() == 0
                &&& state.event_effects(moved).len() == 0
            }
            &&& state.interaction is Ongoing && state.universe is Some ==> {
                let row = state.universe->0.row_under(area, x, y);
                let column = state.universe->0.column_under(area, x, y);
                &&& edited(
                    state,
                    state.after_event(area, began),
                    row,
                    column,
                    left_behind(button),
                )
                &&& edited(
                    state,
                    state.after_event(area, moved),
                    row,
                    column,
                    left_behind(button),
                )
                &&& asked_once(state.event_effects(began), GridEffect::QueueDraw)
                &&& asked_once(state.event_effects(moved), GridEffect::QueueDraw)
                &&& state.event_effects(began).len() == 1
                &&& state.event_effects(moved).len() == 1
            }
            &&& state.interaction is Ongoing ==> {
                &&& state.drag_began(area, Some((x, y)), value) == state.altered(area, x, y, value)
                &&& state.dragged(area, here, value) == state.altered(area, x, y, value)
            }
            &&& state.interaction is Idle ==> {
                &&& state.drag_began(area, Some((x, y)), value) == state
                &&& state.dragged(area, here, value) == state
            }
            &&& state.drag_begin_effects(Some((x, y))) == state.event_effects(began)
            &&& state.drag_effects(here) == state.event_effects(moved)
        }),
{
    law_edit_of_one_cell(state, area, x, y, left_behind(button));
    assert(button.paint() == left_behind(button));
}

/// A drag without a known position does and asks nothing, whatever the state.
pub proof fn law_drag_to_nowhere(
    state: GridState,
    area: DrawingArea,
    button: PointerButton,
    value: Option<UniverseCell>,
)
    ensures
        ({
            let began = AreaEvent::DragBegan { button, start: None };
            let moved = AreaEvent::DragMoved { button, position: DragPosition::OffsetUnknown };
            let lost = AreaEvent::DragMoved { button, position: DragPosition::StartUnknown };
            &&& state.after_event(area, began) == state
            &&& state.after_event(area, moved) == state
            &&& state.after_event(area, lost) == state
            &&& state.event_effects(began).len() == 0
            &&& state.event_effects(moved).len() == 0
            &&& state.event_effects(lost).len() == 0
            &&& state.drag_began(area, None, value) == state
            &&& state.dragged(area, DragPosition::OffsetUnknown, value) == state
            &&& state.dragged(area, DragPosition::StartUnknown, value) == state
            &&& state.drag_begin_effects(None).len() == 0
            &&& state.drag_effects(DragPosition::OffsetUnknown).len() == 0
            &&& state.drag_effects(DragPosition::StartUnknown).len() == 0
        }),
{
}

/// Any release of any button ends the interaction, and does and asks nothing else.
pub proof fn law_release_ends_the_interaction(
    state: GridState,
    area: DrawingArea,
    button: PointerButton,
)
    ensures
        ({
            let ended = GridState { interaction: UniverseGridInteractionState::Idle, ..state };
            &&& state.released() == ended
            &&& state.after_event(area, AreaEvent::Released { button }) == ended
            &&& state.after_event(area, AreaEvent::UnpairedRelease { button }) == ended
            &&& state.event_effects(AreaEvent::Released { button }).len() == 0
            &&& state.event_effects(AreaEvent::UnpairedRelease { button }).len() == 0
        }),
{
}

/// An event is refused only where it would edit a universe at a position that has no cell,
/// or a drag that would edit has lost its start.
pub proof fn law_accepted_events(
    state: GridState,
    area: DrawingArea,
    button: PointerButton,
    x: i32,
    y: i32,
)
    ensures
        ({
            let on_cell = state.universe is None || state.universe->0.addressable(area, x, y);
            let here = DragPosition::At { x, y };
            &&& state.accepts(area, AreaEvent::Pressed { button, x, y }) <==> (state.mode is Run
                || on_cell)
            &&& state.accepts(area, AreaEvent::DragBegan { button, start: Some((x, y)) }) <==> (
            state.interaction is Idle || on_cell)
            &&& state.accepts(area, AreaEvent::DragMoved { button, position: here }) <==> (
            state.interaction is Idle || on_cell)
            &&& state.accepts(
                area,
                AreaEvent::DragMoved { button, position: DragPosition::StartUnknown },
            ) <==> state.interaction is Idle
            &&& state.accepts(
                area,
                AreaEvent::DragMoved { button, position: DragPosition::OffsetUnknown },
            )
            &&& state.accepts(area, AreaEvent::DragBegan { button, start: None })
            &&& state.accepts(area, AreaEvent::Released { button })
            &&& state.accepts(area, AreaEvent::UnpairedRelease { button })
            &&& state.accepts(area, AreaEvent::Resized)
        }),
{
}

/// A new random universe is as large as the current one, and two hundred by two hundred
/// where there is none.
pub proof fn law_size_of_a_random_universe(state: GridState, cells: Seq<UniverseCell>)
    ensures
        state.universe is Some ==> {
            &&& state.seed_rows() == state.universe->0.rows
            &&& state.seed_columns() == state.universe->0.columns
        },
        state.universe is None ==> state.seed_rows() == 200 && state.seed_columns() == 200,
        state.seeded(cells).universe is Some,
        state.seeded(cells).universe->0.rows == state.seed_rows(),
        state.seeded(cells).universe->0.columns == state.seed_columns(),
        state.seeded(cells).universe->0.cells == cells,
        state.seeded(cells) == (GridState { universe: state.seeded(cells).universe, ..state }),
{
}

/// A request holds what it was made with.
pub proof fn law_content_of_requests(universe: Universe)
    ensures
        UniverseGridRequest::Unfreeze@ == RequestView::Unfreeze,
        UniverseGridRequest::Redraw(Some(universe))@ == RequestView::Redraw(Some(universe@)),
        UniverseGridRequest::Redraw(None)@ == RequestView::Redraw(None),
        UniverseGridRequest::Unfreeze.wf(),
        UniverseGridRequest::Redraw(None).wf(),
        UniverseGridRequest::Redraw(Some(universe)).wf() <==> universe.wf(),
        optional_view(Some(universe)) == Some(universe@),
        optional_view(None) is None,
{
}

/// An action of a ticker holds what it was made with.
pub proof fn law_content_of_ticker_actions(request: UniverseGridRequest, delay_ms: u64)
    ensures
        TickerAction::Probe@ == TickerActionView::Probe,
        TickerAction::Exit@ == TickerActionView::Exit,
        (TickerAction::Sleep { delay_ms })@ == (TickerActionView::Sleep { delay_ms }),
        TickerAction::Post(request)@ == TickerActionView::Post(request@),
        TickerAction::Post(request).wf() <==> request.wf(),
{
}

/// Whatever the universe, a ticker probes when it is spawned and after each post, waits a
/// fifth of a second after a delivered probe, posts the next generation after the wait and
/// ends after a probe that was not delivered. Its universe changes with the wait alone.
pub proof fn law_ticker_step(universe: UniverseView)
    ensures
        ({
            let delivered = TickerEvent::Probed { delivered: true };
            let refused = TickerEvent::Probed { delivered: false };
            &&& universe.ticker_action(TickerEvent::Spawned) is Probe
            &&& universe.ticker_action(TickerEvent::Posted) is Probe
            &&& universe.ticker_action(delivered) == (TickerActionView::Sleep { delay_ms: 200 })
            &&& universe.ticker_action(refused) is Exit
            &&& universe.ticker_action(TickerEvent::Slept) == TickerActionView::Post(
                RequestView::Redraw(Some(universe.next_generation())),
            )
            &&& universe.after_ticker_event(TickerEvent::Spawned) == universe
            &&& universe.after_ticker_event(TickerEvent::Posted) == universe
            &&& universe.after_ticker_event(delivered) == universe
            &&& universe.after_ticker_event(refused) == universe
            &&& universe.after_ticker_event(TickerEvent::Slept) == universe.next_generation()
        }),
{
}

proof fn lemma_names_differ()
    ensures
        "mode"@ != "allow-draw-on-resize"@,
        "mode"@ != "frozen"@,
        "mode"@ != "is-running"@,
        "allow-draw-on-resize"@ != "frozen"@,
        "allow-draw-on-resize"@ != "is-running"@,
        "frozen"@ != "is-running"@,
{
    reveal_strlit("mode");
    reveal_strlit("allow-draw-on-resize");
    reveal_strlit("frozen");
    reveal_strlit("is-running");
    assert("mode"@.len() == 4);
    assert("allow-draw-on-resize"@.len() == 20);
    assert("frozen"@.len() == 6);
    assert("is-running"@.len() == 10);
}

/// A name finds a property exactly if it is the name of the property.
pub proof fn law_names_find_their_properties(name: Seq<char>, property: GridProperty)
    ensures
        GridProperty::titled(name) == Some(property) <==> name == property.title(),
        GridProperty::titled(name) is Some <==> (name == "mode"@ || name
            == "allow-draw-on-resize"@ || name == "frozen"@ || name == "is-running"@),
        GridProperty::Mode.title() == "mode"@,
        GridProperty::AllowDrawOnResize.title() == "allow-draw-on-resize"@,
        GridProperty::Frozen.title() == "frozen"@,
        GridProperty::IsRunning.title() == "is-running"@,
{
    lemma_names_differ();
}

/// A property shows the part of the state that it is named after.
pub proof fn law_properties_show_the_state(state: GridState)
    ensures
        state.property_value(GridProperty::Mode) == PropertyValue::Mode(state.mode),
        state.property_value(GridProperty::Frozen) == PropertyValue::Boolean(state.frozen),
        state.property_value(GridProperty::IsRunning) == PropertyValue::Boolean(state.running),
        state.property_value(GridProperty::AllowDrawOnResize) == PropertyValue::Boolean(
            state.allow_draw_on_resize,
        ),
{
}

/// The mode can be set to a mode, and what may be drawn and whether the grid is frozen to
/// a truth value; nothing else can be set.
pub proof fn law_settable_properties(name: Seq<char>, value: PropertyValue)
    ensures
        GridState::settable(name, value) <==> {
            ||| name == "mode"@ && value is Mode
            ||| name == "allow-draw-on-resize"@ && value is Boolean
            ||| name == "frozen"@ && value is Boolean
        },
{
    lemma_names_differ();
}

/// Setting a property changes the part of the state that it is named after and no other,
/// but leaves the mode of a running grid. Setting the mode announces it, unfreezing asks
/// for one draw, and nothing else is asked for.
pub proof fn law_set_property_changes_one_part(
    state: GridState,
    mode: UniverseGridMode,
    value: bool,
)
    ensures
        ({
            let truth = PropertyValue::Boolean(value);
            let to_mode = PropertyValue::Mode(mode);
            &&& state.running ==> state.with_property("mode"@, to_mode) == state
            &&& !state.running ==> state.with_property("mode"@, to_mode) == (GridState {
                mode,
                ..state
            })
            &&& state.with_property("frozen"@, truth) == (GridState { frozen: value, ..state })
            &&& state.with_property("allow-draw-on-resize"@, truth) == (GridState {
                allow_draw_on_resize: value,
                ..state
            })
            &&& asked_once(
                GridState::property_effects("mode"@, to_mode),
                GridEffect::NotifyMode,
            )
            &&& GridState::property_effects("mode"@, to_mode).len() == 1
            &&& !value ==> asked_once(
                GridState::property_effects("frozen"@, truth),
                GridEffect::QueueDraw,
            )
            &&& GridState::property_effects("frozen"@, truth).len() == (if value {
                0int
            } else {
                1int
            })
            &&& GridState::property_effects("allow-draw-on-resize"@, truth).len() == 0
        }),
{
    lemma_names_differ();
    assert(GridState::property_effects("mode"@, PropertyValue::Mode(mode))[0]
        == GridEffect::NotifyMode);
    if !value {
        assert(GridState::property_effects("frozen"@, PropertyValue::Boolean(value))[0]
            == GridEffect::QueueDraw);
    }
}

} // verus!
