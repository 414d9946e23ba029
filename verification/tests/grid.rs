use universe_grid::{
    is_addressable, widget_area_point_to_universe_cell, AreaEvent, DragPosition, DrawingArea,
    GameOfLifeUniverseGrid, GestureBinding, GestureKind, GridEffect, GridProperty, PaintOp,
    PointerButton, PropertyAccess, PropertyDefault, PropertySpec, PropertyValue, Ratio, Rgba,
    Ticker, TickerAction, TickerEvent, Universe, UniverseCell, UniverseGridInteractionState,
    UniverseGridMode, UniverseGridRequest, UniversePoint,
};

const AREA: DrawingArea = DrawingArea { width: 100, height: 100 };

fn color(level: f32) -> Rgba {
    Rgba {
        red: level.to_bits(),
        green: level.to_bits(),
        blue: level.to_bits(),
        alpha: 1.0f32.to_bits(),
    }
}

fn cells(pattern: &str) -> Vec<UniverseCell> {
    pattern
        .chars()
        .map(|c| if c == '#' { UniverseCell::Alive } else { UniverseCell::Dead })
        .collect()
}

fn square_grid(pattern: &str) -> GameOfLifeUniverseGrid {
    GameOfLifeUniverseGrid::new(2, 2, cells(pattern), color(0.0), color(1.0))
}

fn design_grid(pattern: &str) -> GameOfLifeUniverseGrid {
    let mut grid = square_grid(pattern);
    grid.set_mode(UniverseGridMode::Design);
    grid
}

fn shown(grid: &GameOfLifeUniverseGrid) -> String {
    grid.get_universe_snapshot()
        .cells()
        .iter()
        .map(|c| if c.is_alive() { '#' } else { '.' })
        .collect()
}

fn pressed(button: PointerButton, x: i32, y: i32) -> AreaEvent {
    AreaEvent::Pressed { button, x, y }
}

fn moved(x: i32, y: i32) -> AreaEvent {
    AreaEvent::DragMoved { button: PointerButton::Primary, position: DragPosition::At { x, y } }
}

#[test]
fn a_new_grid_waits_in_run_mode() {
    let grid = square_grid(".##.");
    assert_eq!(grid.mode(), UniverseGridMode::Run);
    assert!(!grid.is_running());
    assert!(!grid.frozen());
    assert!(!grid.allow_draw_on_resize());
    assert_eq!((grid.rows(), grid.columns()), (2, 2));
    assert_eq!(shown(&grid), ".##.");
    assert!(grid.can_render());
    assert_eq!(UniverseGridInteractionState::default(), UniverseGridInteractionState::Idle);
}

#[test]
fn the_first_dimension_counts_rows() {
    let grid = GameOfLifeUniverseGrid::new(3, 1, cells("..#"), color(0.0), color(1.0));
    assert_eq!((grid.rows(), grid.columns()), (3, 1));
}

#[test]
fn points_map_onto_cells() {
    // Cells are painted 25 wide and 50 high, rows from left to right.
    let universe = Universe::from_cells(2, 4, cells("#....#.."));
    let at = |x: i32, y: i32| widget_area_point_to_universe_cell(&AREA, Some(&universe), x, y);
    assert_eq!(at(0, 0), Some(UniversePoint::new(0, 0, UniverseCell::Alive)));
    assert_eq!(at(24, 49), Some(UniversePoint::new(0, 0, UniverseCell::Alive)));
    assert_eq!(at(25, 49), Some(UniversePoint::new(1, 0, UniverseCell::Dead)));
    assert_eq!(at(24, 50), Some(UniversePoint::new(0, 1, UniverseCell::Dead)));
    assert_eq!(at(49, 99), Some(UniversePoint::new(1, 1, UniverseCell::Alive)));
    assert_eq!(widget_area_point_to_universe_cell(&AREA, None, 5, 5), None);
}

#[test]
fn blank_points_are_shared_out_among_rows_and_columns() {
    let wide = Universe::from_cells(2, 4, cells("....#..."));
    assert_eq!(
        widget_area_point_to_universe_cell(&AREA, Some(&wide), 99, 10),
        Some(UniversePoint::new(1, 0, UniverseCell::Alive))
    );
    let tall = Universe::from_cells(4, 2, cells(".#......"));
    assert_eq!(
        widget_area_point_to_universe_cell(&AREA, Some(&tall), 10, 99),
        Some(UniversePoint::new(0, 1, UniverseCell::Alive))
    );
    let wider = Universe::from_cells(3, 6, cells("......#..........."));
    let at = |x: i32, y: i32| widget_area_point_to_universe_cell(&AREA, Some(&wider), x, y);
    // Painted up to half the width; further right the width is cut in three.
    assert_eq!(at(49, 10).map(|p| p.row()), Some(2));
    assert_eq!(at(55, 10), Some(UniversePoint::new(1, 0, UniverseCell::Alive)));
    assert_eq!(at(55, 40).map(|p| p.column()), Some(2));
    assert_eq!(at(70, 99).map(|p| (p.row(), p.column())), Some((2, 5)));
}

#[test]
fn every_position_on_the_area_has_a_cell() {
    let area = DrawingArea { width: 10, height: 7 };
    for (rows, columns) in [(1, 1), (2, 2), (3, 3), (2, 4), (4, 2), (13, 5)] {
        let universe =
            Universe::from_cells(rows, columns, vec![UniverseCell::Dead; rows * columns]);
        for x in 0..=10 {
            for y in 0..=7 {
                assert!(is_addressable(&area, &universe, x, y));
                let point =
                    widget_area_point_to_universe_cell(&area, Some(&universe), x, y).unwrap();
                assert!(point.row() < rows && point.column() < columns);
            }
        }
    }
    let tall = Universe::from_cells(4, 2, cells(".......#"));
    assert_eq!(
        widget_area_point_to_universe_cell(&area, Some(&tall), 10, 7),
        Some(UniversePoint::new(3, 1, UniverseCell::Alive))
    );
    let square = Universe::from_cells(3, 3, cells("........#"));
    assert_eq!(
        widget_area_point_to_universe_cell(&area, Some(&square), 10, 7),
        Some(UniversePoint::new(2, 2, UniverseCell::Alive))
    );
}

#[test]
fn an_edit_hits_the_cell_that_is_seen_at_the_pixel() {
    let area = DrawingArea { width: 8, height: 8 };
    let mut grid = GameOfLifeUniverseGrid::new(2, 4, cells("........"), color(0.0), color(1.0));
    grid.alter_universe_point(&area, 3, 1, Some(UniverseCell::Alive));
    assert_eq!(shown(&grid), "....#...");
    let cell_width = Ratio { numerator: 8, denominator: 4 };
    let cell_height = Ratio { numerator: 8, denominator: 2 };
    assert_eq!(
        grid.render(8, 8)[3..],
        [PaintOp::FillCell { row: 1, column: 0, cell_width, cell_height }]
    );
}

#[test]
fn large_positions_do_not_overflow() {
    let huge = DrawingArea { width: i32::MAX, height: i32::MAX };
    let universe = Universe::from_cells(3, 3, cells("........#"));
    assert_eq!(
        widget_area_point_to_universe_cell(&huge, Some(&universe), i32::MAX - 1, i32::MAX),
        Some(UniversePoint::new(2, 2, UniverseCell::Alive))
    );
}

#[test]
fn positions_round_toward_zero() {
    let universe = Universe::from_cells(2, 2, cells("#..."));
    // Less than one cell before the edge still belongs to the first cell.
    assert!(is_addressable(&AREA, &universe, -49, 0));
    assert_eq!(
        widget_area_point_to_universe_cell(&AREA, Some(&universe), -49, 0),
        Some(UniversePoint::new(0, 0, UniverseCell::Alive))
    );
    assert!(!is_addressable(&AREA, &universe, -50, 0));
    assert!(is_addressable(&AREA, &universe, 100, 100));
    assert!(!is_addressable(&AREA, &universe, 101, 0));
    assert!(!is_addressable(&AREA, &universe, 0, 101));
}

#[test]
fn positions_without_a_cell_are_recognised() {
    let universe = Universe::from_cells(2, 2, cells("...."));
    let flat = DrawingArea { width: 0, height: 10 };
    assert!(!is_addressable(&flat, &universe, 0, 0));
    assert!(!is_addressable(&AREA, &universe, i32::MAX, 0));
    assert!(!is_addressable(&AREA, &universe, i32::MIN, 0));
    let mirrored = DrawingArea { width: -100, height: -100 };
    assert!(is_addressable(&mirrored, &universe, -60, -10));
    assert_eq!(
        widget_area_point_to_universe_cell(&mirrored, Some(&universe), -60, -10),
        Some(UniversePoint::new(1, 0, UniverseCell::Dead))
    );
    assert!(!is_addressable(&AREA, &Universe::from_cells(0, 3, vec![]), 5, 5));
    assert!(!is_addressable(&AREA, &Universe::from_cells(3, 0, vec![]), 5, 5));
}

#[test]
fn a_press_paints_in_design_mode() {
    let mut grid = design_grid("....");
    let effects = grid.on_drawing_area_event(&AREA, pressed(PointerButton::Primary, 60, 10));
    assert_eq!(effects, vec![GridEffect::QueueDraw]);
    assert_eq!(shown(&grid), "..#.");
    grid.on_drawing_area_event(&AREA, pressed(PointerButton::Primary, 60, 10));
    assert_eq!(shown(&grid), "..#.");
    grid.on_drawing_area_event(&AREA, pressed(PointerButton::Secondary, 60, 10));
    assert_eq!(shown(&grid), "....");
}

#[test]
fn a_press_does_nothing_in_run_mode() {
    let mut grid = square_grid("....");
    let effects = grid.on_drawing_area_event(&AREA, pressed(PointerButton::Primary, 60, 10));
    assert_eq!(effects, vec![]);
    assert_eq!(shown(&grid), "....");
    assert_eq!(grid.on_drawing_area_event(&AREA, moved(60, 10)), vec![]);
    assert_eq!(shown(&grid), "....");
}

#[test]
fn altering_without_a_value_inverts() {
    let mut grid = design_grid("#...");
    assert_eq!(grid.alter_universe_point(&AREA, 10, 10, None), vec![GridEffect::QueueDraw]);
    assert_eq!(shown(&grid), "....");
    grid.alter_universe_point(&AREA, 10, 10, None);
    assert_eq!(shown(&grid), "#...");
}

#[test]
fn the_last_of_two_edits_counts() {
    let mut grid = design_grid("....");
    grid.alter_universe_point(&AREA, 10, 10, None);
    grid.alter_universe_point(&AREA, 10, 10, Some(UniverseCell::Dead));
    assert_eq!(shown(&grid), "....");
}

#[test]
fn a_drag_paints_between_press_and_release() {
    for release in [
        AreaEvent::Released { button: PointerButton::Primary },
        AreaEvent::UnpairedRelease { button: PointerButton::Secondary },
    ] {
        let mut grid = design_grid("....");
        assert_eq!(grid.on_drawing_area_event(&AREA, moved(60, 60)), vec![]);
        assert_eq!(shown(&grid), "....");
        grid.on_drawing_area_event(&AREA, pressed(PointerButton::Primary, 10, 10));
        let began =
            AreaEvent::DragBegan { button: PointerButton::Primary, start: Some((10, 60)) };
        assert_eq!(grid.on_drawing_area_event(&AREA, began), vec![GridEffect::QueueDraw]);
        assert_eq!(shown(&grid), "##..");
        assert_eq!(grid.on_drawing_area_event(&AREA, moved(60, 60)), vec![GridEffect::QueueDraw]);
        assert_eq!(shown(&grid), "##.#");
        assert_eq!(grid.on_drawing_area_event(&AREA, release), vec![]);
        assert_eq!(grid.on_drawing_area_event(&AREA, moved(60, 10)), vec![]);
        assert_eq!(shown(&grid), "##.#");
    }
}

#[test]
fn a_drag_without_a_position_paints_nothing() {
    let mut grid = design_grid("....");
    grid.on_drawing_area_event(&AREA, pressed(PointerButton::Primary, 10, 10));
    let began = AreaEvent::DragBegan { button: PointerButton::Primary, start: None };
    assert_eq!(grid.on_drawing_area_event(&AREA, began), vec![]);
    let nowhere = AreaEvent::DragMoved {
        button: PointerButton::Primary,
        position: DragPosition::OffsetUnknown,
    };
    assert_eq!(grid.on_drawing_area_event(&AREA, nowhere), vec![]);
    assert_eq!(shown(&grid), "#...");
}

#[test]
fn events_off_the_area_are_not_accepted() {
    let mut grid = design_grid("....");
    let outside = pressed(PointerButton::Primary, 101, 10);
    assert!(!grid.accepts(&AREA, &outside));
    assert!(grid.accepts(&AREA, &pressed(PointerButton::Primary, 100, 10)));
    assert!(grid.accepts(&AREA, &moved(101, 10)));
    let unknown = AreaEvent::DragMoved {
        button: PointerButton::Primary,
        position: DragPosition::StartUnknown,
    };
    assert!(grid.accepts(&AREA, &unknown));
    grid.on_drawing_area_event(&AREA, pressed(PointerButton::Primary, 10, 10));
    assert!(!grid.accepts(&AREA, &moved(101, 10)));
    assert!(!grid.accepts(&AREA, &unknown));
    let began = AreaEvent::DragBegan { button: PointerButton::Primary, start: Some((-50, 0)) };
    assert!(!grid.accepts(&AREA, &began));
    assert!(square_grid("....").accepts(&AREA, &outside));
    assert!(grid.accepts(&AREA, &AreaEvent::Resized));
    assert!(!grid.can_alter(&AREA, 0, 101));
    assert!(GameOfLifeUniverseGrid::default().can_alter(&AREA, 0, 101));
}

#[test]
fn a_grid_without_a_universe_ignores_edits() {
    let mut grid = GameOfLifeUniverseGrid::default();
    assert!(!grid.has_universe());
    grid.set_mode(UniverseGridMode::Design);
    let effects = grid.on_drawing_area_event(&AREA, pressed(PointerButton::Primary, 5, 5));
    assert_eq!(effects, vec![]);
    assert!(!grid.has_universe());
    // The press still began an interaction.
    assert!(grid.accepts(&AREA, &moved(5, 5)));
    grid.set_universe(Universe::from_cells(1, 1, cells(".")));
    assert_eq!(grid.on_drawing_area_event(&AREA, moved(5, 5)), vec![GridEffect::QueueDraw]);
    assert_eq!(shown(&grid), "#");
}

#[test]
fn a_resize_freezes_until_the_grid_is_unfrozen() {
    let mut grid = square_grid("####");
    let effects = grid.on_drawing_area_event(&AREA, AreaEvent::Resized);
    assert_eq!(effects, vec![GridEffect::ScheduleUnfreeze { delay_ms: 500 }]);
    assert!(grid.frozen());
    assert_eq!(grid.render(100, 100), vec![]);
    let processed = grid.process_action(UniverseGridRequest::Unfreeze);
    assert_eq!(processed.effects, vec![GridEffect::QueueDraw]);
    assert!(processed.go_on);
    assert!(!grid.frozen());
    assert_eq!(grid.render(100, 100).len(), 7);
}

#[test]
fn a_resize_that_may_be_drawn_does_not_freeze() {
    let mut grid = square_grid("####");
    grid.set_allow_draw_on_resize(true);
    assert_eq!(grid.on_drawing_area_event(&AREA, AreaEvent::Resized), vec![]);
    assert!(!grid.frozen());
}

#[test]
fn a_frame_paints_the_background_and_the_live_cells() {
    let grid = GameOfLifeUniverseGrid::new(2, 3, cells("#...#."), color(0.25), color(0.75));
    let cell_width = Ratio { numerator: 90, denominator: 3 };
    let cell_height = Ratio { numerator: 80, denominator: 2 };
    assert_eq!(
        grid.render(90, 80),
        vec![
            PaintOp::SetSource(color(0.75)),
            PaintOp::FillArea { width: 90, height: 80 },
            PaintOp::SetSource(color(0.25)),
            PaintOp::FillCell { row: 0, column: 0, cell_width, cell_height },
            PaintOp::FillCell { row: 1, column: 1, cell_width, cell_height },
        ]
    );
}

#[test]
fn a_frame_without_a_universe_is_background() {
    let mut grid = GameOfLifeUniverseGrid::default();
    assert!(!grid.can_render());
    assert_eq!(grid.set_cell_color(Some(color(0.0))), vec![GridEffect::QueueDraw]);
    assert!(!grid.can_render());
    assert_eq!(grid.set_background_color(Some(color(1.0))), vec![GridEffect::QueueDraw]);
    assert!(grid.can_render());
    assert_eq!(
        grid.render(4, 5),
        vec![
            PaintOp::SetSource(color(1.0)),
            PaintOp::FillArea { width: 4, height: 5 },
            PaintOp::NoUniverse,
        ]
    );
    grid.set_cell_color(None);
    assert!(!grid.can_render());
    grid.set_frozen(true);
    assert!(grid.can_render());
    assert_eq!(grid.render(4, 5), vec![]);
}

#[test]
fn a_pressed_pixel_shows_in_the_next_frame() {
    let mut grid = design_grid("....");
    let half = Ratio { numerator: 100, denominator: 2 };
    let rectangle = PaintOp::FillCell { row: 1, column: 0, cell_width: half, cell_height: half };
    for (x, y) in [(50, 0), (99, 49), (75, 20)] {
        assert!(!grid.render(100, 100).contains(&rectangle));
        grid.on_drawing_area_event(&AREA, pressed(PointerButton::Primary, x, y));
        assert!(grid.render(100, 100).contains(&rectangle));
        grid.on_drawing_area_event(&AREA, pressed(PointerButton::Secondary, x, y));
    }
}

#[test]
fn freezing_asks_for_a_draw_only_when_it_ends() {
    let mut grid = square_grid("....");
    assert_eq!(grid.set_frozen(true), vec![]);
    assert!(grid.frozen());
    assert_eq!(grid.set_frozen(false), vec![GridEffect::QueueDraw]);
    assert!(!grid.frozen());
}

#[test]
fn the_mode_is_fixed_while_running() {
    let mut grid = square_grid(".##.");
    assert_eq!(grid.set_mode(UniverseGridMode::Design), vec![GridEffect::NotifyMode]);
    assert_eq!(grid.mode(), UniverseGridMode::Design);
    let started = grid.run();
    assert_eq!(
        started.effects,
        vec![
            GridEffect::NotifyMode,
            GridEffect::InstallStopper,
            GridEffect::SpawnTicker,
            GridEffect::NotifyIsRunning,
        ]
    );
    assert!(started.ticker.is_some());
    assert!(grid.is_running());
    assert_eq!(grid.mode(), UniverseGridMode::Run);
    assert_eq!(grid.set_mode(UniverseGridMode::Design), vec![GridEffect::NotifyMode]);
    assert_eq!(grid.mode(), UniverseGridMode::Run);
    assert_eq!(grid.halt(), vec![GridEffect::DropStopper, GridEffect::NotifyIsRunning]);
    assert!(!grid.is_running());
    grid.set_mode(UniverseGridMode::Design);
    assert_eq!(grid.mode(), UniverseGridMode::Design);
    assert_eq!(shown(&grid), ".##.");
}

#[test]
fn a_run_without_a_universe_has_no_ticker() {
    let mut grid = GameOfLifeUniverseGrid::default();
    let started = grid.run();
    assert_eq!(
        started.effects,
        vec![GridEffect::NotifyMode, GridEffect::InstallStopper, GridEffect::WarnNoUniverse]
    );
    assert!(started.ticker.is_none());
    assert!(grid.is_running());
}

#[test]
fn toggling_flips_between_running_and_not() {
    let mut grid = design_grid(".##.");
    assert!(grid.toggle_run().ticker.is_some());
    assert!(grid.is_running());
    let stopped = grid.toggle_run();
    assert_eq!(stopped.effects, vec![GridEffect::DropStopper, GridEffect::NotifyIsRunning]);
    assert!(stopped.ticker.is_none());
    assert!(!grid.is_running());
    assert_eq!(grid.mode(), UniverseGridMode::Run);
}

#[test]
fn a_ticker_probes_sleeps_and_posts() {
    let mut ticker = Ticker::new(Universe::from_cells(1, 3, cells("###")));
    assert!(matches!(ticker.on_event(TickerEvent::Spawned), TickerAction::Probe));
    assert!(matches!(
        ticker.on_event(TickerEvent::Probed { delivered: true }),
        TickerAction::Sleep { delay_ms: 200 }
    ));
    match ticker.on_event(TickerEvent::Slept) {
        TickerAction::Post(UniverseGridRequest::Redraw(Some(universe))) => {
            assert_eq!(*universe.snapshot().cells(), cells(".#."));
        }
        _ => panic!("expected a post"),
    }
    assert!(matches!(ticker.on_event(TickerEvent::Posted), TickerAction::Probe));
    assert!(matches!(
        ticker.on_event(TickerEvent::Probed { delivered: false }),
        TickerAction::Exit
    ));
}

#[test]
fn a_running_grid_shows_each_generation() {
    let blinker = "...........###...........".to_owned();
    let mut grid =
        GameOfLifeUniverseGrid::new(5, 5, cells(&blinker), color(0.0), color(1.0));
    let mut ticker = grid.run().ticker.unwrap();
    let mut reference = Universe::from_cells(5, 5, cells(&blinker));
    for _ in 0..3 {
        reference.tick();
        match ticker.on_event(TickerEvent::Slept) {
            TickerAction::Post(request) => {
                assert_eq!(grid.process_action(request).effects, vec![GridEffect::QueueDraw]);
            }
            _ => panic!("expected a post"),
        }
        assert_eq!(grid.get_universe_snapshot().cells(), reference.snapshot().cells());
        assert_eq!((grid.rows(), grid.columns()), (5, 5));
        assert!(grid.is_running());
    }
}

#[test]
fn requests_change_one_thing() {
    let mut grid = square_grid(".##.");
    grid.process_action(UniverseGridRequest::Redraw(None));
    assert_eq!(shown(&grid), ".##.");
    let other = Universe::from_cells(1, 3, cells("#.#"));
    grid.process_action(UniverseGridRequest::Redraw(Some(other)));
    assert_eq!(shown(&grid), "#.#");
    assert_eq!((grid.rows(), grid.columns()), (1, 3));
    assert!(!grid.frozen());
    assert_eq!(grid.redraw(), vec![GridEffect::QueueDraw]);
}

#[test]
fn seeding_keeps_the_size() {
    let mut grid = GameOfLifeUniverseGrid::new(2, 3, cells("......"), color(0.0), color(1.0));
    assert_eq!(grid.seed_size(), (2, 3));
    assert_eq!(grid.random_seed(cells("#.##.#")), vec![GridEffect::QueueDraw]);
    assert_eq!(shown(&grid), "#.##.#");
    assert_eq!((grid.rows(), grid.columns()), (2, 3));
}

#[test]
fn seeding_without_a_universe_takes_the_default_size() {
    let mut grid = GameOfLifeUniverseGrid::default();
    assert_eq!(grid.seed_size(), (200, 200));
    grid.random_seed(vec![UniverseCell::Alive; 40000]);
    assert_eq!((grid.rows(), grid.columns()), (200, 200));
}

#[test]
fn a_universe_that_was_set_is_read_back() {
    let mut grid = square_grid("....");
    let universe = Universe::from_cells(3, 2, cells("##..#."));
    assert_eq!(grid.set_universe(universe), vec![GridEffect::QueueDraw]);
    let snapshot = grid.get_universe_snapshot();
    assert_eq!((snapshot.rows(), snapshot.columns()), (3, 2));
    assert_eq!(*snapshot.cells(), cells("##..#."));
    assert!(grid.has_universe());
}

#[test]
fn gestures_of_both_buttons_are_bound() {
    let binding = |kind, button| GestureBinding { kind, button };
    assert_eq!(
        GameOfLifeUniverseGrid::setup_drawing_area(),
        vec![
            binding(GestureKind::Click, PointerButton::Primary),
            binding(GestureKind::Click, PointerButton::Secondary),
            binding(GestureKind::Drag, PointerButton::Primary),
            binding(GestureKind::Drag, PointerButton::Secondary),
        ]
    );
    assert_eq!(PointerButton::Primary.painted_cell(), UniverseCell::Alive);
    assert_eq!(PointerButton::Secondary.painted_cell(), UniverseCell::Dead);
}

#[test]
fn properties_are_described() {
    let described = |property, default, access| PropertySpec { property, default, access };
    assert_eq!(
        GameOfLifeUniverseGrid::properties(),
        vec![
            described(
                GridProperty::Mode,
                PropertyDefault::Enumerated(1),
                PropertyAccess::ReadWrite
            ),
            described(
                GridProperty::AllowDrawOnResize,
                PropertyDefault::Boolean(false),
                PropertyAccess::ReadWrite
            ),
            described(
                GridProperty::Frozen,
                PropertyDefault::Boolean(false),
                PropertyAccess::ReadWrite
            ),
            described(
                GridProperty::IsRunning,
                PropertyDefault::Boolean(false),
                PropertyAccess::Readable
            ),
        ]
    );
    let names: Vec<&str> =
        GameOfLifeUniverseGrid::properties().iter().map(|p| p.property.name()).collect();
    assert_eq!(names, vec!["mode", "allow-draw-on-resize", "frozen", "is-running"]);
    for p in GameOfLifeUniverseGrid::properties() {
        assert_eq!(GridProperty::from_name(p.property.name()), Some(p.property));
    }
    assert_eq!(GridProperty::from_name("Mode"), None);
}

#[test]
fn properties_are_read_back() {
    let mut grid = square_grid("....");
    let design = PropertyValue::Mode(UniverseGridMode::Design);
    assert_eq!(grid.set_property("mode", design), vec![GridEffect::NotifyMode]);
    assert_eq!(grid.property("mode"), design);
    assert_eq!(grid.set_property("frozen", PropertyValue::Boolean(true)), vec![]);
    assert_eq!(grid.property("frozen"), PropertyValue::Boolean(true));
    assert_eq!(grid.property("allow-draw-on-resize"), PropertyValue::Boolean(false));
    assert_eq!(grid.set_property("allow-draw-on-resize", PropertyValue::Boolean(true)), vec![]);
    assert_eq!(grid.property("allow-draw-on-resize"), PropertyValue::Boolean(true));
    assert_eq!(
        grid.set_property("frozen", PropertyValue::Boolean(false)),
        vec![GridEffect::QueueDraw]
    );
    assert_eq!(grid.property("is-running"), PropertyValue::Boolean(false));
    grid.run();
    assert_eq!(grid.property("is-running"), PropertyValue::Boolean(true));
    grid.set_property("mode", design);
    assert_eq!(grid.property("mode"), PropertyValue::Mode(UniverseGridMode::Run));
}

#[test]
fn properties_are_set_only_where_they_can_be() {
    let yes = PropertyValue::Boolean(true);
    let run = PropertyValue::Mode(UniverseGridMode::Run);
    assert!(GameOfLifeUniverseGrid::can_set_property("mode", &run));
    assert!(!GameOfLifeUniverseGrid::can_set_property("mode", &yes));
    assert!(GameOfLifeUniverseGrid::can_set_property("frozen", &yes));
    assert!(!GameOfLifeUniverseGrid::can_set_property("frozen", &run));
    assert!(GameOfLifeUniverseGrid::can_set_property("allow-draw-on-resize", &yes));
    assert!(!GameOfLifeUniverseGrid::can_set_property("is-running", &yes));
    assert!(!GameOfLifeUniverseGrid::can_set_property("color", &yes));
}
