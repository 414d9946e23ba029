use universe_grid::{Universe, UniverseCell, UniversePoint, UniverseSnapshot};

/// A universe drawn with `#` for live cells and any other character for dead ones.
fn universe(lines: &[&str]) -> Universe {
    let rows = lines.len();
    let columns = if rows == 0 { 0 } else { lines[0].len() };
    let mut cells = Vec::new();
    for line in lines {
        for c in line.chars() {
            cells.push(if c == '#' { UniverseCell::Alive } else { UniverseCell::Dead });
        }
    }
    Universe::from_cells(rows, columns, cells)
}

fn drawing(snapshot: &UniverseSnapshot) -> Vec<String> {
    let mut lines = Vec::new();
    for row in 0..snapshot.rows() {
        let mut line = String::new();
        for column in 0..snapshot.columns() {
            let cell = snapshot.cells()[row * snapshot.columns() + column];
            line.push(if cell.is_alive() { '#' } else { '.' });
        }
        lines.push(line);
    }
    lines
}

fn after_tick(lines: &[&str]) -> Vec<String> {
    let mut u = universe(lines);
    u.tick();
    drawing(&u.snapshot())
}

#[test]
fn cell_inversion_swaps_the_two_values() {
    assert_eq!(!UniverseCell::Alive, UniverseCell::Dead);
    assert_eq!(!UniverseCell::Dead, UniverseCell::Alive);
    assert!(UniverseCell::Alive.is_alive());
    assert!(!UniverseCell::Dead.is_alive());
}

#[test]
fn rule_of_life_for_each_neighbour_count() {
    for n in 0..9u8 {
        let alive = UniverseCell::Alive.evolve(n);
        let dead = UniverseCell::Dead.evolve(n);
        assert_eq!(alive.is_alive(), n == 2 || n == 3);
        assert_eq!(dead.is_alive(), n == 3);
    }
}

#[test]
fn cells_are_addressed_row_after_row() {
    let u = universe(&["#..", ".#."]);
    assert_eq!(u.rows(), 2);
    assert_eq!(u.columns(), 3);
    assert_eq!(u.get(0, 0), UniversePoint::new(0, 0, UniverseCell::Alive));
    assert_eq!(u.get(1, 1), UniversePoint::new(1, 1, UniverseCell::Alive));
    assert_eq!(u.get(1, 2), UniversePoint::new(1, 2, UniverseCell::Dead));
    assert_eq!(u.get(1, 2).row(), 1);
    assert_eq!(u.get(1, 2).column(), 2);
    assert_eq!(*u.get(1, 2).cell(), UniverseCell::Dead);
}

#[test]
fn setting_a_cell_leaves_the_others_alone() {
    let mut u = universe(&["#..", ".#."]);
    u.set_cell(1, 2, UniverseCell::Alive);
    assert_eq!(drawing(&u.snapshot()), vec!["#..", ".##"]);
    u.set_cell(0, 0, UniverseCell::Dead);
    assert_eq!(drawing(&u.snapshot()), vec!["...", ".##"]);
}

#[test]
fn iteration_visits_every_cell_in_order() {
    let u = universe(&[".#", "#."]);
    assert_eq!(
        u.iter_cells(),
        vec![
            UniversePoint::new(0, 0, UniverseCell::Dead),
            UniversePoint::new(0, 1, UniverseCell::Alive),
            UniversePoint::new(1, 0, UniverseCell::Alive),
            UniversePoint::new(1, 1, UniverseCell::Dead),
        ]
    );
    assert_eq!(universe(&[]).iter_cells(), vec![]);
}

#[test]
fn a_snapshot_does_not_follow_later_edits() {
    let mut u = universe(&[".#", "#."]);
    let snapshot = u.snapshot();
    u.set_cell(0, 0, UniverseCell::Alive);
    assert_eq!(drawing(&snapshot), vec![".#", "#."]);
}

#[test]
fn a_clone_is_independent() {
    let mut u = universe(&[".#", "#."]);
    let copy = u.clone();
    u.tick();
    assert_eq!(drawing(&copy.snapshot()), vec![".#", "#."]);
    assert_eq!(drawing(&u.snapshot()), vec!["..", ".."]);
}

#[test]
fn a_blinker_oscillates() {
    let upright = ["...", ".#.", ".#.", ".#.", "..."];
    let lying = vec!["...", "...", "###", "...", "..."];
    assert_eq!(after_tick(&upright), lying);
    assert_eq!(after_tick(&lying), upright.to_vec());
}

#[test]
fn a_block_is_still() {
    let block = ["....", ".##.", ".##.", "...."];
    assert_eq!(after_tick(&block), block.to_vec());
}

#[test]
fn cells_beyond_the_edges_do_not_count() {
    // On a torus each of these would have neighbours across the edge.
    assert_eq!(after_tick(&["#.#", "...", "#.#"]), vec!["...", "...", "..."]);
    assert_eq!(after_tick(&["##", "##"]), vec!["##", "##"]);
    assert_eq!(after_tick(&["###"]), vec![".#."]);
}

#[test]
fn a_dead_universe_stays_dead() {
    assert_eq!(after_tick(&["...", "..."]), vec!["...", "..."]);
}

#[test]
fn evolution_looks_at_the_neighbourhood_only() {
    let near = after_tick(&["##...", "#....", ".....", "....."]);
    let far = after_tick(&["##...", "#....", "....#", "...##"]);
    assert_eq!(&near[1][0..2], &far[1][0..2]);
    assert_eq!(&near[1][0..2], "##");
}

#[test]
fn a_glider_keeps_the_size_of_its_universe() {
    let mut u = universe(&[".#...", "..#..", "###..", ".....", "....."]);
    for _ in 0..4 {
        u.tick();
        assert_eq!((u.rows(), u.columns()), (5, 5));
    }
    assert_eq!(
        drawing(&u.snapshot()),
        vec![".....", "..#..", "...#.", ".###.", "....."]
    );
}

#[test]
fn an_empty_universe_can_tick() {
    let mut u = Universe::from_cells(0, 7, vec![]);
    u.tick();
    assert_eq!((u.rows(), u.columns()), (0, 7));
}
