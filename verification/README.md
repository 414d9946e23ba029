# universe_grid

The state of a Game of Life grid widget, verified with Verus.

- `src/` is the library. `universe.rs` and `cell.rs` hold the field of cells and
  the rule of life, `geometry.rs` finds the cell under a pixel, `paint.rs` says
  what a frame consists of, `ticker.rs` is the simulation behind a running grid.
  `state.rs` and `property.rs` describe every step of a grid as a function on
  states; `grid.rs` implements the steps; `laws.rs` proves what holds across them.
- `tests/` runs the library on concrete universes.
- `app/` is the GTK widget: it turns toolkit events into events of the library,
  and carries out the effects that come back.

A cell has the cells that touch it as neighbours. Nothing lies beyond the edges
of a universe.
