use crate::cell::Cell;
use crate::rules::{live_neighbors, step};
use crate::universe::Universe;
use vstd::prelude::*;

verus! {

/// One advance keeps one cell per grid position.
pub proof fn lemma_tick_keeps_size(before: &Universe, after: &Universe)
    requires
        before.wf(),
        after.is_tick_of(before),
    ensures
        after.spec_cells().len() == after.spec_width() * after.spec_height(),
        after.spec_cells().len() == before.spec_cells().len(),
{
}

/// One advance raises the generation count by exactly one.
pub proof fn lemma_tick_counts_generation(before: &Universe, after: &Universe)
    requires
        after.is_tick_of(before),
    ensures
        after.spec_generation() == before.spec_generation() + 1,
{
}

/// Advancing is deterministic: two universes in the same state are in the same
/// state again after each has advanced once.
pub proof fn lemma_tick_deterministic(a: &Universe, b: &Universe, a2: &Universe, b2: &Universe)
    requires
        a.same_state(b),
        a2.is_tick_of(a),
        b2.is_tick_of(b),
    ensures
        a2.same_state(b2),
{
}

/// Rendering depends on the state alone, so two renderings of one state, or of
/// two equal states, give the same text.
pub proof fn lemma_render_deterministic(a: &Universe, b: &Universe)
    requires
        a.same_state(b),
    ensures
        a.spec_render() == b.spec_render(),
{
}

/// A live cell with no live neighbors is dead in the next generation.
pub proof fn lemma_isolated_cell_dies(cells: Seq<Cell>, width: int, height: int, i: int)
    requires
        width > 0,
        height > 0,
        cells.len() == width * height,
        0 <= i < cells.len(),
        cells[i] == Cell::Alive,
        live_neighbors(cells, width, height, i / width, i % width) == 0,
    ensures
        step(cells, width, height)[i] == Cell::Dead,
{
}

/// A dead cell with exactly three live neighbors is alive in the next generation.
pub proof fn lemma_dead_cell_with_three_neighbors_is_born(
    cells: Seq<Cell>,
    width: int,
    height: int,
    i: int,
)
    requires
        width > 0,
        height > 0,
        cells.len() == width * height,
        0 <= i < cells.len(),
        cells[i] == Cell::Dead,
        live_neighbors(cells, width, height, i / width, i % width) == 3,
    ensures
        step(cells, width, height)[i] == Cell::Alive,
{
}

/// A live cell with two or three live neighbors stays alive.
pub proof fn lemma_live_cell_with_two_or_three_neighbors_survives(
    cells: Seq<Cell>,
    width: int,
    height: int,
    i: int,
)
    requires
        width > 0,
        height > 0,
        cells.len() == width * height,
        0 <= i < cells.len(),
        cells[i] == Cell::Alive,
        2 <= live_neighbors(cells, width, height, i / width, i % width) <= 3,
    ensures
        step(cells, width, height)[i] == Cell::Alive,
{
}

} // verus!
