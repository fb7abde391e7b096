use crate::cell::Cell;
use vstd::prelude::*;

verus! {

/// 1 if the cell at (`row`, `col`) of a row-major grid `width` wide is alive, else 0.
pub open spec fn alive_at(cells: Seq<Cell>, width: int, row: int, col: int) -> int {
    cells[row * width + col].spec_value() as int
}

/// What the neighbor at offset (`dr`, `dc`) contributes to the count of (`row`, `col`).
///
/// Offsets are taken modulo the grid's sides, so the grid wraps round as a torus.
/// The offset (0, 0) is the cell itself and contributes nothing.
pub open spec fn neighbor_term(
    cells: Seq<Cell>,
    width: int,
    height: int,
    row: int,
    col: int,
    dr: int,
    dc: int,
) -> int {
    if dr == 0 && dc == 0 {
        0
    } else {
        alive_at(cells, width, (row + dr) % height, (col + dc) % width)
    }
}

/// The live neighbors of (`row`, `col`) in the grid row at offset `dr`, the column
/// offsets being `width - 1` (one to the left, wrapped), 0 and 1.
pub open spec fn neighbors_in_row(
    cells: Seq<Cell>,
    width: int,
    height: int,
    row: int,
    col: int,
    dr: int,
) -> int {
    neighbor_term(cells, width, height, row, col, dr, width - 1)
        + neighbor_term(cells, width, height, row, col, dr, 0)
        + neighbor_term(cells, width, height, row, col, dr, 1)
}

/// The number of live cells in the Moore neighborhood of (`row`, `col`) on the torus,
/// the row offsets being `height - 1` (the row above, wrapped), 0 and 1.
///
/// On a grid one cell wide or tall the offsets coincide and a cell may be counted
/// more than once, possibly as its own neighbor.
pub open spec fn live_neighbors(cells: Seq<Cell>, width: int, height: int, row: int, col: int) -> int {
    neighbors_in_row(cells, width, height, row, col, height - 1)
        + neighbors_in_row(cells, width, height, row, col, 0)
        + neighbors_in_row(cells, width, height, row, col, 1)
}

/// Conway's rule: the next state of a cell in state `c` with `n` live neighbors.
pub open spec fn next_state(c: Cell, n: int) -> Cell {
    match c {
        Cell::Alive => if n < 2 {
            Cell::Dead
        } else if n == 2 || n == 3 {
            Cell::Alive
        } else {
            Cell::Dead
        },
        Cell::Dead => if n == 3 {
            Cell::Alive
        } else {
            Cell::Dead
        },
    }
}

/// The next generation of a row-major grid `width` wide and `height` tall.
pub open spec fn step(cells: Seq<Cell>, width: int, height: int) -> Seq<Cell> {
    Seq::new(
        cells.len(),
        |i: int| next_state(cells[i], live_neighbors(cells, width, height, i / width, i % width)),
    )
}

/// Whether a cell is alive.
pub open spec fn is_alive(c: Cell) -> bool {
    c == Cell::Alive
}

/// The number of live cells in a grid.
pub open spec fn count_alive(cells: Seq<Cell>) -> nat {
    cells.filter(|c: Cell| is_alive(c)).len()
}

/// The initial state of the cell at flat index `i`: alive when `i` is a multiple of 2 or of 7.
pub open spec fn seed_cell(i: int) -> Cell {
    if i % 2 == 0 || i % 7 == 0 {
        Cell::Alive
    } else {
        Cell::Dead
    }
}

/// The seed grid of `len` cells.
pub open spec fn seed(len: nat) -> Seq<Cell> {
    Seq::new(len, |i: int| seed_cell(i))
}

/// Conway's rule on a cell with `n` live neighbors.
pub fn next_cell(c: Cell, n: u8) -> (r: Cell)
    ensures
        r == next_state(c, n as int),
{
    match (c, n) {
        (Cell::Alive, x) if x < 2 => Cell::Dead,
        (Cell::Alive, 2) | (Cell::Alive, 3) => Cell::Alive,
        (Cell::Alive, x) if x > 3 => Cell::Dead,
        (Cell::Dead, 3) => Cell::Alive,
        (otherwise, _) => otherwise,
    }
}

/// Adding one cell to the end of a prefix adds its value to the live count.
pub proof fn lemma_count_alive_take(cells: Seq<Cell>, i: int)
    requires
        0 <= i < cells.len(),
    ensures
        count_alive(cells.take(i + 1)) == count_alive(cells.take(i)) + cells[i].spec_value(),
{
    reveal(Seq::filter);
    assert(cells.take(i + 1).drop_last() =~= cells.take(i));
}

/// The live count of a grid is at most its number of cells.
pub proof fn lemma_count_alive_bound(cells: Seq<Cell>)
    ensures
        count_alive(cells) <= cells.len(),
{
    cells.lemma_filter_len(|c: Cell| is_alive(c));
}

} // verus!
