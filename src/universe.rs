use crate::cell::Cell;
use crate::rules::{
    count_alive, lemma_count_alive_bound, lemma_count_alive_take, live_neighbors, neighbor_term,
    neighbors_in_row, next_cell, seed, seed_cell, step,
};
use crate::text::{glyph, glyph_str, grid_text, header_text, push_decimal, row_glyphs};
use vstd::arithmetic::div_mod::lemma_fundamental_div_mod_converse;
use vstd::prelude::*;
use vstd::string::StringExecFns;

verus! {

/// A toroidal grid of cells, stored row-major, with a count of the generations
/// it has advanced.
pub struct Universe {
    width: u32,
    height: u32,
    cells: Vec<Cell>,
    generation: u32,
}

/// Whether a grid of these sides can be held: both positive, and no more than
/// `u32::MAX` cells in all.
fn valid_sides(width: u32, height: u32) -> (r: bool)
    ensures
        r == (width > 0 && height > 0 && width * height <= u32::MAX),
{
    if width == 0 || height == 0 {
        false
    } else {
        let w = width as u64;
        let h = height as u64;
        assert(w * h <= u32::MAX as u64 * u32::MAX as u64) by (nonlinear_arith)
            requires
                w <= u32::MAX,
                h <= u32::MAX,
        ;
        w * h <= u32::MAX as u64
    }
}

impl Universe {
    /// The number of columns.
    pub closed spec fn spec_width(&self) -> nat {
        self.width as nat
    }

    /// The number of rows.
    pub closed spec fn spec_height(&self) -> nat {
        self.height as nat
    }

    /// The cells in row-major order: (row, column) is at `row * width + column`.
    pub closed spec fn spec_cells(&self) -> Seq<Cell> {
        self.cells@
    }

    /// The number of generations advanced since construction.
    pub closed spec fn spec_generation(&self) -> nat {
        self.generation as nat
    }

    /// Both sides are positive, the grid's size fits in a `u32`, and there is
    /// exactly one cell per grid position.
    pub open spec fn wf(&self) -> bool {
        &&& self.spec_width() > 0
        &&& self.spec_height() > 0
        &&& self.spec_width() * self.spec_height() <= u32::MAX
        &&& self.spec_cells().len() == self.spec_width() * self.spec_height()
    }

    /// The live-neighbor count of (`row`, `column`) in this grid.
    pub open spec fn spec_live_neighbors(&self, row: int, column: int) -> int {
        live_neighbors(
            self.spec_cells(),
            self.spec_width() as int,
            self.spec_height() as int,
            row,
            column,
        )
    }

    /// The canonical text of this grid: a line giving the generation and the
    /// live count, then one line of glyphs per row.
    pub open spec fn spec_render(&self) -> Seq<char> {
        header_text(self.spec_generation(), count_alive(self.spec_cells()))
            + grid_text(self.spec_cells(), self.spec_width(), self.spec_height())
    }

    /// Whether `self` and `other` have the same sides, cells and generation.
    pub open spec fn same_state(&self, other: &Universe) -> bool {
        &&& self.spec_width() == other.spec_width()
        &&& self.spec_height() == other.spec_height()
        &&& self.spec_cells() == other.spec_cells()
        &&& self.spec_generation() == other.spec_generation()
    }

    /// Whether `self` is what one advance makes of `before`: the same sides,
    /// the next generation of its cells, and a generation count one higher.
    pub open spec fn is_tick_of(&self, before: &Universe) -> bool {
        &&& self.wf()
        &&& self.spec_width() == before.spec_width()
        &&& self.spec_height() == before.spec_height()
        &&& self.spec_cells() == step(
            before.spec_cells(),
            before.spec_width() as int,
            before.spec_height() as int,
        )
        &&& self.spec_generation() == before.spec_generation() + 1
    }

    /// The flat index of (`row`, `column`).
    fn get_index(&self, row: u32, column: u32) -> (r: usize)
        requires
            self.wf(),
            row < self.spec_height(),
            column < self.spec_width(),
        ensures
            r == row * self.spec_width() + column,
            r < self.spec_cells().len(),
    {
        let w = self.width;
        let h = self.height;
        assert(row * w + column < h * w) by (nonlinear_arith)
            requires
                row < h,
                column < w,
        ;
        assert(h * w == w * h) by (nonlinear_arith);
        (row * self.width + column) as usize
    }

    /// What the neighbor at offset (`dr`, `dc`) of (`row`, `column`) adds to its count.
    fn neighbor_alive(&self, row: u32, column: u32, dr: u32, dc: u32) -> (r: u8)
        requires
            self.wf(),
            row < self.spec_height(),
            column < self.spec_width(),
            dr <= self.spec_height(),
            dc <= self.spec_width(),
        ensures
            r as int == neighbor_term(
                self.spec_cells(),
                self.spec_width() as int,
                self.spec_height() as int,
                row as int,
                column as int,
                dr as int,
                dc as int,
            ),
            r <= 1,
    {
        if dr == 0 && dc == 0 {
            0
        } else {
            let nr = ((row as u64 + dr as u64) % self.height as u64) as u32;
            let nc = ((column as u64 + dc as u64) % self.width as u64) as u32;
            let idx = self.get_index(nr, nc);
            self.cells[idx].value()
        }
    }

    /// The live neighbors of (`row`, `column`) in the row at offset `dr`.
    fn row_neighbors(&self, row: u32, column: u32, dr: u32) -> (r: u8)
        requires
            self.wf(),
            row < self.spec_height(),
            column < self.spec_width(),
            dr <= self.spec_height(),
        ensures
            r as int == neighbors_in_row(
                self.spec_cells(),
                self.spec_width() as int,
                self.spec_height() as int,
                row as int,
                column as int,
                dr as int,
            ),
            r <= 3,
    {
        let a = self.neighbor_alive(row, column, dr, self.width - 1);
        let b = self.neighbor_alive(row, column, dr, 0);
        let c = self.neighbor_alive(row, column, dr, 1);
        a + b + c
    }

    /// The number of live cells among the eight neighbors of (`row`, `column`),
    /// wrapping round the edges of the grid.
    ///
    /// On a grid one cell wide or tall the same cell is reached through several
    /// offsets and is counted once for each.
    pub fn live_neighbor_count(&self, row: u32, column: u32) -> (r: u8)
        requires
            self.wf(),
            row < self.spec_height(),
            column < self.spec_width(),
        ensures
            r as int == self.spec_live_neighbors(row as int, column as int),
            r <= 8,
    {
        let above = self.row_neighbors(row, column, self.height - 1);
        let level = self.row_neighbors(row, column, 0);
        let below = self.row_neighbors(row, column, 1);
        above + level + below
    }

    /// The next generation, computed into a fresh buffer from the current one.
    fn next_generation(&self) -> (r: Vec<Cell>)
        requires
            self.wf(),
        ensures
            r@ == step(self.spec_cells(), self.spec_width() as int, self.spec_height() as int),
    {
        let ghost cells = self.spec_cells();
        let ghost w = self.spec_width() as int;
        let ghost h = self.spec_height() as int;
        let ghost target = step(cells, w, h);
        let mut next: Vec<Cell> = Vec::new();
        let mut row: u32 = 0;
        while row < self.height
            invariant
                self.wf(),
                cells == self.spec_cells(),
                w == self.spec_width(),
                h == self.spec_height(),
                target == step(cells, w, h),
                target.len() == w * h,
                row <= h,
                next.len() == row * w,
                forall|i: int| 0 <= i < next.len() ==> next@[i] == target[i],
            decreases h - row,
        {
            let mut col: u32 = 0;
            while col < self.width
                invariant
                    self.wf(),
                    cells == self.spec_cells(),
                    w == self.spec_width(),
                    h == self.spec_height(),
                    target == step(cells, w, h),
                    target.len() == w * h,
                    row < h,
                    col <= w,
                    next.len() == row * w + col,
                    forall|i: int| 0 <= i < next.len() ==> next@[i] == target[i],
                decreases w - col,
            {
                let idx = self.get_index(row, col);
                let n = self.live_neighbor_count(row, col);
                let c = next_cell(self.cells[idx], n);
                proof {
                    lemma_fundamental_div_mod_converse(idx as int, w, row as int, col as int);
                    assert(c == target[idx as int]);
                }
                next.push(c);
                col = col + 1;
            }
            proof {
                assert((row + 1) * w == row * w + w) by (nonlinear_arith);
            }
            row = row + 1;
        }
        proof {
            assert(h * w == w * h) by (nonlinear_arith);
            assert(next@ =~= target);
        }
        next
    }

    /// Advances the grid by one generation under Conway's rule, every cell
    /// evaluated against the current generation.
    pub fn tick(&mut self)
        requires
            old(self).wf(),
            old(self).spec_generation() < u32::MAX,
        ensures
            final(self).wf(),
            final(self).spec_width() == old(self).spec_width(),
            final(self).spec_height() == old(self).spec_height(),
            final(self).spec_cells() == step(
                old(self).spec_cells(),
                old(self).spec_width() as int,
                old(self).spec_height() as int,
            ),
            final(self).spec_cells().len() == final(self).spec_width() * final(self).spec_height(),
            final(self).spec_generation() == old(self).spec_generation() + 1,
            final(self).is_tick_of(old(self)),
    {
        let next = self.next_generation();
        self.cells = next;
        self.generation = self.generation + 1;
    }

    /// A grid of the given sides seeded so that the cell at flat index `i` is
    /// alive exactly when `i` is a multiple of 2 or of 7.
    fn seeded(width: u32, height: u32) -> (r: Universe)
        requires
            width > 0,
            height > 0,
            width * height <= u32::MAX,
        ensures
            r.wf(),
            r.spec_width() == width,
            r.spec_height() == height,
            r.spec_cells() == seed((width * height) as nat),
            r.spec_generation() == 0,
    {
        let len: u32 = width * height;
        let mut cells: Vec<Cell> = Vec::new();
        let mut i: u32 = 0;
        while i < len
            invariant
                i <= len,
                cells.len() == i,
                forall|j: int| 0 <= j < i ==> cells@[j] == seed_cell(j),
            decreases len - i,
        {
            let c = if i % 2 == 0 || i % 7 == 0 {
                Cell::Alive
            } else {
                Cell::Dead
            };
            cells.push(c);
            i = i + 1;
        }
        proof {
            assert(cells@ =~= seed(len as nat));
        }
        Universe { width, height, cells, generation: 0 }
    }

    /// The standard 64 by 64 universe, seeded so that the cell at flat index
    /// `i` is alive exactly when `i` is a multiple of 2 or of 7.
    pub fn new() -> (r: Universe)
        ensures
            r.wf(),
            r.spec_width() == 64,
            r.spec_height() == 64,
            r.spec_cells() == seed(4096),
            r.spec_cells().len() == r.spec_width() * r.spec_height(),
            r.spec_generation() == 0,
    {
        Universe::seeded(64, 64)
    }

    /// A universe of the given sides with the seed pattern of [`Universe::new`];
    /// `None` when a side is zero or the grid has more than `u32::MAX` cells.
    pub fn with_size(width: u32, height: u32) -> (r: Option<Universe>)
        ensures
            r is Some <==> (width > 0 && height > 0 && width * height <= u32::MAX),
            r matches Some(u) ==> {
                &&& u.wf()
                &&& u.spec_width() == width
                &&& u.spec_height() == height
                &&& u.spec_cells() == seed((width * height) as nat)
                &&& u.spec_cells().len() == u.spec_width() * u.spec_height()
                &&& u.spec_generation() == 0
            },
    {
        if !valid_sides(width, height) {
            None
        } else {
            Some(Universe::seeded(width, height))
        }
    }

    /// A universe of the given sides holding `cells` in row-major order, at
    /// generation 0; `None` when a side is zero, the grid has more than
    /// `u32::MAX` cells, or `cells` does not hold one cell per position.
    pub fn from_cells(width: u32, height: u32, cells: Vec<Cell>) -> (r: Option<Universe>)
        ensures
            r is Some <==> (width > 0 && height > 0 && width * height <= u32::MAX
                && cells.len() == width * height),
            r matches Some(u) ==> {
                &&& u.wf()
                &&& u.spec_width() == width
                &&& u.spec_height() == height
                &&& u.spec_cells() == cells@
                &&& u.spec_generation() == 0
            },
    {
        if !valid_sides(width, height) {
            None
        } else if cells.len() != (width * height) as usize {
            None
        } else {
            Some(Universe { width, height, cells, generation: 0 })
        }
    }

    /// The number of columns.
    pub fn width(&self) -> (r: u32)
        ensures
            r == self.spec_width(),
    {
        self.width
    }

    /// The number of rows.
    pub fn height(&self) -> (r: u32)
        ensures
            r == self.spec_height(),
    {
        self.height
    }

    /// The number of generations advanced since construction.
    pub fn generation(&self) -> (r: u32)
        ensures
            r == self.spec_generation(),
    {
        self.generation
    }

    /// Read-only access to the cells, row-major.
    pub fn cells(&self) -> (r: &[Cell])
        ensures
            r@ == self.spec_cells(),
    {
        self.cells.as_slice()
    }

    /// The number of live cells, as a sum of the cells' values.
    pub fn live_cells(&self) -> (r: u32)
        requires
            self.wf(),
        ensures
            r == count_alive(self.spec_cells()),
    {
        let mut total: u32 = 0;
        let mut i: usize = 0;
        while i < self.cells.len()
            invariant
                self.wf(),
                i <= self.spec_cells().len(),
                total == count_alive(self.spec_cells().take(i as int)),
            decreases self.spec_cells().len() - i,
        {
            proof {
                lemma_count_alive_take(self.spec_cells(), i as int);
                lemma_count_alive_bound(self.spec_cells().take(i as int + 1));
            }
            total = total + self.cells[i].value() as u32;
            i = i + 1;
        }
        proof {
            assert(self.spec_cells().take(i as int) =~= self.spec_cells());
        }
        total
    }

    /// The canonical text of the grid: `Generation: {generation}, live cells: {count}`
    /// on the first line, then each row as a line of glyphs, a hollow square for
    /// a dead cell and a filled one for a live cell.
    pub fn render(&self) -> (r: String)
        requires
            self.wf(),
        ensures
            r@ == self.spec_render(),
    {
        let ghost cells = self.spec_cells();
        let ghost w = self.spec_width();
        let ghost h = self.spec_height();
        let mut s = String::from_str("Generation: ");
        push_decimal(&mut s, self.generation);
        s.append(", live cells: ");
        push_decimal(&mut s, self.live_cells());
        s.append("\n");
        let ghost header = s@;
        proof {
            reveal_strlit("Generation: ");
            reveal_strlit(", live cells: ");
            reveal_strlit("\n");
            assert(header =~= header_text(self.spec_generation(), count_alive(cells)));
        }
        let mut row: u32 = 0;
        while row < self.height
            invariant
                self.wf(),
                cells == self.spec_cells(),
                w == self.spec_width(),
                h == self.spec_height(),
                row <= h,
                s@ == header + grid_text(cells, w, row as nat),
            decreases h - row,
        {
            let mut col: u32 = 0;
            while col < self.width
                invariant
                    self.wf(),
                    cells == self.spec_cells(),
                    w == self.spec_width(),
                    h == self.spec_height(),
                    row < h,
                    col <= w,
                    s@ == header + grid_text(cells, w, row as nat) + row_glyphs(
                        cells,
                        w,
                        row as nat,
                        col as nat,
                    ),
                decreases w - col,
            {
                let idx = self.get_index(row, col);
                s.append(glyph_str(self.cells[idx]));
                proof {
                    assert(row_glyphs(cells, w, row as nat, (col + 1) as nat) =~= row_glyphs(
                        cells,
                        w,
                        row as nat,
                        col as nat,
                    ).push(glyph(cells[idx as int])));
                }
                col = col + 1;
            }
            s.append("\n");
            proof {
                reveal_strlit("\n");
                assert(s@ =~= header + grid_text(cells, w, (row + 1) as nat));
            }
            row = row + 1;
        }
        s
    }
}

} // verus!
