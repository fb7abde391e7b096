use crate::cell::Cell;
use vstd::prelude::*;
use vstd::string::StringExecFns;

verus! {

/// The decimal digit `d`, for `d < 10`.
pub open spec fn digit_char(d: nat) -> char {
    seq!['0', '1', '2', '3', '4', '5', '6', '7', '8', '9'][d as int]
}

/// The decimal representation of `n`, without leading zeros.
pub open spec fn decimal(n: nat) -> Seq<char>
    decreases n,
{
    if n < 10 {
        seq![digit_char(n)]
    } else {
        decimal(n / 10).push(digit_char(n % 10))
    }
}

/// The glyph that shows a cell: a hollow square when dead, a filled one when alive.
pub open spec fn glyph(c: Cell) -> char {
    match c {
        Cell::Dead => '\u{25FB}',
        Cell::Alive => '\u{25FC}',
    }
}

/// The first `n` glyphs of row `row` of a row-major grid `width` wide.
pub open spec fn row_glyphs(cells: Seq<Cell>, width: nat, row: nat, n: nat) -> Seq<char> {
    Seq::new(n, |c: int| glyph(cells[row * width + c]))
}

/// Row `row` of the grid as one line of text.
pub open spec fn row_text(cells: Seq<Cell>, width: nat, row: nat) -> Seq<char> {
    row_glyphs(cells, width, row, width).push('\n')
}

/// The first `rows` rows of the grid, one line each.
pub open spec fn grid_text(cells: Seq<Cell>, width: nat, rows: nat) -> Seq<char>
    decreases rows,
{
    if rows == 0 {
        Seq::empty()
    } else {
        grid_text(cells, width, (rows - 1) as nat) + row_text(cells, width, (rows - 1) as nat)
    }
}

/// The first line of a rendering.
pub open spec fn header_text(generation: nat, live: nat) -> Seq<char> {
    "Generation: "@ + decimal(generation) + ", live cells: "@ + decimal(live) + "\n"@
}

/// The one-character string of the decimal digit `d`.
fn digit_str(d: u32) -> (r: &'static str)
    requires
        d < 10,
    ensures
        r@ == seq![digit_char(d as nat)],
{
    proof {
        reveal_strlit("0");
        reveal_strlit("1");
        reveal_strlit("2");
        reveal_strlit("3");
        reveal_strlit("4");
        reveal_strlit("5");
        reveal_strlit("6");
        reveal_strlit("7");
        reveal_strlit("8");
        reveal_strlit("9");
    }
    match d {
        0 => "0",
        1 => "1",
        2 => "2",
        3 => "3",
        4 => "4",
        5 => "5",
        6 => "6",
        7 => "7",
        8 => "8",
        _ => "9",
    }
}

/// Appends the decimal representation of `n` to `s`.
pub fn push_decimal(s: &mut String, n: u32)
    ensures
        final(s)@ == old(s)@ + decimal(n as nat),
    decreases n,
{
    if n >= 10 {
        push_decimal(s, n / 10);
    }
    s.append(digit_str(n % 10));
}

/// The glyph of a cell as a string.
pub fn glyph_str(c: Cell) -> (r: &'static str)
    ensures
        r@ == seq![glyph(c)],
{
    proof {
        reveal_strlit("\u{25FB}");
        reveal_strlit("\u{25FC}");
    }
    match c {
        Cell::Dead => "\u{25FB}",
        Cell::Alive => "\u{25FC}",
    }
}

} // verus!
