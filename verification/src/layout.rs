//! Where a cell lies in a flat buffer, and which cell lies at a position.

use vstd::prelude::*;
use vstd::arithmetic::div_mod::lemma_fundamental_div_mod_converse;

verus! {

/// Position of the cell at `(row, col)` in a row-major grid whose rows hold
/// `side` cells.
pub open spec fn cell_index(row: int, col: int, side: int) -> int {
    row * side + col
}

/// Position of channel `channel` of the cell at position `cell` in a colour
/// buffer, which holds four channels per cell.
pub open spec fn channel_index(cell: int, channel: int) -> int {
    cell * 4 + channel
}

/// Position of the cell at `(row, col)` of preview slot `slot`, where every
/// slot is a square of `side * side` cells.
pub open spec fn slot_cell_index(slot: int, row: int, col: int, side: int) -> int {
    cell_index(slot, cell_index(row, col, side), side * side)
}

/// Row of the cell at position `p`.
pub open spec fn row_of(p: int, side: int) -> int {
    p / side
}

/// Column of the cell at position `p`.
pub open spec fn col_of(p: int, side: int) -> int {
    p % side
}

/// A cell inside a grid of `rows` rows lies inside the grid's buffer.
pub proof fn lemma_cell_index_in_range(row: int, col: int, rows: int, side: int)
    requires
        0 <= row < rows,
        0 <= col < side,
    ensures
        0 <= cell_index(row, col, side) < rows * side,
{
    assert(0 <= row * side && row * side + side <= rows * side) by (nonlinear_arith)
        requires
            0 <= row < rows,
            0 < side,
    ;
}

/// The position of a cell determines its row and its column.
pub proof fn lemma_cell_index_split(row: int, col: int, side: int)
    requires
        0 <= col < side,
    ensures
        row_of(cell_index(row, col, side), side) == row,
        col_of(cell_index(row, col, side), side) == col,
{
    lemma_fundamental_div_mod_converse(cell_index(row, col, side), side, row, col);
}

/// The first position of the row after `row` follows the last cell of `row`.
pub proof fn lemma_next_row(row: int, side: int)
    ensures
        cell_index(row, side, side) == cell_index(row + 1, 0, side),
{
    assert(row * side + side == (row + 1) * side) by (nonlinear_arith);
}

} // verus!
