//! What each buffer holds once it shows a given state of the engine.

use vstd::prelude::*;
use crate::color::{occupancy, CLEAR, OPAQUE};
use crate::layout::{cell_index, col_of, row_of};
use crate::piece::{slot_piece, PieceView};
use crate::projection::ProjectionView;

verus! {

/// Number of cells of a square of side `side`.
pub open spec fn area(side: nat) -> nat {
    side * side
}

/// Occupancy of the cell at `(row, col)` of a square in whose top left
/// corner `piece` is laid: the piece's shape inside its bounding box, empty
/// outside of it and where there is no piece.
pub open spec fn piece_cell(piece: Option<PieceView>, row: int, col: int) -> u8 {
    match piece {
        Some(m) => if m.covers(row, col) {
            occupancy(m.filled_at(row, col))
        } else {
            0u8
        },
        None => 0u8,
    }
}

/// Channel `k` of the cell at `(row, col)` of a preview slot that shows
/// `piece`: the piece's colour on its filled cells, transparent black on the
/// empty cells of its bounding box, and opaque white everywhere else.
pub open spec fn preview_channel(piece: Option<PieceView>, row: int, col: int, k: int) -> u32 {
    match piece {
        Some(m) => if m.covers(row, col) {
            if m.filled_at(row, col) {
                m.color[k]
            } else {
                CLEAR
            }
        } else {
            OPAQUE
        },
        None => OPAQUE,
    }
}

/// Channel `k` of the cell at `(row, col)` of the hold square that shows
/// `held`: the piece's colour over the whole bounding box of a held piece,
/// filled cell or not, and zero everywhere else.
pub open spec fn hold_channel(held: Option<PieceView>, row: int, col: int, k: int) -> u32 {
    match held {
        Some(m) => if m.covers(row, col) {
            m.color[k]
        } else {
            CLEAR
        },
        None => CLEAR,
    }
}

/// Occupancy buffer of a board of `height` rows and `width` columns that
/// shows `projection`.
pub open spec fn field_image(projection: ProjectionView, height: nat, width: nat) -> Seq<u8> {
    Seq::new(
        height * width,
        |p: int| occupancy(projection.filled_at(row_of(p, width as int), col_of(p, width as int))),
    )
}

/// Colour buffer of a board of `height` rows and `width` columns that shows
/// `projection`.
pub open spec fn field_color_image(projection: ProjectionView, height: nat, width: nat) -> Seq<
    u32,
> {
    Seq::new(
        height * width * 4,
        |q: int|
            projection.channel_at(row_of(q / 4, width as int), col_of(q / 4, width as int), q % 4),
    )
}

/// Occupancy buffer of `slots` preview slots of side `side` that show the
/// head of `queue`.
pub open spec fn nexts_image(queue: Seq<Option<PieceView>>, slots: nat, side: nat) -> Seq<u8> {
    Seq::new(
        slots * area(side),
        |p: int|
            piece_cell(
                slot_piece(queue, row_of(p, area(side) as int)),
                row_of(col_of(p, area(side) as int), side as int),
                col_of(col_of(p, area(side) as int), side as int),
            ),
    )
}

/// Colour buffer of `slots` preview slots of side `side` that show the head
/// of `queue`.
pub open spec fn nexts_color_image(queue: Seq<Option<PieceView>>, slots: nat, side: nat) -> Seq<
    u32,
> {
    Seq::new(
        slots * area(side) * 4,
        |q: int|
            preview_channel(
                slot_piece(queue, row_of(q / 4, area(side) as int)),
                row_of(col_of(q / 4, area(side) as int), side as int),
                col_of(col_of(q / 4, area(side) as int), side as int),
                q % 4,
            ),
    )
}

/// Occupancy buffer of a hold square of side `side` that shows `held`.
pub open spec fn hold_image(held: Option<PieceView>, side: nat) -> Seq<u8> {
    Seq::new(
        area(side),
        |p: int| piece_cell(held, row_of(p, side as int), col_of(p, side as int)),
    )
}

/// Colour buffer of a hold square of side `side` that shows `held`.
pub open spec fn hold_color_image(held: Option<PieceView>, side: nat) -> Seq<u32> {
    Seq::new(
        area(side) * 4,
        |q: int| hold_channel(held, row_of(q / 4, side as int), col_of(q / 4, side as int), q % 4),
    )
}

/// The character that stands for a cell in the textual rendering.
pub open spec fn glyph(cell: u8) -> char {
    if cell == 0 {
        ' '
    } else {
        '*'
    }
}

/// The first `cols` cells of row `row` of a board, as characters.
pub open spec fn row_glyphs(field: Seq<u8>, row: int, width: int, cols: nat) -> Seq<char> {
    Seq::new(cols, |c: int| glyph(field[cell_index(row, c, width)]))
}

/// Row `row` of a board as a line of text: the cells between two bars, and a
/// line feed.
pub open spec fn row_text(field: Seq<u8>, row: int, width: nat) -> Seq<char> {
    seq!['|'] + row_glyphs(field, row, width as int, width) + seq!['|', '\n']
}

/// The first `rows` rows of a board as text, one line per row.
pub open spec fn field_text(field: Seq<u8>, rows: nat, width: nat) -> Seq<char>
    decreases rows,
{
    if rows == 0 {
        Seq::empty()
    } else {
        field_text(field, (rows - 1) as nat, width) + row_text(field, rows - 1, width)
    }
}

} // verus!
