//! What holds of the bridge whatever it is asked to draw.

use vstd::prelude::*;
use crate::bridge::{config_error, BridgeView};
use crate::color::{occupancy, CLEAR, OPAQUE};
use crate::image::area;
use crate::layout::{
    cell_index, channel_index, lemma_cell_index_in_range, lemma_cell_index_split,
    slot_cell_index,
};
use crate::piece::{slot_piece, PieceView};
use crate::projection::ProjectionView;

verus! {

/// The board buffers of a bridge hold exactly one occupancy byte and four
/// colour channels for each of its `height * width` cells.
pub proof fn law_board_buffer_lengths(b: BridgeView)
    requires
        b.wf(),
    ensures
        b.field.len() == b.height * b.width,
        b.field_color.len() == b.height * b.width * 4,
{
}

/// A bridge built from sizes that construction accepts is well formed: it
/// has the sizes it was built with, and every buffer has the length that
/// the sizes give it.
pub proof fn law_new_bridge_is_well_formed(
    height: nat,
    width: nat,
    num_nexts: nat,
    next_size: nat,
    hold_size: nat,
    enable_ghost: bool,
    enable_garbage: bool,
)
    requires
        config_error(height, width, num_nexts, next_size, hold_size) is None,
    ensures
        ({
            let b = BridgeView::blank(
                height,
                width,
                num_nexts,
                next_size,
                hold_size,
                enable_ghost,
                enable_garbage,
            );
            &&& b.wf()
            &&& b.field.len() == height * width
            &&& b.field_color.len() == height * width * 4
        }),
{
}

/// No redraw changes a size or the length of a buffer: a bridge stays well
/// formed, with the sizes it was built with, whatever is drawn on it.
pub proof fn law_lengths_are_fixed(
    b: BridgeView,
    projection: ProjectionView,
    queue: Seq<Option<PieceView>>,
    held: Option<PieceView>,
)
    requires
        b.wf(),
    ensures
        b.after_render(projection).wf(),
        b.after_render_next(queue).wf(),
        b.after_render_hold(held).wf(),
        b.after_render(projection).same_sizes(b),
        b.after_render_next(queue).same_sizes(b),
        b.after_render_hold(held).same_sizes(b),
{
}

/// Redrawing the board twice from the same projection gives what redrawing
/// it once gives.
pub proof fn law_render_is_idempotent(b: BridgeView, projection: ProjectionView)
    ensures
        b.after_render(projection).after_render(projection) == b.after_render(projection),
{
}

/// What the board buffers show after a redraw depends on the projection and
/// on the size of the board alone, not on what they showed before.
pub proof fn law_render_forgets_the_past(a: BridgeView, b: BridgeView, projection: ProjectionView)
    requires
        a.height == b.height,
        a.width == b.width,
    ensures
        a.after_render(projection).field == b.after_render(projection).field,
        a.after_render(projection).field_color == b.after_render(projection).field_color,
{
}

/// Redrawing the preview slots twice from the same queue gives what
/// redrawing them once gives.
pub proof fn law_render_next_is_idempotent(b: BridgeView, queue: Seq<Option<PieceView>>)
    ensures
        b.after_render_next(queue).after_render_next(queue) == b.after_render_next(queue),
{
}

/// What the preview buffers show after a redraw depends on the queue, on
/// the number of slots and on their side alone, not on what they showed
/// before.
pub proof fn law_render_next_forgets_the_past(
    a: BridgeView,
    b: BridgeView,
    queue: Seq<Option<PieceView>>,
)
    requires
        a.num_nexts == b.num_nexts,
        a.next_size == b.next_size,
    ensures
        a.after_render_next(queue).nexts == b.after_render_next(queue).nexts,
        a.after_render_next(queue).nexts_color == b.after_render_next(queue).nexts_color,
{
}

/// Redrawing the hold square twice from the same hold gives what redrawing
/// it once gives.
pub proof fn law_render_hold_is_idempotent(b: BridgeView, held: Option<PieceView>)
    ensures
        b.after_render_hold(held).after_render_hold(held) == b.after_render_hold(held),
{
}

/// What the hold buffers show after a redraw depends on what is held and on
/// the side of the hold square alone, not on what they showed before: not
/// even outside of the bounding box of a held piece.
pub proof fn law_render_hold_forgets_the_past(a: BridgeView, b: BridgeView, held: Option<PieceView>)
    requires
        a.hold_size == b.hold_size,
    ensures
        a.after_render_hold(held).hold == b.after_render_hold(held).hold,
        a.after_render_hold(held).hold_color == b.after_render_hold(held).hold_color,
{
}

/// The three redraws do not touch each other's buffers, so two of them give
/// the same result in either order.
pub proof fn law_redraws_commute(
    b: BridgeView,
    projection: ProjectionView,
    queue: Seq<Option<PieceView>>,
    held: Option<PieceView>,
)
    ensures
        b.after_render(projection).after_render_next(queue) == b.after_render_next(
            queue,
        ).after_render(projection),
        b.after_render(projection).after_render_hold(held) == b.after_render_hold(
            held,
        ).after_render(projection),
        b.after_render_next(queue).after_render_hold(held) == b.after_render_hold(
            held,
        ).after_render_next(queue),
{
}

/// After a redraw of the board, the cell at `(row, col)` shows what the
/// projection has there: an occupancy of one or zero, and the projected
/// colour.
pub proof fn law_board_shows_projection(
    b: BridgeView,
    projection: ProjectionView,
    row: int,
    col: int,
    k: int,
)
    requires
        b.wf(),
        0 <= row < b.height,
        0 <= col < b.width,
        0 <= k < 4,
    ensures
        ({
            let after = b.after_render(projection);
            let cell = cell_index(row, col, b.width as int);
            &&& 0 <= cell < after.field.len()
            &&& 0 <= channel_index(cell, k) < after.field_color.len()
            &&& after.field[cell] == occupancy(projection.filled_at(row, col))
            &&& after.field_color[channel_index(cell, k)] == projection.channel_at(row, col, k)
        }),
{
    lemma_cell_index_in_range(row, col, b.height as int, b.width as int);
    lemma_cell_index_split(row, col, b.width as int);
}

/// After a redraw of the preview slots, a slot for which the queue has no
/// piece, or no entry at all, is blank: its part of the occupancy buffer is
/// zero throughout, and its part of the colour buffer is opaque white
/// throughout.
pub proof fn law_vacant_slot_is_blank(b: BridgeView, queue: Seq<Option<PieceView>>, slot: int)
    requires
        b.wf(),
        0 <= slot < b.num_nexts,
        slot_piece(queue, slot) is None,
    ensures
        ({
            let after = b.after_render_next(queue);
            let unit = area(b.next_size) as int;
            &&& 0 <= slot * unit
            &&& (slot + 1) * unit <= after.nexts.len()
            &&& after.nexts.subrange(slot * unit, (slot + 1) * unit) == Seq::new(
                unit as nat,
                |p: int| 0u8,
            )
            &&& after.nexts_color.subrange(slot * unit * 4, (slot + 1) * unit * 4) == Seq::new(
                (unit * 4) as nat,
                |q: int| OPAQUE,
            )
        }),
{
    let after = b.after_render_next(queue);
    let unit = area(b.next_size) as int;
    assert(0 < unit) by (nonlinear_arith)
        requires
            unit == b.next_size * b.next_size,
            b.next_size > 0,
    ;
    assert(0 <= slot * unit && (slot + 1) * unit <= b.num_nexts * unit && (slot + 1) * unit
        == slot * unit + unit) by (nonlinear_arith)
        requires
            0 <= slot < b.num_nexts,
            0 < unit,
    ;
    assert forall|p: int| slot * unit <= p < (slot + 1) * unit implies #[trigger] after.nexts[p]
        == 0u8 by {
        lemma_cell_index_split(slot, p - slot * unit, unit);
    }
    assert forall|q: int| slot * unit * 4 <= q < (slot + 1) * unit * 4 implies #[trigger] after.nexts_color[q]
        == OPAQUE by {
        lemma_cell_index_split(slot, q / 4 - slot * unit, unit);
    }
    assert(after.nexts.subrange(slot * unit, (slot + 1) * unit) =~= Seq::new(
        unit as nat,
        |p: int| 0u8,
    ));
    assert(after.nexts_color.subrange(slot * unit * 4, (slot + 1) * unit * 4) =~= Seq::new(
        (unit * 4) as nat,
        |q: int| OPAQUE,
    ));
}

/// After a redraw of the preview slots, a slot for which the queue has a
/// piece shows it in its top left corner. Inside the piece's bounding box
/// the occupancy is the piece's shape, a filled cell has the piece's colour
/// and an empty cell is transparent black; outside of the box every cell is
/// empty and opaque white.
pub proof fn law_slot_shows_piece(
    b: BridgeView,
    queue: Seq<Option<PieceView>>,
    piece: PieceView,
    slot: int,
    row: int,
    col: int,
    k: int,
)
    requires
        b.wf(),
        0 <= slot < b.num_nexts,
        0 <= row < b.next_size,
        0 <= col < b.next_size,
        0 <= k < 4,
        slot_piece(queue, slot) == Some(piece),
        piece.size <= b.next_size,
    ensures
        ({
            let after = b.after_render_next(queue);
            let cell = slot_cell_index(slot, row, col, b.next_size as int);
            let channel = channel_index(cell, k);
            &&& 0 <= cell < after.nexts.len()
            &&& 0 <= channel < after.nexts_color.len()
            &&& piece.covers(row, col) ==> after.nexts[cell] == occupancy(
                piece.filled_at(row, col),
            )
            &&& piece.covers(row, col) && piece.filled_at(row, col) ==> after.nexts_color[channel]
                == piece.color[k]
            &&& piece.covers(row, col) && !piece.filled_at(row, col) ==> after.nexts_color[channel]
                == CLEAR
            &&& !piece.covers(row, col) ==> after.nexts[cell] == 0 && after.nexts_color[channel]
                == OPAQUE
        }),
{
    lemma_slot_cell(b.num_nexts as int, b.next_size as int, slot, row, col);
}

/// After a redraw of the hold square with nothing held, both hold buffers
/// are zero throughout.
pub proof fn law_empty_hold_is_zero(b: BridgeView)
    requires
        b.wf(),
    ensures
        b.after_render_hold(None).hold == Seq::new(area(b.hold_size), |p: int| 0u8),
        b.after_render_hold(None).hold_color == Seq::new(
            area(b.hold_size) * 4,
            |q: int| CLEAR,
        ),
{
    let after = b.after_render_hold(None);
    assert(after.hold =~= Seq::new(area(b.hold_size), |p: int| 0u8));
    assert(after.hold_color =~= Seq::new(area(b.hold_size) * 4, |q: int| CLEAR));
}

/// After a redraw of the hold square with a piece held, the square shows
/// the piece in its top left corner. Inside the piece's bounding box the
/// occupancy is the piece's shape, and every cell, filled or not, has the
/// piece's colour; outside of the box every cell is empty and every channel
/// is zero.
pub proof fn law_hold_shows_piece(b: BridgeView, piece: PieceView, row: int, col: int, k: int)
    requires
        b.wf(),
        0 <= row < b.hold_size,
        0 <= col < b.hold_size,
        0 <= k < 4,
        piece.size <= b.hold_size,
    ensures
        ({
            let after = b.after_render_hold(Some(piece));
            let cell = cell_index(row, col, b.hold_size as int);
            let channel = channel_index(cell, k);
            &&& 0 <= cell < after.hold.len()
            &&& 0 <= channel < after.hold_color.len()
            &&& piece.covers(row, col) ==> after.hold[cell] == occupancy(
                piece.filled_at(row, col),
            ) && after.hold_color[channel] == piece.color[k]
            &&& !piece.covers(row, col) ==> after.hold[cell] == 0 && after.hold_color[channel]
                == CLEAR
        }),
{
    lemma_cell_index_in_range(row, col, b.hold_size as int, b.hold_size as int);
    lemma_cell_index_split(row, col, b.hold_size as int);
}

/// The cell at `(row, col)` of slot `slot` lies inside the preview buffers,
/// and its position determines the slot, the row and the column.
proof fn lemma_slot_cell(slots: int, side: int, slot: int, row: int, col: int)
    requires
        0 <= slot < slots,
        0 <= row < side,
        0 <= col < side,
    ensures
        ({
            let cell = slot_cell_index(slot, row, col, side);
            let inner = cell_index(row, col, side);
            &&& 0 <= cell < slots * (side * side)
            &&& cell / (side * side) == slot
            &&& cell % (side * side) == inner
            &&& inner / side == row
            &&& inner % side == col
        }),
{
    let inner = cell_index(row, col, side);
    lemma_cell_index_in_range(row, col, side, side);
    lemma_cell_index_split(row, col, side);
    lemma_cell_index_in_range(slot, inner, slots, side * side);
    lemma_cell_index_split(slot, inner, side * side);
}

} // verus!
