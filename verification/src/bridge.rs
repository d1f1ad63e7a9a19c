//! The bridge: its buffers, and the redraws that keep them in step with
//! the engine.

use vstd::prelude::*;
use crate::color::{occupancy_byte, Rgba, CLEAR, OPAQUE};
use crate::grid::{lemma_color_grid_view, lemma_flag_grid_view};
use crate::image::{
    area, field_color_image, field_image, field_text, hold_channel, hold_color_image, hold_image,
    nexts_color_image, nexts_image, piece_cell, preview_channel, row_glyphs, row_text,
};
use crate::input::{InputEvent, KeyPress};
use crate::layout::{
    cell_index, lemma_cell_index_in_range, lemma_cell_index_split, lemma_next_row,
};
use crate::piece::{piece_fits, queue_fits, slot_piece, Hold, Piece, PieceView};
use crate::projection::{Projection, ProjectionView};

verus! {

/// Why a bridge cannot be built from the parameters given.
#[derive(Clone, Copy, Debug, PartialEq, Eq, Structural)]
pub enum ConfigError {
    /// One of the five sizes is zero.
    ZeroDimension,
    /// A buffer would take more memory than can be addressed.
    TooLarge,
}

/// Whether the buffers for `cells` cells can be addressed. The larger of the
/// two is the colour buffer, with four channels of four bytes for each cell,
/// and no buffer can take more than `isize::MAX` bytes.
pub open spec fn addressable(cells: nat) -> bool {
    cells * 16 <= isize::MAX
}

/// The error, if any, with which construction answers the five sizes.
pub open spec fn config_error(
    height: nat,
    width: nat,
    num_nexts: nat,
    next_size: nat,
    hold_size: nat,
) -> Option<ConfigError> {
    if height == 0 || width == 0 || num_nexts == 0 || next_size == 0 || hold_size == 0 {
        Some(ConfigError::ZeroDimension)
    } else if !addressable(height * width) || !addressable(num_nexts * area(next_size))
        || !addressable(area(hold_size)) {
        Some(ConfigError::TooLarge)
    } else {
        None
    }
}

/// The bridge between the engine and the rendering host: the parameters it
/// was built with and the six buffers that the host reads.
pub struct WASMGameMaster {
    width: usize,
    height: usize,
    field: Vec<u8>,
    field_color: Vec<u32>,
    nexts: Vec<u8>,
    nexts_color: Vec<u32>,
    num_nexts: usize,
    next_size: usize,
    hold: Vec<u8>,
    hold_color: Vec<u32>,
    hold_size: usize,
    enable_ghost: bool,
    enable_garbage: bool,
}

/// The bridge as a mathematical value.
pub struct BridgeView {
    /// Rows of the board.
    pub height: nat,
    /// Columns of the board.
    pub width: nat,
    /// Number of preview slots.
    pub num_nexts: nat,
    /// Side of a preview slot.
    pub next_size: nat,
    /// Side of the hold square.
    pub hold_size: nat,
    /// Whether the engine is to show where the controlled piece would land.
    pub enable_ghost: bool,
    /// Whether the engine is to inject garbage lines.
    pub enable_garbage: bool,
    /// Occupancy of the board, row by row.
    pub field: Seq<u8>,
    /// Colours of the board, four channels per cell.
    pub field_color: Seq<u32>,
    /// Occupancy of the preview slots, slot by slot.
    pub nexts: Seq<u8>,
    /// Colours of the preview slots.
    pub nexts_color: Seq<u32>,
    /// Occupancy of the hold square.
    pub hold: Seq<u8>,
    /// Colours of the hold square.
    pub hold_color: Seq<u32>,
}

impl BridgeView {
    /// Every size is positive and every buffer has the length that the sizes
    /// give it.
    pub open spec fn wf(self) -> bool {
        &&& self.height > 0
        &&& self.width > 0
        &&& self.num_nexts > 0
        &&& self.next_size > 0
        &&& self.hold_size > 0
        &&& self.field.len() == self.height * self.width
        &&& self.field_color.len() == self.height * self.width * 4
        &&& self.nexts.len() == self.num_nexts * area(self.next_size)
        &&& self.nexts_color.len() == self.num_nexts * area(self.next_size) * 4
        &&& self.hold.len() == area(self.hold_size)
        &&& self.hold_color.len() == area(self.hold_size) * 4
    }

    /// Whether two bridges were built with the same sizes and have buffers
    /// of the same lengths.
    pub open spec fn same_sizes(self, other: BridgeView) -> bool {
        &&& self.height == other.height
        &&& self.width == other.width
        &&& self.num_nexts == other.num_nexts
        &&& self.next_size == other.next_size
        &&& self.hold_size == other.hold_size
        &&& self.field.len() == other.field.len()
        &&& self.field_color.len() == other.field_color.len()
        &&& self.nexts.len() == other.nexts.len()
        &&& self.nexts_color.len() == other.nexts_color.len()
        &&& self.hold.len() == other.hold.len()
        &&& self.hold_color.len() == other.hold_color.len()
    }

    /// The bridge after the board has been redrawn from `projection`: both
    /// board buffers show the projection, and nothing else has changed.
    pub open spec fn after_render(self, projection: ProjectionView) -> BridgeView {
        BridgeView {
            field: field_image(projection, self.height, self.width),
            field_color: field_color_image(projection, self.height, self.width),
            ..self
        }
    }

    /// The bridge after the preview slots have been redrawn from `queue`:
    /// both preview buffers show the head of the queue, and nothing else has
    /// changed.
    pub open spec fn after_render_next(self, queue: Seq<Option<PieceView>>) -> BridgeView {
        BridgeView {
            nexts: nexts_image(queue, self.num_nexts, self.next_size),
            nexts_color: nexts_color_image(queue, self.num_nexts, self.next_size),
            ..self
        }
    }

    /// The bridge after the hold square has been redrawn from `held`: both
    /// hold buffers show what is held, and nothing else has changed.
    pub open spec fn after_render_hold(self, held: Option<PieceView>) -> BridgeView {
        BridgeView {
            hold: hold_image(held, self.hold_size),
            hold_color: hold_color_image(held, self.hold_size),
            ..self
        }
    }

    /// The bridge as it is built: every buffer filled with zero.
    pub open spec fn blank(
        height: nat,
        width: nat,
        num_nexts: nat,
        next_size: nat,
        hold_size: nat,
        enable_ghost: bool,
        enable_garbage: bool,
    ) -> BridgeView {
        BridgeView {
            height,
            width,
            num_nexts,
            next_size,
            hold_size,
            enable_ghost,
            enable_garbage,
            field: Seq::new(height * width, |p: int| 0u8),
            field_color: Seq::new(height * width * 4, |q: int| 0u32),
            nexts: Seq::new(num_nexts * area(next_size), |p: int| 0u8),
            nexts_color: Seq::new(num_nexts * area(next_size) * 4, |q: int| 0u32),
            hold: Seq::new(area(hold_size), |p: int| 0u8),
            hold_color: Seq::new(area(hold_size) * 4, |q: int| 0u32),
        }
    }
}

/// Writes the four channels of `color` to the cell at position `cell` of a
/// colour buffer, and nothing else.
fn put_channels(buffer: &mut Vec<u32>, cell: usize, color: &Rgba)
    requires
        cell * 4 + 4 <= old(buffer)@.len(),
    ensures
        final(buffer)@.len() == old(buffer)@.len(),
        forall|q: int|
            0 <= q < old(buffer)@.len() ==> #[trigger] final(buffer)@[q] == if cell * 4 <= q < cell
                * 4 + 4 {
                color@[q - cell * 4]
            } else {
                old(buffer)@[q]
            },
{
    assert(buffer@.len() == buffer.len());
    let base: usize = cell * 4;
    let mut k: usize = 0;
    while k < 4
        invariant
            k <= 4,
            base == cell * 4,
            base + 4 <= buffer@.len(),
            buffer@.len() == old(buffer)@.len(),
            forall|q: int|
                0 <= q < buffer@.len() ==> #[trigger] buffer@[q] == if base <= q < base + k {
                    color@[q - base]
                } else {
                    old(buffer)@[q]
                },
        decreases 4 - k,
    {
        buffer.set(base + k, color[k]);
        k = k + 1;
    }
}

/// What a preview slot shows in the cell at `(row, col)`: the occupancy byte
/// and the colour.
fn preview_of(queue: &Vec<Option<Piece>>, slot: usize, row: usize, col: usize) -> (r: (u8, Rgba))
    requires
        match slot_piece(queue.deep_view(), slot as int) {
            Some(m) => m.wf(),
            None => true,
        },
    ensures
        r.0 == piece_cell(slot_piece(queue.deep_view(), slot as int), row as int, col as int),
        forall|k: int|
            0 <= k < 4 ==> #[trigger] r.1@[k] == preview_channel(
                slot_piece(queue.deep_view(), slot as int),
                row as int,
                col as int,
                k,
            ),
{
    let blank: Rgba = [OPAQUE, OPAQUE, OPAQUE, OPAQUE];
    if slot < queue.len() {
        assert(slot_piece(queue.deep_view(), slot as int) == queue@[slot as int].deep_view());
        match &queue[slot] {
            Some(m) => {
                proof {
                    lemma_flag_grid_view(&m.shape);
                }
                if row < m.size && col < m.size {
                    if m.shape[row][col] {
                        (1u8, m.color)
                    } else {
                        (0u8, [CLEAR, CLEAR, CLEAR, CLEAR])
                    }
                } else {
                    (0u8, blank)
                }
            },
            None => (0u8, blank),
        }
    } else {
        (0u8, blank)
    }
}

/// What the hold square shows in the cell at `(row, col)`: the occupancy
/// byte and the colour.
fn held_of(hold: &Hold, row: usize, col: usize) -> (r: (u8, Rgba))
    requires
        match hold@ {
            Some(m) => m.wf(),
            None => true,
        },
    ensures
        r.0 == piece_cell(hold@, row as int, col as int),
        forall|k: int|
            0 <= k < 4 ==> #[trigger] r.1@[k] == hold_channel(hold@, row as int, col as int, k),
{
    let clear: Rgba = [CLEAR, CLEAR, CLEAR, CLEAR];
    match hold {
        Hold::Holding(m) => {
            proof {
                lemma_flag_grid_view(&m.shape);
            }
            if row < m.size && col < m.size {
                (occupancy_byte(m.shape[row][col]), m.color)
            } else {
                (0u8, clear)
            }
        },
        Hold::Empty => (0u8, clear),
    }
}

/// The product of two counts, provided that the buffers for so many cells
/// can be addressed.
fn buffer_cells(a: usize, b: usize) -> (r: Option<usize>)
    ensures
        match r {
            Some(n) => n == a * b && addressable((a * b) as nat),
            None => !addressable((a * b) as nat),
        },
{
    match a.checked_mul(b) {
        Some(n) => {
            if n <= isize::MAX as usize / 16 {
                Some(n)
            } else {
                None
            }
        },
        None => None,
    }
}

impl View for WASMGameMaster {
    type V = BridgeView;

    closed spec fn view(&self) -> BridgeView {
        BridgeView {
            height: self.height as nat,
            width: self.width as nat,
            num_nexts: self.num_nexts as nat,
            next_size: self.next_size as nat,
            hold_size: self.hold_size as nat,
            enable_ghost: self.enable_ghost,
            enable_garbage: self.enable_garbage,
            field: self.field@,
            field_color: self.field_color@,
            nexts: self.nexts@,
            nexts_color: self.nexts_color@,
            hold: self.hold@,
            hold_color: self.hold_color@,
        }
    }
}

impl WASMGameMaster {
    /// Every size is positive and every buffer has the length that the sizes
    /// give it.
    pub open spec fn wf(&self) -> bool {
        self@.wf()
    }

    /// Builds a bridge for a board of `height` rows and `width` columns,
    /// with `num_nexts` preview slots of side `next_size` and a hold square
    /// of side `hold_size`. Every buffer is filled with zero.
    ///
    /// A size of zero is refused, and so are sizes for which a buffer would
    /// take more memory than can be addressed.
    pub fn new(
        height: usize,
        width: usize,
        num_nexts: usize,
        next_size: usize,
        hold_size: usize,
        enable_ghost: bool,
        enable_garbage: bool,
    ) -> (r: Result<WASMGameMaster, ConfigError>)
        ensures
            match r {
                Ok(b) => {
                    &&& config_error(
                        height as nat,
                        width as nat,
                        num_nexts as nat,
                        next_size as nat,
                        hold_size as nat,
                    ) is None
                    &&& b.wf()
                    &&& b@ == BridgeView::blank(
                        height as nat,
                        width as nat,
                        num_nexts as nat,
                        next_size as nat,
                        hold_size as nat,
                        enable_ghost,
                        enable_garbage,
                    )
                },
                Err(e) => config_error(
                    height as nat,
                    width as nat,
                    num_nexts as nat,
                    next_size as nat,
                    hold_size as nat,
                ) == Some(e),
            },
    {
        if height == 0 || width == 0 || num_nexts == 0 || next_size == 0 || hold_size == 0 {
            return Err(ConfigError::ZeroDimension);
        }
        let field_cells: usize = match buffer_cells(height, width) {
            Some(n) => n,
            None => {
                return Err(ConfigError::TooLarge);
            },
        };
        let next_area: usize = match next_size.checked_mul(next_size) {
            Some(n) => n,
            None => {
                assert(num_nexts * (next_size * next_size) > usize::MAX) by (nonlinear_arith)
                    requires
                        num_nexts >= 1,
                        next_size * next_size > usize::MAX,
                ;
                return Err(ConfigError::TooLarge);
            },
        };
        let nexts_cells: usize = match buffer_cells(num_nexts, next_area) {
            Some(n) => n,
            None => {
                return Err(ConfigError::TooLarge);
            },
        };
        let hold_cells: usize = match buffer_cells(hold_size, hold_size) {
            Some(n) => n,
            None => {
                return Err(ConfigError::TooLarge);
            },
        };
        let b = WASMGameMaster {
            width,
            height,
            field: vec![0u8; field_cells],
            field_color: vec![0u32; field_cells * 4],
            nexts: vec![0u8; nexts_cells],
            nexts_color: vec![0u32; nexts_cells * 4],
            num_nexts,
            next_size,
            hold: vec![0u8; hold_cells],
            hold_color: vec![0u32; hold_cells * 4],
            hold_size,
            enable_ghost,
            enable_garbage,
        };
        proof {
            let blank = BridgeView::blank(
                height as nat,
                width as nat,
                num_nexts as nat,
                next_size as nat,
                hold_size as nat,
                enable_ghost,
                enable_garbage,
            );
            assert(b@.field =~= blank.field);
            assert(b@.field_color =~= blank.field_color);
            assert(b@.nexts =~= blank.nexts);
            assert(b@.nexts_color =~= blank.nexts_color);
            assert(b@.hold =~= blank.hold);
            assert(b@.hold_color =~= blank.hold_color);
        }
        Ok(b)
    }

    /// Columns of the board.
    pub fn get_width(&self) -> (w: usize)
        ensures
            w == self@.width,
    {
        self.width
    }

    /// Rows of the board.
    pub fn get_height(&self) -> (h: usize)
        ensures
            h == self@.height,
    {
        self.height
    }

    /// Number of preview slots.
    pub fn get_num_nexts(&self) -> (n: usize)
        ensures
            n == self@.num_nexts,
    {
        self.num_nexts
    }

    /// Side of a preview slot.
    pub fn get_next_size(&self) -> (n: usize)
        ensures
            n == self@.next_size,
    {
        self.next_size
    }

    /// Side of the hold square.
    pub fn get_hold_size(&self) -> (n: usize)
        ensures
            n == self@.hold_size,
    {
        self.hold_size
    }

    /// Whether the engine is to show where the controlled piece would land.
    pub fn ghost_enabled(&self) -> (b: bool)
        ensures
            b == self@.enable_ghost,
    {
        self.enable_ghost
    }

    /// Whether the engine is to inject garbage lines.
    pub fn garbage_enabled(&self) -> (b: bool)
        ensures
            b == self@.enable_garbage,
    {
        self.enable_garbage
    }

    /// The number of lines deleted since the start of the session, as the
    /// byte handed to the host: the engine's count modulo 256.
    pub fn get_num_deleted_lines(&self, engine_count: usize) -> (n: u8)
        ensures
            n == engine_count % 256,
    {
        (engine_count % 256) as u8
    }

    /// Occupancy of the board: one byte per cell, row by row.
    pub fn field(&self) -> (r: &[u8])
        ensures
            r@ == self@.field,
            self.wf() ==> r@.len() == self@.height * self@.width,
    {
        self.field.as_slice()
    }

    /// Colours of the board: four channels per cell, row by row.
    pub fn field_color(&self) -> (r: &[u32])
        ensures
            r@ == self@.field_color,
            self.wf() ==> r@.len() == self@.height * self@.width * 4,
    {
        self.field_color.as_slice()
    }

    /// Occupancy of the preview slots: one byte per cell, slot by slot.
    pub fn nexts(&self) -> (r: &[u8])
        ensures
            r@ == self@.nexts,
            self.wf() ==> r@.len() == self@.num_nexts * area(self@.next_size),
    {
        self.nexts.as_slice()
    }

    /// Colours of the preview slots: four channels per cell, slot by slot.
    pub fn nexts_color(&self) -> (r: &[u32])
        ensures
            r@ == self@.nexts_color,
            self.wf() ==> r@.len() == self@.num_nexts * area(self@.next_size) * 4,
    {
        self.nexts_color.as_slice()
    }

    /// Occupancy of the hold square: one byte per cell, row by row.
    pub fn hold(&self) -> (r: &[u8])
        ensures
            r@ == self@.hold,
            self.wf() ==> r@.len() == area(self@.hold_size),
    {
        self.hold.as_slice()
    }

    /// Colours of the hold square: four channels per cell, row by row.
    pub fn hold_color(&self) -> (r: &[u32])
        ensures
            r@ == self@.hold_color,
            self.wf() ==> r@.len() == area(self@.hold_size) * 4,
    {
        self.hold_color.as_slice()
    }

    /// The board buffers show `projection` up to the cell at position
    /// `cell`, and but for the board buffers the bridge is as it was.
    spec fn board_drawn(&self, before: BridgeView, projection: ProjectionView, cell: int) -> bool {
        &&& self.wf()
        &&& self@.after_render(projection) == before.after_render(projection)
        &&& self@.field.len() <= usize::MAX
        &&& forall|p: int|
            0 <= p < cell ==> self@.field[p] == field_image(
                projection,
                before.height,
                before.width,
            )[p]
        &&& forall|q: int|
            0 <= q < cell * 4 ==> self@.field_color[q] == field_color_image(
                projection,
                before.height,
                before.width,
            )[q]
    }

    /// The preview buffers show the head of `queue` up to the cell at
    /// position `cell`, and but for the preview buffers the bridge is as it
    /// was.
    spec fn nexts_drawn(
        &self,
        before: BridgeView,
        queue: Seq<Option<PieceView>>,
        cell: int,
    ) -> bool {
        &&& self.wf()
        &&& self@.after_render_next(queue) == before.after_render_next(queue)
        &&& self@.nexts.len() <= usize::MAX
        &&& forall|p: int|
            0 <= p < cell ==> self@.nexts[p] == nexts_image(
                queue,
                before.num_nexts,
                before.next_size,
            )[p]
        &&& forall|q: int|
            0 <= q < cell * 4 ==> self@.nexts_color[q] == nexts_color_image(
                queue,
                before.num_nexts,
                before.next_size,
            )[q]
    }

    /// The hold buffers show `held` up to the cell at position `cell`, and
    /// but for the hold buffers the bridge is as it was.
    spec fn hold_drawn(&self, before: BridgeView, held: Option<PieceView>, cell: int) -> bool {
        &&& self.wf()
        &&& self@.after_render_hold(held) == before.after_render_hold(held)
        &&& self@.hold.len() <= usize::MAX
        &&& forall|p: int|
            0 <= p < cell ==> self@.hold[p] == hold_image(held, before.hold_size)[p]
        &&& forall|q: int|
            0 <= q < cell * 4 ==> self@.hold_color[q] == hold_color_image(
                held,
                before.hold_size,
            )[q]
    }

    /// Redraws the board from what the engine projects. Both board buffers
    /// are overwritten in full; no other buffer is touched.
    pub fn render(&mut self, projection: &Projection)
        requires
            old(self).wf(),
            projection@.fits(old(self)@.height, old(self)@.width),
        ensures
            final(self).wf(),
            final(self)@ == old(self)@.after_render(projection@),
    {
        let ghost before = self@;
        assert(self.field@.len() == self.field.len());
        let mut cell: usize = 0;
        let mut row: usize = 0;
        while row < self.height
            invariant
                self.board_drawn(before, projection@, cell as int),
                projection@.fits(self@.height, self@.width),
                row <= self.height,
                cell == cell_index(row as int, 0, self.width as int),
            decreases self.height - row,
        {
            let mut col: usize = 0;
            while col < self.width
                invariant
                    self.board_drawn(before, projection@, cell as int),
                    projection@.fits(self@.height, self@.width),
                    row < self.height,
                    col <= self.width,
                    cell == cell_index(row as int, col as int, self.width as int),
                decreases self.width - col,
            {
                proof {
                    lemma_cell_index_in_range(
                        row as int,
                        col as int,
                        self.height as int,
                        self.width as int,
                    );
                    lemma_cell_index_split(row as int, col as int, self.width as int);
                    lemma_flag_grid_view(&projection.filled);
                    lemma_color_grid_view(&projection.color);
                }
                self.field.set(cell, occupancy_byte(projection.filled[row][col]));
                put_channels(&mut self.field_color, cell, &projection.color[row][col]);
                cell = cell + 1;
                col = col + 1;
            }
            proof {
                lemma_next_row(row as int, self.width as int);
            }
            row = row + 1;
        }
        assert(self@.field =~= field_image(projection@, before.height, before.width));
        assert(self@.field_color =~= field_color_image(projection@, before.height, before.width));
    }

    /// Redraws the preview slots from the queue of coming pieces, where
    /// `queue[i]` is what the engine reports for position `i`. A slot for
    /// which the queue has no piece, or no entry at all, is left blank.
    pub fn render_next(&mut self, queue: &Vec<Option<Piece>>)
        requires
            old(self).wf(),
            queue_fits(queue.deep_view(), old(self)@.num_nexts, old(self)@.next_size),
        ensures
            final(self).wf(),
            final(self)@ == old(self)@.after_render_next(queue.deep_view()),
    {
        let ghost before = self@;
        let ghost unit = area(before.next_size) as int;
        assert(self.nexts@.len() == self.nexts.len());
        let side: usize = self.next_size;
        let mut cell: usize = 0;
        let mut slot: usize = 0;
        while slot < self.num_nexts
            invariant
                self.nexts_drawn(before, queue.deep_view(), cell as int),
                queue_fits(queue.deep_view(), self@.num_nexts, self@.next_size),
                side == self.next_size,
                unit == side * side,
                slot <= self.num_nexts,
                cell == cell_index(slot as int, 0, unit),
            decreases self.num_nexts - slot,
        {
            let mut row: usize = 0;
            while row < side
                invariant
                    self.nexts_drawn(before, queue.deep_view(), cell as int),
                    queue_fits(queue.deep_view(), self@.num_nexts, self@.next_size),
                    side == self.next_size,
                    unit == side * side,
                    slot < self.num_nexts,
                    row <= side,
                    cell == cell_index(slot as int, cell_index(row as int, 0, side as int), unit),
                decreases side - row,
            {
                let mut col: usize = 0;
                while col < side
                    invariant
                        self.nexts_drawn(before, queue.deep_view(), cell as int),
                        queue_fits(queue.deep_view(), self@.num_nexts, self@.next_size),
                        side == self.next_size,
                        unit == side * side,
                        slot < self.num_nexts,
                        row < side,
                        col <= side,
                        cell == cell_index(
                            slot as int,
                            cell_index(row as int, col as int, side as int),
                            unit,
                        ),
                    decreases side - col,
                {
                    proof {
                        let inner = cell_index(row as int, col as int, side as int);
                        lemma_cell_index_in_range(row as int, col as int, side as int, side as int);
                        lemma_cell_index_split(row as int, col as int, side as int);
                        lemma_cell_index_in_range(slot as int, inner, self.num_nexts as int, unit);
                        lemma_cell_index_split(slot as int, inner, unit);
                    }
                    let shown = preview_of(queue, slot, row, col);
                    self.nexts.set(cell, shown.0);
                    put_channels(&mut self.nexts_color, cell, &shown.1);
                    cell = cell + 1;
                    col = col + 1;
                }
                proof {
                    lemma_next_row(row as int, side as int);
                }
                row = row + 1;
            }
            proof {
                lemma_next_row(slot as int, unit);
            }
            slot = slot + 1;
        }
        assert(self@.nexts =~= nexts_image(queue.deep_view(), before.num_nexts, before.next_size));
        assert(self@.nexts_color =~= nexts_color_image(
            queue.deep_view(),
            before.num_nexts,
            before.next_size,
        ));
    }

    /// Redraws the hold square from what the engine holds. Both hold
    /// buffers are overwritten in full; no other buffer is touched. With a
    /// piece held, the piece's colour is painted over its whole bounding
    /// box, filled cell or not, and every cell outside of the box is empty
    /// and zero. With nothing held, both buffers are zero throughout.
    pub fn render_hold(&mut self, hold: &Hold)
        requires
            old(self).wf(),
            piece_fits(hold@, old(self)@.hold_size),
        ensures
            final(self).wf(),
            final(self)@ == old(self)@.after_render_hold(hold@),
    {
        let ghost before = self@;
        assert(self.hold@.len() == self.hold.len());
        let side: usize = self.hold_size;
        let mut cell: usize = 0;
        let mut row: usize = 0;
        while row < side
            invariant
                self.hold_drawn(before, hold@, cell as int),
                piece_fits(hold@, side as nat),
                side == self.hold_size,
                row <= side,
                cell == cell_index(row as int, 0, side as int),
            decreases side - row,
        {
            let mut col: usize = 0;
            while col < side
                invariant
                    self.hold_drawn(before, hold@, cell as int),
                    piece_fits(hold@, side as nat),
                    side == self.hold_size,
                    row < side,
                    col <= side,
                    cell == cell_index(row as int, col as int, side as int),
                decreases side - col,
            {
                proof {
                    lemma_cell_index_in_range(row as int, col as int, side as int, side as int);
                    lemma_cell_index_split(row as int, col as int, side as int);
                }
                let shown = held_of(hold, row, col);
                self.hold.set(cell, shown.0);
                put_channels(&mut self.hold_color, cell, &shown.1);
                cell = cell + 1;
                col = col + 1;
            }
            proof {
                lemma_next_row(row as int, side as int);
            }
            row = row + 1;
        }
        assert(self@.hold =~= hold_image(hold@, before.hold_size));
        assert(self@.hold_color =~= hold_color_image(hold@, before.hold_size));
    }

    /// The board as text, for diagnostics: one line per row, a space for an
    /// empty cell and an asterisk for an occupied one, between two bars.
    pub fn to_string(&self) -> (text: String)
        requires
            self.wf(),
        ensures
            text@ == field_text(self@.field, self@.height, self@.width),
    {
        let mut text = String::new();
        assert(self.field@.len() == self.field.len());
        let mut cell: usize = 0;
        let mut row: usize = 0;
        while row < self.height
            invariant
                self.wf(),
                self.height * self.width <= usize::MAX,
                row <= self.height,
                cell == cell_index(row as int, 0, self.width as int),
                text@ == field_text(self@.field, row as nat, self@.width),
            decreases self.height - row,
        {
            let ghost done = text@;
            text.append("|");
            let mut c: usize = 0;
            while c < self.width
                invariant
                    self.wf(),
                    self.height * self.width <= usize::MAX,
                    row < self.height,
                    c <= self.width,
                    cell == cell_index(row as int, c as int, self.width as int),
                    text@ == done + "|"@ + row_glyphs(
                        self@.field,
                        row as int,
                        self.width as int,
                        c as nat,
                    ),
                decreases self.width - c,
            {
                proof {
                    lemma_cell_index_in_range(
                        row as int,
                        c as int,
                        self.height as int,
                        self.width as int,
                    );
                    reveal_strlit(" ");
                    reveal_strlit("*");
                }
                let ghost line = text@;
                if self.field[cell] == 0 {
                    text.append(" ");
                } else {
                    text.append("*");
                }
                assert(text@ =~= done + "|"@ + row_glyphs(
                    self@.field,
                    row as int,
                    self.width as int,
                    (c + 1) as nat,
                ));
                cell = cell + 1;
                c = c + 1;
            }
            text.append("|\n");
            proof {
                reveal_strlit("|");
                reveal_strlit("|\n");
                lemma_next_row(row as int, self.width as int);
                assert(text@ =~= done + row_text(self@.field, row as int, self@.width));
            }
            row = row + 1;
        }
        text
    }

    /// Packs the time and the seven control signals of one simulation step
    /// into the one event that is to be forwarded to the engine.
    pub fn tick(
        &self,
        current_time_in_milli: i32,
        right_rotate_key: bool,
        left_rotate_key: bool,
        hold_key: bool,
        soft_drop_key: bool,
        hard_drop_key: bool,
        right_move_key: bool,
        left_move_key: bool,
    ) -> (event: InputEvent)
        ensures
            event == (InputEvent {
                timestamp: current_time_in_milli,
                keys: KeyPress {
                    right_rotate: right_rotate_key,
                    left_rotate: left_rotate_key,
                    hold: hold_key,
                    soft_drop: soft_drop_key,
                    hard_drop: hard_drop_key,
                    right_move: right_move_key,
                    left_move: left_move_key,
                },
            }),
    {
        InputEvent {
            timestamp: current_time_in_milli,
            keys: KeyPress {
                right_rotate: right_rotate_key,
                left_rotate: left_rotate_key,
                hold: hold_key,
                soft_drop: soft_drop_key,
                hard_drop: hard_drop_key,
                right_move: right_move_key,
                left_move: left_move_key,
            },
        }
    }
}

} // verus!
