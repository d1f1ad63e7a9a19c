//! Pieces, the hold slot and the queue of coming pieces, as the engine
//! reports them.

use vstd::prelude::*;
use crate::color::Rgba;
use crate::grid::lemma_flag_grid_view;

verus! {

/// A piece as the engine reports it: a square matrix of filled and empty
/// cells, and the one colour of its filled cells.
#[derive(Clone, Debug)]
pub struct Piece {
    /// Side of the bounding box.
    pub size: usize,
    /// `shape[row][col]` tells whether the cell is filled.
    pub shape: Vec<Vec<bool>>,
    /// Colour of the piece.
    pub color: Rgba,
}

/// What the hold slot contains.
#[derive(Clone, Debug)]
pub enum Hold {
    /// A piece is set aside.
    Holding(Piece),
    /// Nothing is set aside.
    Empty,
}

/// A piece as a mathematical value.
pub struct PieceView {
    /// Side of the bounding box.
    pub size: nat,
    /// The rows of the shape, from the top.
    pub shape: Seq<Seq<bool>>,
    /// The four channels of the colour.
    pub color: Seq<u32>,
}

impl PieceView {
    /// The shape is a square of side `size`.
    pub open spec fn wf(self) -> bool {
        &&& self.shape.len() == self.size
        &&& forall|r: int| 0 <= r < self.size ==> (#[trigger] self.shape[r]).len() == self.size
    }

    /// Whether `(row, col)` lies inside the bounding box.
    pub open spec fn covers(self, row: int, col: int) -> bool {
        0 <= row < self.size && 0 <= col < self.size
    }

    /// Whether the cell at `(row, col)` is filled.
    pub open spec fn filled_at(self, row: int, col: int) -> bool {
        self.shape[row][col]
    }

    /// Whether the shape is a square that fits into a square cell of side
    /// `side`.
    pub open spec fn fits(self, side: nat) -> bool {
        self.wf() && self.size <= side
    }
}

impl View for Piece {
    type V = PieceView;

    open spec fn view(&self) -> PieceView {
        PieceView { size: self.size as nat, shape: self.shape.deep_view(), color: self.color@ }
    }
}

impl DeepView for Piece {
    type V = PieceView;

    open spec fn deep_view(&self) -> PieceView {
        self.view()
    }
}

impl View for Hold {
    type V = Option<PieceView>;

    open spec fn view(&self) -> Option<PieceView> {
        match *self {
            Hold::Holding(m) => Some(m@),
            Hold::Empty => None,
        }
    }
}

/// Whether a piece, if there is one, fits into a square cell of side `side`.
pub open spec fn piece_fits(piece: Option<PieceView>, side: nat) -> bool {
    match piece {
        Some(m) => m.fits(side),
        None => true,
    }
}

/// The piece in slot `slot` of a queue; a slot past the end of the queue is
/// vacant.
pub open spec fn slot_piece(queue: Seq<Option<PieceView>>, slot: int) -> Option<PieceView> {
    if 0 <= slot < queue.len() {
        queue[slot]
    } else {
        None
    }
}

/// Whether every piece in the first `slots` slots of the queue fits into a
/// square cell of side `side`.
pub open spec fn queue_fits(queue: Seq<Option<PieceView>>, slots: nat, side: nat) -> bool {
    forall|s: int| 0 <= s < slots ==> piece_fits(#[trigger] slot_piece(queue, s), side)
}

impl Piece {
    /// Tells whether the shape is a square of side `size`.
    pub fn is_well_formed(&self) -> (b: bool)
        ensures
            b == self@.wf(),
    {
        proof {
            lemma_flag_grid_view(&self.shape);
        }
        if self.shape.len() != self.size {
            return false;
        }
        let mut r: usize = 0;
        while r < self.size
            invariant
                r <= self.size,
                self.shape@.len() == self.size,
                forall|t: int| 0 <= t < r ==> (#[trigger] self@.shape[t]).len() == self.size,
            decreases self.size - r,
        {
            proof {
                lemma_flag_grid_view(&self.shape);
            }
            if self.shape[r].len() != self.size {
                return false;
            }
            r = r + 1;
        }
        true
    }

    /// Tells whether the shape is a square that fits into a square cell of
    /// side `side`.
    pub fn fits_in(&self, side: usize) -> (b: bool)
        ensures
            b == self@.fits(side as nat),
    {
        self.size <= side && self.is_well_formed()
    }
}

impl Hold {
    /// Tells whether what is held fits into a square cell of side `side`.
    pub fn fits_in(&self, side: usize) -> (b: bool)
        ensures
            b == piece_fits(self@, side as nat),
    {
        match self {
            Hold::Holding(m) => m.fits_in(side),
            Hold::Empty => true,
        }
    }
}

/// Tells whether every piece in the first `slots` slots of the queue fits
/// into a square cell of side `side`.
pub fn queue_fits_in(queue: &Vec<Option<Piece>>, slots: usize, side: usize) -> (b: bool)
    ensures
        b == queue_fits(queue.deep_view(), slots as nat, side as nat),
{
    let mut s: usize = 0;
    while s < slots && s < queue.len()
        invariant
            forall|t: int|
                0 <= t < s ==> piece_fits(
                    #[trigger] slot_piece(queue.deep_view(), t),
                    side as nat,
                ),
            s <= slots,
            s <= queue@.len(),
        decreases queue@.len() - s,
    {
        assert(slot_piece(queue.deep_view(), s as int) == queue@[s as int].deep_view());
        match &queue[s] {
            Some(m) => {
                if !m.fits_in(side) {
                    return false;
                }
            },
            None => {},
        }
        s = s + 1;
    }
    true
}

} // verus!
