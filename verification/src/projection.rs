//! The board as the engine projects it.

use vstd::prelude::*;
use crate::color::Rgba;
use crate::grid::{lemma_color_grid_view, lemma_flag_grid_view};

verus! {

/// The board as the engine projects it for the current instant: the locked
/// blocks with the controlled piece and its landing preview laid over them.
#[derive(Clone, Debug)]
pub struct Projection {
    /// `filled[row][col]` tells whether the cell shows a block.
    pub filled: Vec<Vec<bool>>,
    /// `color[row][col]` is the colour of the cell.
    pub color: Vec<Vec<Rgba>>,
}

/// A projection as a mathematical value.
pub struct ProjectionView {
    /// The rows of the occupancy grid, from the top.
    pub filled: Seq<Seq<bool>>,
    /// The rows of the colour grid, each cell with its four channels.
    pub color: Seq<Seq<Seq<u32>>>,
}

impl ProjectionView {
    /// Both grids have `height` rows of `width` cells.
    pub open spec fn fits(self, height: nat, width: nat) -> bool {
        &&& self.filled.len() == height
        &&& self.color.len() == height
        &&& forall|r: int| 0 <= r < height ==> (#[trigger] self.filled[r]).len() == width
        &&& forall|r: int| 0 <= r < height ==> (#[trigger] self.color[r]).len() == width
    }

    /// Whether the cell at `(row, col)` shows a block.
    pub open spec fn filled_at(self, row: int, col: int) -> bool {
        self.filled[row][col]
    }

    /// Channel `k` of the colour of the cell at `(row, col)`.
    pub open spec fn channel_at(self, row: int, col: int, k: int) -> u32 {
        self.color[row][col][k]
    }
}

impl View for Projection {
    type V = ProjectionView;

    open spec fn view(&self) -> ProjectionView {
        ProjectionView { filled: self.filled.deep_view(), color: self.color.deep_view() }
    }
}

impl Projection {
    /// Tells whether both grids have `height` rows of `width` cells.
    pub fn fits_in(&self, height: usize, width: usize) -> (b: bool)
        ensures
            b == self@.fits(height as nat, width as nat),
    {
        proof {
            lemma_flag_grid_view(&self.filled);
            lemma_color_grid_view(&self.color);
        }
        if self.filled.len() != height || self.color.len() != height {
            return false;
        }
        let mut r: usize = 0;
        while r < height
            invariant
                r <= height,
                self.filled@.len() == height,
                self.color@.len() == height,
                forall|t: int| 0 <= t < r ==> (#[trigger] self@.filled[t]).len() == width,
                forall|t: int| 0 <= t < r ==> (#[trigger] self@.color[t]).len() == width,
            decreases height - r,
        {
            proof {
                lemma_flag_grid_view(&self.filled);
                lemma_color_grid_view(&self.color);
            }
            if self.filled[r].len() != width || self.color[r].len() != width {
                return false;
            }
            r = r + 1;
        }
        true
    }
}

} // verus!
