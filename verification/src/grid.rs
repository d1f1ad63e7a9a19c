//! How the mathematical value of a grid relates to the grid's cells.

use vstd::prelude::*;
use crate::color::Rgba;

verus! {

/// The mathematical value of a grid of flags has the grid's rows, and each
/// of them has the row's flags.
pub proof fn lemma_flag_grid_view(grid: &Vec<Vec<bool>>)
    ensures
        grid.deep_view().len() == grid@.len(),
        forall|r: int|
            #![trigger grid.deep_view()[r]]
            #![trigger grid@[r]]
            0 <= r < grid@.len() ==> grid.deep_view()[r] == grid@[r]@,
{
    assert forall|r: int| 0 <= r < grid@.len() implies grid.deep_view()[r] == grid@[r]@ by {
        assert(grid@[r].deep_view() =~= grid@[r]@);
    }
}

/// The mathematical value of a colour has the colour's four channels.
pub proof fn lemma_color_view(color: &Rgba)
    ensures
        color.deep_view() == color@,
        color@.len() == 4,
{
    assert(color.deep_view() =~= color@);
}

/// The mathematical value of a grid of colours has the grid's rows, each of
/// them has the row's cells, and each of them the four channels of the
/// cell's colour.
pub proof fn lemma_color_grid_view(grid: &Vec<Vec<Rgba>>)
    ensures
        grid.deep_view().len() == grid@.len(),
        forall|r: int|
            #![trigger grid.deep_view()[r]]
            #![trigger grid@[r]]
            0 <= r < grid@.len() ==> grid.deep_view()[r].len() == grid@[r]@.len(),
        forall|r: int, c: int|
            #![trigger grid.deep_view()[r][c]]
            #![trigger grid@[r]@[c]]
            0 <= r < grid@.len() && 0 <= c < grid@[r]@.len() ==> grid.deep_view()[r][c]
                == grid@[r]@[c]@,
{
    assert forall|r: int, c: int| 0 <= r < grid@.len() && 0 <= c < grid@[r]@.len() implies grid.deep_view()[r][c]
        == grid@[r]@[c]@ by {
        lemma_color_view(&grid@[r]@[c]);
    }
}

} // verus!
