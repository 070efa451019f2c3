use vstd::prelude::*;
use crate::grid::{Cell, in_grid, has_free_cell, free_cells, free_cells_of, lemma_free_cells_nonempty, lemma_free_cells_members};
use crate::random::random_in;

verus! {

/// The apple the snake is after, at (`pos_x`, `pos_y`).
pub struct Apple {
    pub pos_x: i32,
    pub pos_y: i32,
}

impl Apple {
    /// The apple's cell.
    pub open spec fn cell(&self) -> Cell {
        (self.pos_x, self.pos_y)
    }

    /// Moves the apple to `free[k]`, the `k`-th free cell that was drawn.
    pub fn place(&mut self, free: &Vec<Cell>, k: usize)
        requires
            k < free@.len(),
        ensures
            final(self).cell() == free@[k as int],
    {
        let (x, y) = free[k];
        self.pos_x = x;
        self.pos_y = y;
    }

    /// Moves the apple to a random cell of the board that `list` (the snake's
    /// body) does not occupy, each such cell being drawn with the same chance.
    /// A board with no free cell is left out: no cell could be drawn.
    /// Returns the drawn position `k` in the list of free cells.
    pub fn update_chord(&mut self, list: &Vec<Cell>) -> (k: usize)
        requires
            has_free_cell(list@),
        ensures
            k < free_cells_of(list@).len(),
            final(self).cell() == free_cells_of(list@)[k as int],
            free_cells_of(list@).contains(final(self).cell()),
            in_grid(final(self).cell()),
            !list@.contains(final(self).cell()),
    {
        let free = free_cells(list);
        proof {
            lemma_free_cells_nonempty(list@);
        }
        assert(free@.len() <= 400) by {
            broadcast use vstd::seq_lib::group_filter_ensures;
        }
        let k = random_in(0, free.len() as i32);
        self.place(&free, k as usize);
        proof {
            lemma_free_cells_members(list@, self.cell());
        }
        k as usize
    }
}

} // verus!
