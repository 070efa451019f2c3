use vstd::prelude::*;
use crate::grid::{Cell, GRID_SIZE, in_grid, contains_cell};
use crate::snake::{Direction, step_cell};

verus! {

/// Whether moving the head onto `pos` would be fatal: the cell is off the
/// board or taken by the body.
pub open spec fn unsafe_cell(pos: Cell, body: Seq<Cell>) -> bool {
    !in_grid(pos) || body.contains(pos)
}

/// A cell is fatal exactly when it is off the board (a column or row below
/// 0 or at `GRID_SIZE` or beyond) or taken by the body.
pub proof fn lemma_unsafe_cell_rule(pos: Cell, body: Seq<Cell>)
    ensures
        unsafe_cell(pos, body) == (pos.0 < 0 || pos.0 >= GRID_SIZE || pos.1 < 0 || pos.1
            >= GRID_SIZE || body.contains(pos)),
{
}

/// The yes-or-no part of what the controller perceives: where the apple lies
/// relative to the head, and which neighbouring cells of the head are fatal.
#[derive(Clone, Copy, PartialEq, Eq, Structural, Debug)]
pub struct Senses {
    pub apple_above: bool,
    pub apple_left: bool,
    pub danger_up: bool,
    pub danger_down: bool,
    pub danger_left: bool,
    pub danger_right: bool,
}

/// Whether moving the head onto `pos` would be fatal (see `unsafe_cell`).
pub fn is_unsafe(pos: Cell, body: &Vec<Cell>) -> (r: bool)
    ensures
        r == unsafe_cell(pos, body@),
        r == (pos.0 < 0 || pos.0 >= GRID_SIZE || pos.1 < 0 || pos.1 >= GRID_SIZE || body@.contains(
            pos,
        )),
{
    proof {
        lemma_unsafe_cell_rule(pos, body@);
    }
    if pos.0 < 0 || pos.0 >= GRID_SIZE || pos.1 < 0 || pos.1 >= GRID_SIZE {
        return true;
    }
    contains_cell(body, pos)
}

/// What the controller perceives of the head at `head`, the apple at `apple`
/// and the body `body`: whether the apple is above (smaller row) and to the
/// left (smaller column) of the head, and whether each of the four cells next
/// to the head is fatal.
pub fn sense(head: Cell, apple: Cell, body: &Vec<Cell>) -> (s: Senses)
    requires
        i32::MIN < head.0 < i32::MAX,
        i32::MIN < head.1 < i32::MAX,
    ensures
        s.apple_above == (apple.1 < head.1),
        s.apple_left == (apple.0 < head.0),
        s.danger_up == unsafe_cell(step_cell(head, Direction::Up), body@),
        s.danger_down == unsafe_cell(step_cell(head, Direction::Down), body@),
        s.danger_left == unsafe_cell(step_cell(head, Direction::Left), body@),
        s.danger_right == unsafe_cell(step_cell(head, Direction::Right), body@),
        s.danger_up == (head.1 - 1 < 0 || head.1 - 1 >= GRID_SIZE || head.0 < 0 || head.0
            >= GRID_SIZE || body@.contains((head.0, (head.1 - 1) as i32))),
        s.danger_down == (head.1 + 1 < 0 || head.1 + 1 >= GRID_SIZE || head.0 < 0 || head.0
            >= GRID_SIZE || body@.contains((head.0, (head.1 + 1) as i32))),
        s.danger_left == (head.0 - 1 < 0 || head.0 - 1 >= GRID_SIZE || head.1 < 0 || head.1
            >= GRID_SIZE || body@.contains(((head.0 - 1) as i32, head.1))),
        s.danger_right == (head.0 + 1 < 0 || head.0 + 1 >= GRID_SIZE || head.1 < 0 || head.1
            >= GRID_SIZE || body@.contains(((head.0 + 1) as i32, head.1))),
{
    Senses {
        apple_above: apple.1 < head.1,
        apple_left: apple.0 < head.0,
        danger_up: is_unsafe((head.0, head.1 - 1), body),
        danger_down: is_unsafe((head.0, head.1 + 1), body),
        danger_left: is_unsafe((head.0 - 1, head.1), body),
        danger_right: is_unsafe((head.0 + 1, head.1), body),
    }
}

} // verus!
