use vstd::prelude::*;
use crate::grid::Cell;

verus! {

broadcast use vstd::seq_lib::group_seq_properties;

/// The direction in which the snake's head moves.
#[derive(Clone, Copy, PartialEq, Eq, Structural, Debug)]
pub enum Direction {
    Right,
    Left,
    Down,
    Up,
}

/// The change of (column, row) that one move in `d` makes; rows grow downwards.
pub open spec fn offset(d: Direction) -> (int, int) {
    match d {
        Direction::Left => (-1, 0),
        Direction::Right => (1, 0),
        Direction::Up => (0, -1),
        Direction::Down => (0, 1),
    }
}

/// The direction that undoes `d`.
pub open spec fn opposite(d: Direction) -> Direction {
    match d {
        Direction::Left => Direction::Right,
        Direction::Right => Direction::Left,
        Direction::Up => Direction::Down,
        Direction::Down => Direction::Up,
    }
}

/// Whether the cell one move from `c` in `d` has coordinates that fit in `i32`.
pub open spec fn step_fits(c: Cell, d: Direction) -> bool {
    &&& i32::MIN <= c.0 + offset(d).0 <= i32::MAX
    &&& i32::MIN <= c.1 + offset(d).1 <= i32::MAX
}

/// The cell one move from `c` in `d`.
pub open spec fn step_cell(c: Cell, d: Direction) -> Cell {
    ((c.0 + offset(d).0) as i32, (c.1 + offset(d).1) as i32)
}

/// The body after one move in `d`: a new head in front, and the tail cell
/// dropped unless the new head lands on `apple`.
pub open spec fn next_body(body: Seq<Cell>, d: Direction, apple: Cell) -> Seq<Cell> {
    let h = step_cell(body[0], d);
    if h == apple {
        seq![h] + body
    } else {
        seq![h] + body.drop_last()
    }
}

/// One move up lowers the row by one, down raises it, left lowers the
/// column, right raises it; the other coordinate stays. Each direction's
/// reverse is the one along the same axis the other way.
pub proof fn lemma_step_rule(c: Cell)
    ensures
        step_fits(c, Direction::Up) ==> step_cell(c, Direction::Up) == (c.0, (c.1 - 1) as i32)
            && c.1 - 1 == step_cell(c, Direction::Up).1,
        step_fits(c, Direction::Down) ==> step_cell(c, Direction::Down) == (c.0, (c.1 + 1) as i32)
            && c.1 + 1 == step_cell(c, Direction::Down).1,
        step_fits(c, Direction::Left) ==> step_cell(c, Direction::Left) == ((c.0 - 1) as i32, c.1)
            && c.0 - 1 == step_cell(c, Direction::Left).0,
        step_fits(c, Direction::Right) ==> step_cell(c, Direction::Right) == ((c.0 + 1) as i32, c.1)
            && c.0 + 1 == step_cell(c, Direction::Right).0,
        opposite(Direction::Up) == Direction::Down,
        opposite(Direction::Down) == Direction::Up,
        opposite(Direction::Left) == Direction::Right,
        opposite(Direction::Right) == Direction::Left,
{
}

/// Whether two cells share a side.
pub open spec fn adjacent(a: Cell, b: Cell) -> bool {
    ||| (a.0 == b.0 && (a.1 == b.1 + 1 || b.1 == a.1 + 1))
    ||| (a.1 == b.1 && (a.0 == b.0 + 1 || b.0 == a.0 + 1))
}

/// Whether each segment of `body` shares a side with the next one.
pub open spec fn connected(body: Seq<Cell>) -> bool {
    forall|i: int| 0 <= i < body.len() - 1 ==> #[trigger] adjacent(body[i], body[i + 1])
}

/// The cell one move from `c` in `d`.
pub fn step(c: Cell, d: Direction) -> (r: Cell)
    requires
        step_fits(c, d),
    ensures
        r == step_cell(c, d),
{
    match d {
        Direction::Left => (c.0 - 1, c.1),
        Direction::Right => (c.0 + 1, c.1),
        Direction::Up => (c.0, c.1 - 1),
        Direction::Down => (c.0, c.1 + 1),
    }
}

/// Whether `b` points the other way from `a`.
pub fn is_opposite(a: Direction, b: Direction) -> (r: bool)
    ensures
        r == (b == opposite(a)),
{
    match (a, b) {
        (Direction::Up, Direction::Down) => true,
        (Direction::Down, Direction::Up) => true,
        (Direction::Left, Direction::Right) => true,
        (Direction::Right, Direction::Left) => true,
        _ => false,
    }
}

impl Direction {
    /// The direction that an output of the controller stands for:
    /// 0 up, 1 down, 2 left, anything else right.
    pub fn from_output_index(idx: usize) -> (r: Direction)
        ensures
            r == (if idx == 0 {
                Direction::Up
            } else if idx == 1 {
                Direction::Down
            } else if idx == 2 {
                Direction::Left
            } else {
                Direction::Right
            }),
    {
        match idx {
            0 => Direction::Up,
            1 => Direction::Down,
            2 => Direction::Left,
            _ => Direction::Right,
        }
    }
}

/// The snake: its segments from head (`body[0]`) to tail, where it is heading,
/// the apples it has eaten, whether a turn was already taken since the last
/// move, how many moves it has made, and the controller that steers it.
pub struct Snake<B> {
    pub body: Vec<Cell>,
    pub dir: Direction,
    pub score: i32,
    pub dir_locked: bool,
    pub lifetime: u32,
    pub brain: B,
}

impl<B> Snake<B> {
    /// The head of the snake.
    pub open spec fn head(&self) -> Cell {
        self.body@[0]
    }

    /// Whether the next move lands the head on `apple`.
    pub open spec fn eats_next(&self, apple: Cell) -> bool {
        step_cell(self.head(), self.dir) == apple
    }

    /// Whether the next move can be made without leaving the machine's
    /// integers: the body is not empty, the move counter and (if the apple is
    /// eaten) the score can grow, and the new head's coordinates fit.
    pub open spec fn can_move(&self, apple: Cell) -> bool {
        &&& self.body@.len() > 0
        &&& self.lifetime < u32::MAX
        &&& step_fits(self.head(), self.dir)
        &&& self.eats_next(apple) ==> self.score < i32::MAX
    }

    /// Moves the snake one cell in its direction. The head advances; the tail
    /// follows unless the new head lands on `apple_pos`, in which case the
    /// snake grows by one cell and scores. Returns whether the apple was eaten.
    pub fn update(&mut self, apple_pos: Cell) -> (ate: bool)
        requires
            old(self).can_move(apple_pos),
        ensures
            ate == old(self).eats_next(apple_pos),
            final(self).body@ == next_body(old(self).body@, old(self).dir, apple_pos),
            final(self).body@.len() == old(self).body@.len() + (if ate { 1int } else { 0int }),
            final(self).score == old(self).score + (if ate { 1int } else { 0int }),
            final(self).lifetime == old(self).lifetime + 1,
            !final(self).dir_locked,
            final(self).dir == old(self).dir,
            final(self).brain == old(self).brain,
            final(self).body@.drop_first() == old(self).body@.take(final(self).body@.len() - 1),
            connected(old(self).body@) ==> connected(final(self).body@),
    {
        proof {
            if connected(old(self).body@) {
                lemma_move_keeps_body_connected(old(self).body@, old(self).dir, apple_pos);
            }
        }
        self.lifetime = self.lifetime + 1;
        self.dir_locked = false;
        let new_head = step(self.body[0], self.dir);
        let ghost before = self.body@;
        self.body.insert(0, new_head);
        assert(self.body@ == seq![new_head] + before);
        if apple_pos.0 == new_head.0 && apple_pos.1 == new_head.1 {
            self.score = self.score + 1;
            return true;
        }
        self.body.pop();
        assert(self.body@ == seq![new_head] + before.drop_last());
        false
    }
}

/// A move keeps the body in one piece: if each segment touched the next
/// before the move, the same holds after it, whether or not the apple was
/// eaten.
pub proof fn lemma_move_keeps_body_connected(body: Seq<Cell>, d: Direction, apple: Cell)
    requires
        body.len() > 0,
        step_fits(body[0], d),
        connected(body),
    ensures
        connected(next_body(body, d, apple)),
{
    let nb = next_body(body, d, apple);
    assert forall|i: int| 0 <= i < nb.len() - 1 implies #[trigger] adjacent(nb[i], nb[i + 1]) by {
        if i > 0 {
            assert(nb[i] == body[i - 1] && nb[i + 1] == body[i]);
            assert(adjacent(body[i - 1], body[i - 1 + 1]));
        }
    }
}

} // verus!
