use vstd::prelude::*;
use crate::grid::{
    Cell, GRID_SIZE, in_grid, has_free_cell, free_cells_of, board_has_room,
    lemma_short_body_leaves_room,
};
use crate::snake::{
    Direction, Snake, opposite, step_cell, step_fits, next_body, step, is_opposite, connected,
    adjacent,
};
use crate::apple::Apple;
use crate::random::random_in;

verus! {

broadcast use vstd::seq_lib::group_seq_properties;

/// The keys the game reacts to.
#[derive(Clone, Copy, PartialEq, Eq, Structural, Debug)]
pub enum Button {
    Up,
    Down,
    Left,
    Right,
    G,
    Other,
}

/// Whether the head is off the board or, once the snake is longer than three
/// cells, lies on another segment.
pub open spec fn collides(body: Seq<Cell>) -> bool {
    ||| !in_grid(body[0])
    ||| (body.len() > 3 && exists|i: int| 1 <= i < body.len() && #[trigger] body[i] == body[0])
}

/// The turn that `btn` asks for while heading `last`: an arrow key turns the
/// snake that way unless it would reverse it; any other key asks for nothing.
pub open spec fn requested_turn(btn: Button, last: Direction) -> Option<Direction> {
    match btn {
        Button::Up => if last != Direction::Down { Some(Direction::Up) } else { None },
        Button::Down => if last != Direction::Up { Some(Direction::Down) } else { None },
        Button::Left => if last != Direction::Right { Some(Direction::Left) } else { None },
        Button::Right => if last != Direction::Left { Some(Direction::Right) } else { None },
        _ => None,
    }
}

/// The direction taken when the controller suggests `suggested` while the
/// snake heads `current`: the suggestion, unless it would reverse the snake.
pub open spec fn steer(current: Direction, suggested: Direction) -> Direction {
    if suggested == opposite(current) {
        current
    } else {
        suggested
    }
}

/// A collision means the head is off the board, or the snake is longer than
/// three cells and its head lies on any later segment; nothing else is one.
pub proof fn lemma_collision_rule(body: Seq<Cell>)
    requires
        body.len() > 0,
    ensures
        !(0 <= body[0].0 < GRID_SIZE && 0 <= body[0].1 < GRID_SIZE) ==> collides(body),
        forall|i: int|
            1 <= i < body.len() && body.len() > 3 && #[trigger] body[i] == body[0] ==> collides(body),
        collides(body) ==> !(0 <= body[0].0 < GRID_SIZE && 0 <= body[0].1 < GRID_SIZE) || (
        body.len() > 3 && exists|i: int| 1 <= i < body.len() && #[trigger] body[i] == body[0]),
{
}

/// The controller's suggestion is refused exactly when it is the reverse of
/// the current direction (up against down, left against right); otherwise
/// it is taken. Either way the result is the suggestion or the current
/// direction.
pub proof fn lemma_steer_rule(current: Direction, suggested: Direction)
    ensures
        ((current == Direction::Up && suggested == Direction::Down) || (current == Direction::Down
            && suggested == Direction::Up) || (current == Direction::Left && suggested
            == Direction::Right) || (current == Direction::Right && suggested == Direction::Left))
            ==> steer(current, suggested) == current,
        !((current == Direction::Up && suggested == Direction::Down) || (current == Direction::Down
            && suggested == Direction::Up) || (current == Direction::Left && suggested
            == Direction::Right) || (current == Direction::Right && suggested == Direction::Left))
            ==> steer(current, suggested) == suggested,
{
}

/// An arrow key asks for its own direction unless the snake heads the
/// reverse way; `G` and other keys ask for no turn.
pub proof fn lemma_requested_turn_rule(last: Direction)
    ensures
        requested_turn(Button::Up, last) == (if last == Direction::Down { None } else { Some(Direction::Up) }),
        requested_turn(Button::Down, last) == (if last == Direction::Up { None } else { Some(Direction::Down) }),
        requested_turn(Button::Left, last) == (if last == Direction::Right { None } else { Some(Direction::Left) }),
        requested_turn(Button::Right, last) == (if last == Direction::Left { None } else { Some(Direction::Right) }),
        requested_turn(Button::G, last) is None,
        requested_turn(Button::Other, last) is None,
{
}

/// The body the snake starts with after a restart: head at (2, 0), heading right.
pub open spec fn restart_body() -> Seq<Cell> {
    seq![(2i32, 0i32), (1i32, 0i32), (0i32, 0i32)]
}

/// The snake a restart puts on the board is in one piece and not colliding.
pub proof fn lemma_restart_body_sound()
    ensures
        connected(restart_body()),
        !collides(restart_body()),
{
    assert(adjacent(restart_body()[0], restart_body()[1]));
    assert(adjacent(restart_body()[1], restart_body()[2]));
}

/// Whether `body` collides (see `collides`).
pub fn collides_body(body: &Vec<Cell>) -> (r: bool)
    requires
        body@.len() > 0,
    ensures
        r == collides(body@),
        !(0 <= body@[0].0 < GRID_SIZE && 0 <= body@[0].1 < GRID_SIZE) ==> r,
        forall|i: int| 1 <= i < body@.len() && body@.len() > 3 && #[trigger] body@[i] == body@[0] ==> r,
        r ==> !(0 <= body@[0].0 < GRID_SIZE && 0 <= body@[0].1 < GRID_SIZE) || (body@.len() > 3
            && exists|i: int| 1 <= i < body@.len() && #[trigger] body@[i] == body@[0]),
{
    proof {
        lemma_collision_rule(body@);
    }
    let head = body[0];
    if head.0 < 0 || head.0 >= GRID_SIZE || head.1 < 0 || head.1 >= GRID_SIZE {
        return true;
    }
    let body_len = body.len();
    if body_len > 3 {
        for i in 1..body_len
            invariant
                body_len == body@.len(),
                body_len > 3,
                head == body@[0],
                forall|j: int| 1 <= j < i ==> body@[j] != head,
        {
            let (x, y) = body[i];
            if x == head.0 && y == head.1 {
                assert(body@[i as int] == body@[0]);
                return true;
            }
        }
    }
    false
}

/// The body after one move in `d` towards `apple`, built afresh.
fn moved_body(body: &Vec<Cell>, d: Direction, apple: Cell) -> (r: Vec<Cell>)
    requires
        body@.len() > 0,
        step_fits(body@[0], d),
    ensures
        r@ == next_body(body@, d, apple),
{
    let h = step(body[0], d);
    let ate = h.0 == apple.0 && h.1 == apple.1;
    let keep = if ate { body.len() } else { body.len() - 1 };
    let mut r: Vec<Cell> = Vec::new();
    r.push(h);
    for i in 0..keep
        invariant
            keep <= body@.len(),
            r@ == seq![h] + body@.take(i as int),
    {
        r.push(body[i]);
        assert(body@.take(i + 1) == body@.take(i as int).push(body@[i as int]));
    }
    assert(body@.take(keep as int) == if ate { body@ } else { body@.drop_last() });
    r
}

/// One round of play: the snake, the apple, and whether the round is over.
pub struct Game<B> {
    pub snake: Snake<B>,
    pub apple: Apple,
    pub is_game_over: bool,
}

impl<B> Game<B> {
    /// Whether `update(apple_pos)` can run: the snake has a head, and if it is
    /// to move, the move fits the machine's integers and, should it eat, the
    /// apple has somewhere to go.
    pub open spec fn can_update(&self, apple_pos: Cell) -> bool {
        &&& self.snake.body@.len() > 0
        &&& (!collides(self.snake.body@) && !self.is_game_over) ==> {
            &&& self.snake.can_move(apple_pos)
            &&& self.snake.eats_next(apple_pos) ==> has_free_cell(
                next_body(self.snake.body@, self.snake.dir, apple_pos),
            )
        }
    }

    /// Whether `update_ai(suggested)` can run: a finished round always can;
    /// in a running one the snake has a head, the move fits the machine's
    /// integers, an eaten apple has somewhere to go, and the move budget can
    /// be computed.
    pub open spec fn can_update_ai(&self, suggested: Direction) -> bool {
        !self.is_game_over ==> {
            let d = steer(self.snake.dir, suggested);
            let head = self.snake.body@[0];
            let ate = step_cell(head, d) == self.apple.cell();
            let nb = next_body(self.snake.body@, d, self.apple.cell());
            let score = self.snake.score + if ate { 1int } else { 0int };
            &&& self.snake.body@.len() > 0
            &&& self.snake.lifetime < u32::MAX
            &&& step_fits(head, d)
            &&& ate ==> self.snake.score < i32::MAX
            &&& !collides(nb) ==> {
                &&& ate ==> has_free_cell(nb)
                &&& 0 <= score
                &&& (score + 1) * 100 <= u32::MAX
            }
        }
    }

    /// Whether the head has left the board or run into the body (see
    /// `collides`). Nothing changes.
    pub fn check_collision(&mut self) -> (r: bool)
        requires
            old(self).snake.body@.len() > 0,
        ensures
            r == collides(old(self).snake.body@),
            *final(self) == *old(self),
    {
        collides_body(&self.snake.body)
    }

    /// One tick of play by hand: a collision ends the round; otherwise, while
    /// the round goes on, the snake moves towards `apple_pos`, and if it eats
    /// the apple, the apple moves to a free cell.
    pub fn update(&mut self, apple_pos: Cell)
        requires
            old(self).can_update(apple_pos),
        ensures
            collides(old(self).snake.body@) ==> {
                &&& final(self).is_game_over
                &&& final(self).snake == old(self).snake
                &&& final(self).apple == old(self).apple
            },
            old(self).is_game_over ==> *final(self) == *old(self),
            connected(old(self).snake.body@) ==> connected(final(self).snake.body@),
            (!collides(old(self).snake.body@) && !old(self).is_game_over) ==> {
                let ate = old(self).snake.eats_next(apple_pos);
                &&& !final(self).is_game_over
                &&& final(self).snake.body@ == next_body(
                    old(self).snake.body@,
                    old(self).snake.dir,
                    apple_pos,
                )
                &&& final(self).snake.score == old(self).snake.score + if ate { 1int } else { 0int }
                &&& final(self).snake.lifetime == old(self).snake.lifetime + 1
                &&& !final(self).snake.dir_locked
                &&& final(self).snake.dir == old(self).snake.dir
                &&& final(self).snake.brain == old(self).snake.brain
                &&& ate ==> free_cells_of(final(self).snake.body@).contains(final(self).apple.cell())
                &&& !ate ==> final(self).apple == old(self).apple
            },
    {
        if self.check_collision() {
            self.is_game_over = true;
            return;
        }
        if self.is_game_over {
            return;
        }
        if self.snake.update(apple_pos) {
            self.apple.update_chord(&self.snake.body);
        }
    }

    /// Reacts to a key. `G` restarts a finished round. While the round goes on
    /// and no turn was taken since the last move, an arrow key turns the snake
    /// (never back onto itself) and locks further turns until the next move.
    pub fn pressed(&mut self, btn: &Button)
        ensures
            (*btn == Button::G && old(self).is_game_over) ==> {
                &&& final(self).snake.body@ == restart_body()
                &&& final(self).snake.dir == Direction::Right
                &&& final(self).snake.score == 0
                &&& !final(self).is_game_over
                &&& free_cells_of(restart_body()).contains(final(self).apple.cell())
                &&& final(self).snake.lifetime == old(self).snake.lifetime
                &&& final(self).snake.dir_locked == old(self).snake.dir_locked
                &&& final(self).snake.brain == old(self).snake.brain
            },
            (!(*btn == Button::G && old(self).is_game_over) && (old(self).is_game_over
                || old(self).snake.dir_locked)) ==> *final(self) == *old(self),
            (!old(self).is_game_over && !old(self).snake.dir_locked) ==> {
                let turn = requested_turn(*btn, old(self).snake.dir);
                let turned = turn is Some && turn->0 != old(self).snake.dir;
                &&& final(self).snake.dir == (if turned { turn->0 } else { old(self).snake.dir })
                &&& final(self).snake.dir_locked == turned
                &&& final(self).snake.body == old(self).snake.body
                &&& final(self).snake.score == old(self).snake.score
                &&& final(self).snake.lifetime == old(self).snake.lifetime
                &&& final(self).snake.brain == old(self).snake.brain
                &&& final(self).apple == old(self).apple
                &&& final(self).is_game_over == old(self).is_game_over
            },
            !(*btn == Button::G && old(self).is_game_over) ==> final(self).snake.dir != opposite(
                old(self).snake.dir,
            ),
            (!old(self).is_game_over && !old(self).snake.dir_locked) ==> {
                let last = old(self).snake.dir;
                &&& (*btn == Button::Up && last != Direction::Down && last != Direction::Up) ==> (
                final(self).snake.dir == Direction::Up && final(self).snake.dir_locked)
                &&& (*btn == Button::Down && last != Direction::Up && last != Direction::Down) ==> (
                final(self).snake.dir == Direction::Down && final(self).snake.dir_locked)
                &&& (*btn == Button::Left && last != Direction::Right && last != Direction::Left)
                    ==> (final(self).snake.dir == Direction::Left && final(self).snake.dir_locked)
                &&& (*btn == Button::Right && last != Direction::Left && last != Direction::Right)
                    ==> (final(self).snake.dir == Direction::Right && final(self).snake.dir_locked)
                &&& (*btn == Button::Up && (last == Direction::Down || last == Direction::Up)) ==> (
                final(self).snake.dir == last && !final(self).snake.dir_locked)
                &&& (*btn == Button::Down && (last == Direction::Up || last == Direction::Down)) ==> (
                final(self).snake.dir == last && !final(self).snake.dir_locked)
                &&& (*btn == Button::Left && (last == Direction::Right || last == Direction::Left))
                    ==> (final(self).snake.dir == last && !final(self).snake.dir_locked)
                &&& (*btn == Button::Right && (last == Direction::Left || last == Direction::Right))
                    ==> (final(self).snake.dir == last && !final(self).snake.dir_locked)
                &&& (*btn == Button::G || *btn == Button::Other) ==> *final(self) == *old(self)
            },
    {
        proof {
            lemma_requested_turn_rule(old(self).snake.dir);
        }
        if let Button::G = btn {
            if self.is_game_over {
                self.restart();
                return;
            }
        }
        if self.is_game_over || self.snake.dir_locked {
            return;
        }
        let last_direction = self.snake.dir;
        let new_dir = match btn {
            Button::Up => if last_direction != Direction::Down { Some(Direction::Up) } else { None },
            Button::Down => if last_direction != Direction::Up { Some(Direction::Down) } else { None },
            Button::Left => if last_direction != Direction::Right { Some(Direction::Left) } else { None },
            Button::Right => if last_direction != Direction::Left { Some(Direction::Right) } else { None },
            _ => None,
        };
        if let Some(dir) = new_dir {
            if dir != last_direction {
                self.snake.dir = dir;
                self.snake.dir_locked = true;
            }
        }
    }

    /// Puts the snake back at the top-left corner, heading right with no
    /// score, and the apple on a free cell.
    fn restart(&mut self)
        ensures
            final(self).snake.body@ == restart_body(),
            final(self).snake.dir == Direction::Right,
            final(self).snake.score == 0,
            !final(self).is_game_over,
            free_cells_of(restart_body()).contains(final(self).apple.cell()),
            final(self).snake.lifetime == old(self).snake.lifetime,
            final(self).snake.dir_locked == old(self).snake.dir_locked,
            final(self).snake.brain == old(self).snake.brain,
    {
        let mut body: Vec<Cell> = Vec::new();
        body.push((2, 0));
        body.push((1, 0));
        body.push((0, 0));
        assert(body@ == restart_body());
        self.snake.body = body;
        self.snake.dir = Direction::Right;
        self.snake.score = 0;
        self.is_game_over = false;
        proof {
            lemma_short_body_leaves_room(self.snake.body@);
        }
        self.apple.update_chord(&self.snake.body);
    }

    /// One tick of play by the controller, whose choice is `suggested`: the
    /// snake turns that way unless that would reverse it, then moves; running
    /// into a wall or itself ends the round; an eaten apple moves to a free
    /// cell; and the round ends once the snake has made more than
    /// `(score + 1) * 100` moves.
    pub fn update_ai(&mut self, suggested: Direction)
        requires
            old(self).can_update_ai(suggested),
        ensures
            old(self).is_game_over ==> *final(self) == *old(self),
            !old(self).is_game_over ==> {
                let d = steer(old(self).snake.dir, suggested);
                let apple = old(self).apple.cell();
                let ate = step_cell(old(self).snake.body@[0], d) == apple;
                let nb = next_body(old(self).snake.body@, d, apple);
                &&& final(self).snake.dir == d
                &&& final(self).snake.body@ == nb
                &&& final(self).snake.score == old(self).snake.score + if ate { 1int } else { 0int }
                &&& final(self).snake.lifetime == old(self).snake.lifetime + 1
                &&& !final(self).snake.dir_locked
                &&& final(self).snake.brain == old(self).snake.brain
                &&& collides(nb) ==> final(self).is_game_over && final(self).apple == old(self).apple
                &&& !collides(nb) ==> {
                    &&& ate ==> free_cells_of(nb).contains(final(self).apple.cell())
                    &&& !ate ==> final(self).apple == old(self).apple
                    &&& final(self).is_game_over == (final(self).snake.lifetime > (
                    final(self).snake.score + 1) * 100)
                }
            },
            final(self).snake.dir != opposite(old(self).snake.dir),
            connected(old(self).snake.body@) ==> connected(final(self).snake.body@),
            !old(self).is_game_over ==> {
                let c = old(self).snake.dir;
                let reverse = (c == Direction::Up && suggested == Direction::Down) || (c
                    == Direction::Down && suggested == Direction::Up) || (c == Direction::Left
                    && suggested == Direction::Right) || (c == Direction::Right && suggested
                    == Direction::Left);
                &&& !reverse ==> final(self).snake.dir == suggested
                &&& reverse ==> final(self).snake.dir == c
            },
    {
        if self.is_game_over {
            return;
        }
        if !is_opposite(self.snake.dir, suggested) {
            self.snake.dir = suggested;
        }
        let ate_apple = self.snake.update((self.apple.pos_x, self.apple.pos_y));
        if self.check_collision() {
            self.is_game_over = true;
            return;
        }
        if ate_apple {
            self.apple.update_chord(&self.snake.body);
        }
        if self.snake.lifetime > (self.snake.score as u32 + 1) * 100 {
            self.is_game_over = true;
        }
    }

    /// Whether `update_ai(suggested)` can run (see `can_update_ai`).
    pub fn ai_step_is_defined(&self, suggested: Direction) -> (r: bool)
        ensures
            r == self.can_update_ai(suggested),
    {
        if self.is_game_over {
            return true;
        }
        if self.snake.body.len() == 0 {
            return false;
        }
        let d = if is_opposite(self.snake.dir, suggested) { self.snake.dir } else { suggested };
        let head = self.snake.body[0];
        if self.snake.lifetime == u32::MAX {
            return false;
        }
        let fits = match d {
            Direction::Left => head.0 > i32::MIN,
            Direction::Right => head.0 < i32::MAX,
            Direction::Up => head.1 > i32::MIN,
            Direction::Down => head.1 < i32::MAX,
        };
        if !fits {
            return false;
        }
        let apple: Cell = (self.apple.pos_x, self.apple.pos_y);
        let h = step(head, d);
        let ate = h.0 == apple.0 && h.1 == apple.1;
        if ate && self.snake.score == i32::MAX {
            return false;
        }
        let nb = moved_body(&self.snake.body, d, apple);
        if collides_body(&nb) {
            return true;
        }
        if ate && !board_has_room(&nb) {
            return false;
        }
        let score: i64 = self.snake.score as i64 + if ate { 1i64 } else { 0i64 };
        0 <= score && (score + 1) * 100 <= u32::MAX as i64
    }
}

/// The direction a new round starts in, for the draw `dir_draw`:
/// 0 up, 1 down, 2 left, anything else right.
pub open spec fn initial_dir(dir_draw: i32) -> Direction {
    if dir_draw == 0 {
        Direction::Up
    } else if dir_draw == 1 {
        Direction::Down
    } else if dir_draw == 2 {
        Direction::Left
    } else {
        Direction::Right
    }
}

/// The three-cell body of a new round: the head, then two segments trailing
/// straight behind it, against the direction `d`.
pub open spec fn initial_body(head: Cell, d: Direction) -> Seq<Cell> {
    let second = step_cell(head, opposite(d));
    seq![head, second, step_cell(second, opposite(d))]
}

/// The snake a new round starts with, for the drawn head cell
/// (`head_x`, `head_y`) and direction draw `dir_draw`: its body and direction.
pub fn initial_layout(head_x: i32, head_y: i32, dir_draw: i32) -> (r: (Vec<Cell>, Direction))
    requires
        5 <= head_x < 15,
        5 <= head_y < 15,
    ensures
        r.1 == initial_dir(dir_draw),
        r.0@ == initial_body((head_x, head_y), r.1),
        connected(r.0@),
        !collides(r.0@),
{
    let random_dir = match dir_draw {
        0 => Direction::Up,
        1 => Direction::Down,
        2 => Direction::Left,
        _ => Direction::Right,
    };
    let mut body: Vec<Cell> = Vec::new();
    body.push((head_x, head_y));
    match random_dir {
        Direction::Up => {
            body.push((head_x, head_y + 1));
            body.push((head_x, head_y + 2));
        },
        Direction::Down => {
            body.push((head_x, head_y - 1));
            body.push((head_x, head_y - 2));
        },
        Direction::Left => {
            body.push((head_x + 1, head_y));
            body.push((head_x + 2, head_y));
        },
        Direction::Right => {
            body.push((head_x - 1, head_y));
            body.push((head_x - 2, head_y));
        },
    }
    proof {
        assert(body@ == initial_body((head_x, head_y), random_dir));
        assert(adjacent(body@[0], body@[1]) && adjacent(body@[1], body@[2]));
    }
    (body, random_dir)
}

/// Starts a round with `brain` steering: the head on a random cell of the
/// middle of the board (columns and rows 5 to 14), a random direction, the
/// body laid out by `initial_layout`, and the apple on a free cell.
pub fn create_game<B>(brain: B) -> (g: Game<B>)
    ensures
        5 <= g.snake.body@[0].0 < 15,
        5 <= g.snake.body@[0].1 < 15,
        g.snake.body@ == initial_body(g.snake.body@[0], g.snake.dir),
        g.snake.score == 0,
        g.snake.lifetime == 0,
        !g.snake.dir_locked,
        g.snake.brain == brain,
        !g.is_game_over,
        free_cells_of(g.snake.body@).contains(g.apple.cell()),
        connected(g.snake.body@),
        !collides(g.snake.body@),
{
    let head_x = random_in(5, 15);
    let head_y = random_in(5, 15);
    let dir_draw = random_in(0, 4);
    let (body, random_dir) = initial_layout(head_x, head_y, dir_draw);
    let mut apple = Apple { pos_x: 0, pos_y: 0 };
    proof {
        lemma_short_body_leaves_room(body@);
    }
    apple.update_chord(&body);
    Game {
        snake: Snake {
            body,
            dir: random_dir,
            score: 0,
            lifetime: 0,
            dir_locked: false,
            brain,
        },
        apple,
        is_game_over: false,
    }
}

} // verus!
