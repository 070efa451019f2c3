use vstd::prelude::*;

verus! {

broadcast use vstd::seq_lib::group_seq_properties;

/// Number of cells along each side of the square board.
pub const GRID_SIZE: i32 = 20;

/// A cell of the board, as (column, row); (0, 0) is the top-left corner.
pub type Cell = (i32, i32);

/// Whether a cell lies on the board.
pub open spec fn in_grid(c: Cell) -> bool {
    0 <= c.0 < GRID_SIZE && 0 <= c.1 < GRID_SIZE
}

/// The cell with row-major index `i` (column `i / 20`, row `i % 20`).
pub open spec fn cell_at(i: int) -> Cell {
    ((i / GRID_SIZE as int) as i32, (i % GRID_SIZE as int) as i32)
}

/// Every cell of the board, column by column, top to bottom.
pub open spec fn grid_cells() -> Seq<Cell> {
    Seq::new((GRID_SIZE * GRID_SIZE) as nat, |i: int| cell_at(i))
}

/// The predicate "not occupied by `body`".
pub open spec fn is_free_of(body: Seq<Cell>) -> spec_fn(Cell) -> bool {
    |c: Cell| !body.contains(c)
}

/// The cells of the board not occupied by `body`, in the order of `grid_cells`.
pub open spec fn free_cells_of(body: Seq<Cell>) -> Seq<Cell> {
    grid_cells().filter(is_free_of(body))
}

/// Whether some cell of the board is not occupied by `body`.
pub open spec fn has_free_cell(body: Seq<Cell>) -> bool {
    exists|c: Cell| in_grid(c) && !body.contains(c)
}

/// Whether `c` lies on the board.
pub fn is_in_grid(c: Cell) -> (r: bool)
    ensures
        r == in_grid(c),
{
    0 <= c.0 && c.0 < GRID_SIZE && 0 <= c.1 && c.1 < GRID_SIZE
}

/// Whether `c` is one of the cells of `list`.
pub fn contains_cell(list: &Vec<Cell>, c: Cell) -> (r: bool)
    ensures
        r == list@.contains(c),
{
    let n = list.len();
    for i in 0..n
        invariant
            n == list@.len(),
            forall|j: int| 0 <= j < i ==> list@[j] != c,
    {
        let (x, y) = list[i];
        if x == c.0 && y == c.1 {
            assert(list@[i as int] == c);
            return true;
        }
    }
    false
}

proof fn lemma_cell_at_in_grid(i: int)
    requires
        0 <= i < GRID_SIZE * GRID_SIZE,
    ensures
        in_grid(cell_at(i)),
{
    assert(0 <= i / 20 < 20 && 0 <= i % 20 < 20) by (nonlinear_arith)
        requires
            0 <= i < 400,
    ;
}

proof fn lemma_grid_cells_cover(c: Cell)
    requires
        in_grid(c),
    ensures
        grid_cells().contains(c),
{
    let i: int = c.0 * 20 + c.1;
    assert(i / 20 == c.0 && i % 20 == c.1 && 0 <= i < 400) by (nonlinear_arith)
        requires
            i == c.0 * 20 + c.1,
            0 <= c.0 < 20,
            0 <= c.1 < 20,
    ;
    assert(grid_cells()[i] == c);
}

/// A board cell is among the free cells of `body` exactly when `body` does
/// not occupy it.
pub proof fn lemma_free_cells_members(body: Seq<Cell>, c: Cell)
    ensures
        free_cells_of(body).contains(c) <==> (in_grid(c) && !body.contains(c)),
{
    broadcast use vstd::seq_lib::group_filter_ensures;

    if free_cells_of(body).contains(c) {
        grid_cells().lemma_filter_contains_rev(is_free_of(body), c);
        let k = choose|k: int| 0 <= k < grid_cells().len() && grid_cells()[k] == c;
        lemma_cell_at_in_grid(k);
        let j = choose|j: int|
            0 <= j < free_cells_of(body).len() && free_cells_of(body)[j] == c;
        assert(is_free_of(body)(free_cells_of(body)[j]));
    }
    if in_grid(c) && !body.contains(c) {
        lemma_grid_cells_cover(c);
        let k = choose|k: int| 0 <= k < grid_cells().len() && grid_cells()[k] == c;
        assert(is_free_of(body)(grid_cells()[k]));
    }
}

/// `body` leaves room on the board exactly when its list of free cells is
/// not empty.
pub proof fn lemma_free_cells_nonempty(body: Seq<Cell>)
    ensures
        has_free_cell(body) <==> free_cells_of(body).len() > 0,
{
    if has_free_cell(body) {
        let c = choose|c: Cell| in_grid(c) && !body.contains(c);
        lemma_free_cells_members(body, c);
    }
    if free_cells_of(body).len() > 0 {
        let c = free_cells_of(body)[0];
        lemma_free_cells_members(body, c);
    }
}

/// The cells of the board that `body` does not occupy, column by column.
pub fn free_cells(body: &Vec<Cell>) -> (r: Vec<Cell>)
    ensures
        r@ == free_cells_of(body@),
{
    let mut r: Vec<Cell> = Vec::new();
    let total: i32 = GRID_SIZE * GRID_SIZE;
    let mut i: i32 = 0;
    while i < total
        invariant
            0 <= i <= total,
            total == 400,
            r@ == grid_cells().take(i as int).filter(is_free_of(body@)),
        decreases total - i,
    {
        let c: Cell = (i / GRID_SIZE, i % GRID_SIZE);
        assert(c == cell_at(i as int));
        assert(grid_cells().take(i + 1) == grid_cells().take(i as int).push(c));
        proof {
            grid_cells().take(i as int).lemma_filter_push(c, is_free_of(body@));
        }
        if !contains_cell(body, c) {
            r.push(c);
        }
        i = i + 1;
    }
    assert(grid_cells().take(400) == grid_cells());
    r
}

proof fn lemma_grid_cells_distinct()
    ensures
        grid_cells().no_duplicates(),
{
    assert forall|i: int, j: int|
        0 <= i < grid_cells().len() && 0 <= j < grid_cells().len() && i != j implies grid_cells()[i]
        != grid_cells()[j] by {
        lemma_cell_at_in_grid(i);
        lemma_cell_at_in_grid(j);
        if grid_cells()[i] == grid_cells()[j] {
            assert(i / 20 == j / 20 && i % 20 == j % 20);
            assert(i == j) by (nonlinear_arith)
                requires
                    0 <= i,
                    0 <= j,
                    i / 20 == j / 20,
                    i % 20 == j % 20,
            ;
        }
    }
}

/// A body with fewer segments than the board has cells always leaves a cell
/// free, so the apple can always be placed.
pub proof fn lemma_short_body_leaves_room(body: Seq<Cell>)
    requires
        body.len() < GRID_SIZE * GRID_SIZE,
    ensures
        has_free_cell(body),
{
    if !has_free_cell(body) {
        let grid_set = grid_cells().to_set();
        let body_set = body.to_set();
        lemma_grid_cells_distinct();
        grid_cells().unique_seq_to_set();
        body.lemma_cardinality_of_set();
        assert forall|c: Cell| grid_set.contains(c) implies body_set.contains(c) by {
            let k = choose|k: int| 0 <= k < grid_cells().len() && grid_cells()[k] == c;
            lemma_cell_at_in_grid(k);
        }
        vstd::set_lib::lemma_len_subset(grid_set, body_set);
    }
}

/// Whether `body` leaves some cell of the board unoccupied.
pub fn board_has_room(body: &Vec<Cell>) -> (r: bool)
    ensures
        r == has_free_cell(body@),
{
    let free = free_cells(body);
    proof {
        lemma_free_cells_nonempty(body@);
    }
    free.len() > 0
}

} // verus!
