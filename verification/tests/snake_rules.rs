use snake_ai::apple::Apple;
use snake_ai::game::{collides_body, create_game, Button, Game};
use snake_ai::grid::{board_has_room, contains_cell, free_cells, is_in_grid, Cell, GRID_SIZE};
use snake_ai::snake::{is_opposite, step, Direction, Snake};

fn snake(body: &[Cell], dir: Direction) -> Snake<u8> {
    Snake { body: body.to_vec(), dir, score: 0, dir_locked: false, lifetime: 0, brain: 7 }
}

fn game(body: &[Cell], dir: Direction, apple: Cell) -> Game<u8> {
    Game { snake: snake(body, dir), apple: Apple { pos_x: apple.0, pos_y: apple.1 }, is_game_over: false }
}

fn all_cells() -> Vec<Cell> {
    let mut v = Vec::new();
    for x in 0..GRID_SIZE {
        for y in 0..GRID_SIZE {
            v.push((x, y));
        }
    }
    v
}

#[test]
fn step_moves_one_cell_each_way() {
    assert_eq!(step((5, 5), Direction::Left), (4, 5));
    assert_eq!(step((5, 5), Direction::Right), (6, 5));
    assert_eq!(step((5, 5), Direction::Up), (5, 4));
    assert_eq!(step((5, 5), Direction::Down), (5, 6));
}

#[test]
fn opposite_directions() {
    assert!(is_opposite(Direction::Up, Direction::Down));
    assert!(is_opposite(Direction::Left, Direction::Right));
    assert!(!is_opposite(Direction::Up, Direction::Left));
    assert!(!is_opposite(Direction::Up, Direction::Up));
}

#[test]
fn output_index_maps_to_direction() {
    assert_eq!(Direction::from_output_index(0), Direction::Up);
    assert_eq!(Direction::from_output_index(1), Direction::Down);
    assert_eq!(Direction::from_output_index(2), Direction::Left);
    assert_eq!(Direction::from_output_index(3), Direction::Right);
    assert_eq!(Direction::from_output_index(9), Direction::Right);
}

#[test]
fn snake_moves_without_growing() {
    let mut s = snake(&[(5, 5), (4, 5), (3, 5)], Direction::Right);
    s.dir_locked = true;
    let ate = s.update((10, 10));
    assert!(!ate);
    assert_eq!(s.body, vec![(6, 5), (5, 5), (4, 5)]);
    assert_eq!(s.score, 0);
    assert_eq!(s.lifetime, 1);
    assert!(!s.dir_locked);
    assert_eq!(s.dir, Direction::Right);
}

#[test]
fn snake_grows_when_it_eats() {
    let mut s = snake(&[(5, 5), (5, 6), (5, 7)], Direction::Up);
    let ate = s.update((5, 4));
    assert!(ate);
    assert_eq!(s.body, vec![(5, 4), (5, 5), (5, 6), (5, 7)]);
    assert_eq!(s.score, 1);
    assert_eq!(s.lifetime, 1);
}

#[test]
fn body_stays_connected_over_many_moves() {
    let mut s = snake(&[(5, 5), (4, 5), (3, 5)], Direction::Right);
    let dirs = [Direction::Right, Direction::Down, Direction::Down, Direction::Left, Direction::Up];
    for (i, d) in dirs.iter().enumerate() {
        s.dir = *d;
        s.update(if i == 2 { (6, 7) } else { (0, 0) });
        for w in s.body.windows(2) {
            let dx = (w[0].0 - w[1].0).abs();
            let dy = (w[0].1 - w[1].1).abs();
            assert_eq!(dx + dy, 1);
        }
    }
    assert_eq!(s.body.len(), 4);
}

#[test]
fn collisions_with_walls() {
    assert!(collides_body(&vec![(-1, 5), (0, 5)]));
    assert!(collides_body(&vec![(20, 5), (19, 5)]));
    assert!(collides_body(&vec![(5, -1)]));
    assert!(collides_body(&vec![(5, 20)]));
    assert!(!collides_body(&vec![(0, 0)]));
    assert!(!collides_body(&vec![(19, 19)]));
}

#[test]
fn collisions_with_body_only_when_longer_than_three() {
    assert!(collides_body(&vec![(5, 5), (6, 5), (6, 6), (5, 5)]));
    assert!(!collides_body(&vec![(5, 5), (6, 5), (5, 5)]));
    assert!(!collides_body(&vec![(5, 5), (6, 5), (6, 6), (5, 6)]));
}

#[test]
fn check_collision_changes_nothing() {
    let mut g = game(&[(20, 5), (19, 5), (18, 5)], Direction::Right, (1, 1));
    assert!(g.check_collision());
    assert!(!g.is_game_over);
    assert_eq!(g.snake.body, vec![(20, 5), (19, 5), (18, 5)]);
}

#[test]
fn grid_membership() {
    assert!(is_in_grid((0, 0)));
    assert!(is_in_grid((19, 19)));
    assert!(!is_in_grid((20, 0)));
    assert!(!is_in_grid((0, -1)));
    assert!(contains_cell(&vec![(1, 2), (3, 4)], (3, 4)));
    assert!(!contains_cell(&vec![(1, 2), (3, 4)], (4, 3)));
}

#[test]
fn free_cells_of_empty_board() {
    let free = free_cells(&Vec::new());
    assert_eq!(free.len(), 400);
    assert_eq!(free[0], (0, 0));
    assert_eq!(free[1], (0, 1));
    assert_eq!(free[20], (1, 0));
    assert_eq!(free[399], (19, 19));
}

#[test]
fn free_cells_skip_the_body() {
    let body = vec![(0, 0), (0, 1), (5, 5)];
    let free = free_cells(&body);
    assert_eq!(free.len(), 397);
    assert_eq!(free[0], (0, 2));
    assert!(!free.contains(&(5, 5)));
}

#[test]
fn board_room() {
    assert!(board_has_room(&vec![(0, 0)]));
    let full = all_cells();
    assert!(!board_has_room(&full));
    let mut almost = all_cells();
    almost.retain(|c| *c != (7, 3));
    assert!(board_has_room(&almost));
}

#[test]
fn apple_lands_on_the_only_free_cell() {
    let mut almost = all_cells();
    almost.retain(|c| *c != (7, 3));
    let mut apple = Apple { pos_x: 0, pos_y: 0 };
    for _ in 0..20 {
        apple.update_chord(&almost);
        assert_eq!((apple.pos_x, apple.pos_y), (7, 3));
    }
}

#[test]
fn apple_never_lands_on_the_snake() {
    let body = vec![(0, 0), (1, 0), (2, 0), (3, 0), (3, 1)];
    let mut apple = Apple { pos_x: 0, pos_y: 0 };
    for _ in 0..200 {
        apple.update_chord(&body);
        let c = (apple.pos_x, apple.pos_y);
        assert!(is_in_grid(c));
        assert!(!body.contains(&c));
    }
}

#[test]
fn apple_place_takes_the_drawn_cell() {
    let mut apple = Apple { pos_x: 0, pos_y: 0 };
    apple.place(&vec![(1, 1), (8, 9)], 1);
    assert_eq!((apple.pos_x, apple.pos_y), (8, 9));
}

#[test]
fn tail_follows_the_old_body() {
    let mut s = snake(&[(5, 5), (4, 5), (3, 5), (3, 6)], Direction::Up);
    s.update((9, 9));
    assert_eq!(&s.body[1..], &[(5, 5), (4, 5), (3, 5)]);
}
