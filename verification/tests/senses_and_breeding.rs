use snake_ai::evolution::{breeding_plan, plan_from_draws, ELITE_COUNT, PARENT_POOL};
use snake_ai::senses::{is_unsafe, sense};

#[test]
fn unsafe_cells() {
    let body = vec![(5, 5), (5, 6)];
    assert!(is_unsafe((-1, 3), &body));
    assert!(is_unsafe((3, 20), &body));
    assert!(is_unsafe((5, 6), &body));
    assert!(!is_unsafe((6, 6), &body));
}

#[test]
fn senses_of_a_head() {
    let body = vec![(5, 5), (4, 5), (4, 6)];
    let s = sense((5, 5), (2, 9), &body);
    assert!(!s.apple_above);
    assert!(s.apple_left);
    assert!(!s.danger_up);
    assert!(!s.danger_down);
    assert!(s.danger_left);
    assert!(!s.danger_right);
}

#[test]
fn senses_at_a_corner() {
    let s = sense((0, 0), (3, 0), &vec![(0, 0)]);
    assert!(!s.apple_above);
    assert!(!s.apple_left);
    assert!(s.danger_up);
    assert!(!s.danger_down);
    assert!(s.danger_left);
    assert!(!s.danger_right);
}

#[test]
fn elites_pass_unchanged_and_children_come_from_the_pool() {
    let ranked: Vec<usize> = (0..50).rev().collect();
    let plan = breeding_plan(&ranked, 50);
    assert_eq!(plan.len(), 50);
    for i in 0..ELITE_COUNT {
        assert_eq!(plan[i], ranked[i]);
    }
    for i in ELITE_COUNT..50 {
        assert!(ranked[..PARENT_POOL].contains(&plan[i]));
    }
}

#[test]
fn small_population_keeps_the_whole_elite() {
    let ranked: Vec<usize> = (0..15).collect();
    let plan = breeding_plan(&ranked, 10);
    assert_eq!(plan, ranked);
}

#[test]
fn plan_follows_the_draws() {
    let ranked: Vec<usize> = (100..140).collect();
    let plan = plan_from_draws(&ranked, &vec![0, 29, 7]);
    let mut expected: Vec<usize> = (100..115).collect();
    expected.extend([100, 129, 107]);
    assert_eq!(plan, expected);
    assert_eq!(plan_from_draws(&ranked, &Vec::new()), (100..115).collect::<Vec<usize>>());
}
