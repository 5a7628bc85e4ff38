use snake::geometry::{does_snake_die, is_in_vec, next_head, yum_yum};
use snake::render::{render_frame, snake_to_display};
use snake::sim::{accept_intent, respawn_food};
use snake::{Direction, GameState, IntentQueue, Point};

fn state_with(snake: Vec<Point>, food: Point, direction: Direction) -> GameState {
    GameState { snake, food, direction, eating: false, death: false, won: false }
}

fn pt(x: u8, y: u8) -> Point {
    Point { x, y }
}

#[test]
fn opposite_of_each_direction() {
    assert_eq!(Direction::Up.get_opposite(), Direction::Down);
    assert_eq!(Direction::Down.get_opposite(), Direction::Up);
    assert_eq!(Direction::Left.get_opposite(), Direction::Right);
    assert_eq!(Direction::Right.get_opposite(), Direction::Left);
}

#[test]
fn is_in_vec_finds_and_misses() {
    let v = vec![pt(1, 1), pt(2, 3)];
    assert!(is_in_vec(&pt(2, 3), &v));
    assert!(!is_in_vec(&pt(3, 2), &v));
    assert!(!is_in_vec(&pt(1, 1), &Vec::new()));
}

#[test]
fn does_snake_die_detects_overlap() {
    assert!(!does_snake_die(&vec![pt(1, 1), pt(2, 1), pt(3, 1)]));
    assert!(does_snake_die(&vec![pt(1, 1), pt(2, 1), pt(1, 1)]));
}

#[test]
fn yum_yum_detects_food_hit() {
    let s = vec![pt(5, 5), pt(4, 5)];
    assert!(yum_yum(&s, &pt(5, 5)));
    assert!(!yum_yum(&s, &pt(6, 5)));
}

#[test]
fn next_head_moves_one_cell() {
    assert_eq!(next_head(&pt(5, 5), &Direction::Up), pt(5, 4));
    assert_eq!(next_head(&pt(5, 5), &Direction::Down), pt(5, 6));
    assert_eq!(next_head(&pt(5, 5), &Direction::Left), pt(4, 5));
    assert_eq!(next_head(&pt(5, 5), &Direction::Right), pt(6, 5));
}

#[test]
fn intent_queue_caps_at_three_and_pops_oldest() {
    let mut q = IntentQueue::new();
    assert_eq!(q.pop(), None);
    q.push(Direction::Up);
    q.push(Direction::Left);
    q.push(Direction::Down);
    q.push(Direction::Right); // dropped: queue already full
    assert_eq!(q.len(), 3);
    assert_eq!(q.pop(), Some(Direction::Up));
    assert_eq!(q.pop(), Some(Direction::Left));
    assert_eq!(q.pop(), Some(Direction::Down));
    assert_eq!(q.pop(), None);
}

#[test]
fn accept_intent_filters_no_op_and_reversal() {
    assert_eq!(accept_intent(Direction::Right, Some(Direction::Up)), Direction::Up);
    assert_eq!(accept_intent(Direction::Right, Some(Direction::Left)), Direction::Right);
    assert_eq!(accept_intent(Direction::Right, Some(Direction::Right)), Direction::Right);
    assert_eq!(accept_intent(Direction::Right, None), Direction::Right);
}

// Issuing Down while moving Up leaves the committed direction Up.
#[test]
fn reversal_is_rejected_over_a_tick() {
    let mut rng = rand::thread_rng();
    let mut s = state_with(vec![pt(5, 5)], pt(1, 1), Direction::Up);
    let mut q = IntentQueue::new();
    q.push(Direction::Down);
    s.tick(&mut q, &mut rng);
    assert_eq!(s.direction, Direction::Up);
    assert_eq!(s.snake, vec![pt(5, 4)]);
    assert!(!s.death);
}

// The initial state and one quiet tick, exactly as configured.
#[test]
fn one_tick_from_the_start() {
    let mut rng = rand::thread_rng();
    let mut s = GameState::new();
    assert_eq!(s.snake, vec![pt(4, 5), pt(3, 5), pt(2, 5), pt(1, 5)]);
    assert_eq!(s.food, pt(19, 5));
    assert_eq!(s.direction, Direction::Right);
    let mut q = IntentQueue::new();
    s.tick(&mut q, &mut rng);
    assert_eq!(s.snake, vec![pt(5, 5), pt(4, 5), pt(3, 5), pt(2, 5)]);
    assert!(!s.eating);
    assert!(!s.death);
    assert_eq!(s.food, pt(19, 5));
}

// A head landing exactly on the current tail cell survives: the tail vacates.
#[test]
fn closed_loop_onto_tail_survives() {
    let mut rng = rand::thread_rng();
    let mut s = state_with(
        vec![pt(2, 2), pt(3, 2), pt(3, 3), pt(2, 3)],
        pt(10, 10),
        Direction::Down,
    );
    let mut q = IntentQueue::new();
    s.tick(&mut q, &mut rng);
    assert!(!s.death);
    assert_eq!(s.snake, vec![pt(2, 3), pt(2, 2), pt(3, 2), pt(3, 3)]);
}

// Landing on any other body cell is fatal.
#[test]
fn hitting_the_body_dies() {
    let mut rng = rand::thread_rng();
    let mut s = state_with(
        vec![pt(2, 2), pt(3, 2), pt(3, 3), pt(2, 3), pt(1, 3)],
        pt(10, 10),
        Direction::Down,
    );
    let mut q = IntentQueue::new();
    s.tick(&mut q, &mut rng);
    assert!(s.death);
    // the state is left as it was
    assert_eq!(s.snake, vec![pt(2, 2), pt(3, 2), pt(3, 3), pt(2, 3), pt(1, 3)]);
}

#[test]
fn boundary_kills_exactly_at_the_edge() {
    let mut rng = rand::thread_rng();
    let mut q = IntentQueue::new();

    let mut left_edge = state_with(vec![pt(1, 5), pt(2, 5)], pt(10, 1), Direction::Left);
    left_edge.tick(&mut q, &mut rng);
    assert!(left_edge.death);

    let mut near_left = state_with(vec![pt(2, 5), pt(3, 5)], pt(10, 1), Direction::Left);
    near_left.tick(&mut q, &mut rng);
    assert!(!near_left.death);
    assert_eq!(near_left.snake[0], pt(1, 5));

    let mut right_edge = state_with(vec![pt(20, 5), pt(19, 5)], pt(10, 1), Direction::Right);
    right_edge.tick(&mut q, &mut rng);
    assert!(right_edge.death);

    let mut top_edge = state_with(vec![pt(5, 1), pt(5, 2)], pt(10, 9), Direction::Up);
    top_edge.tick(&mut q, &mut rng);
    assert!(top_edge.death);

    let mut bottom_edge = state_with(vec![pt(5, 10), pt(5, 9)], pt(10, 1), Direction::Down);
    bottom_edge.tick(&mut q, &mut rng);
    assert!(bottom_edge.death);
}

// Eating: the flag is set on the hit, the body grows on the next commit, and
// the food reappears outside the new body.
#[test]
fn eating_grows_and_relocates_food() {
    let mut rng = rand::thread_rng();
    let mut s = state_with(vec![pt(18, 5), pt(17, 5), pt(16, 5)], pt(19, 5), Direction::Right);
    let mut q = IntentQueue::new();
    s.tick(&mut q, &mut rng);
    assert!(!s.death);
    assert!(s.eating);
    assert_eq!(s.snake.len(), 3);
    assert_eq!(s.snake[0], pt(19, 5));
    assert!(!s.snake.contains(&s.food));
    assert!(1 <= s.food.x && s.food.x <= 20 && 1 <= s.food.y && s.food.y <= 10);

    s.tick(&mut q, &mut rng);
    assert!(!s.death);
    assert_eq!(s.snake.len(), 4);
    assert_eq!(s.snake[0], pt(20, 5));
    assert!(!s.snake.contains(&s.food));
}

// A single-segment snake issuing a reversal every tick never dies to itself.
#[test]
fn length_one_reversals_never_die() {
    let mut rng = rand::thread_rng();
    let mut s = state_with(vec![pt(10, 5)], pt(1, 1), Direction::Right);
    let mut q = IntentQueue::new();
    for _ in 0..8 {
        q.push(s.direction.get_opposite());
        s.tick(&mut q, &mut rng);
        assert!(!s.death);
        assert_eq!(s.direction, Direction::Right);
    }
    assert_eq!(s.snake, vec![pt(18, 5)]);
}

// Food respawn never lands on the snake as long as one cell is free.
#[test]
fn food_respawn_avoids_the_snake() {
    let mut rng = rand::thread_rng();
    // every cell but (20, 10)
    let mut body = Vec::new();
    for x in 1..=20u8 {
        for y in 1..=10u8 {
            if !(x == 20 && y == 10) {
                body.push(pt(x, y));
            }
        }
    }
    assert_eq!(respawn_food(&body, &mut rng), Some(pt(20, 10)));
    // a fully occupied board yields no cell: the win condition
    body.push(pt(20, 10));
    assert_eq!(respawn_food(&body, &mut rng), None);
}

// The sampling is random: on an empty board, repeated draws do not all agree.
#[test]
fn food_respawn_varies() {
    let mut rng = rand::thread_rng();
    let empty: Vec<Point> = Vec::new();
    let first = respawn_food(&empty, &mut rng).unwrap();
    let mut saw_other = false;
    for _ in 0..100 {
        let p = respawn_food(&empty, &mut rng).unwrap();
        assert!(1 <= p.x && p.x <= 20 && 1 <= p.y && p.y <= 10);
        if p != first {
            saw_other = true;
        }
    }
    assert!(saw_other);
}

#[test]
fn score_counts_growth() {
    assert_eq!(GameState::new().score(), 0);
    let grown = state_with(
        vec![pt(1, 1), pt(2, 1), pt(3, 1), pt(4, 1), pt(5, 1)],
        pt(10, 10),
        Direction::Down,
    );
    assert_eq!(grown.score(), 1);
    let short = state_with(vec![pt(1, 1)], pt(10, 10), Direction::Down);
    assert_eq!(short.score(), 0);
}

#[test]
fn display_marks_head_body_and_background() {
    let background = vec![vec!['~'; 20]; 10];
    let grid = snake_to_display(&background, &vec![pt(2, 1), pt(1, 1)]);
    assert_eq!(grid[0][1], '&');
    assert_eq!(grid[0][0], '@');
    assert_eq!(grid[0][2], '~');
    assert_eq!(grid[5][5], '~');
    assert_eq!(grid.len(), 10);
    assert!(grid.iter().all(|row| row.len() == 20));
}

#[test]
fn frame_shows_food_but_not_over_the_body() {
    let s = state_with(vec![pt(2, 1), pt(1, 1)], pt(3, 1), Direction::Right);
    let frame = render_frame(&s);
    assert_eq!(frame[0][1], '&');
    assert_eq!(frame[0][0], '@');
    assert_eq!(frame[0][2], '$');
    assert_eq!(frame[1][0], '~');

    // food coinciding with a body cell is never drawn over it
    let overlapped = state_with(vec![pt(2, 1), pt(1, 1)], pt(1, 1), Direction::Right);
    let frame2 = render_frame(&overlapped);
    assert_eq!(frame2[0][0], '@');
}
