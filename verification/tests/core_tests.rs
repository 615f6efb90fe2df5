use std::collections::VecDeque;

use snake_core::direction::Direction;
use snake_core::grid::{index_to_coords, MAX_SQUARES, ROW_SQUARES, SQUARE_SIZE, WINDOW_SIZE};
use snake_core::input::consume_one;
use snake_core::snake::{Segment, Snake};
use snake_core::treat::gen_treat_coords;

fn seg(x: i32, y: i32, dir: Direction) -> Segment {
    Segment { x, y, dir }
}

#[test]
fn opposite_of_each_direction() {
    assert_eq!(Direction::Left.opposite(), Direction::Right);
    assert_eq!(Direction::Right.opposite(), Direction::Left);
    assert_eq!(Direction::Up.opposite(), Direction::Down);
    assert_eq!(Direction::Down.opposite(), Direction::Up);
}

#[test]
fn grid_constants() {
    assert_eq!(WINDOW_SIZE, 480);
    assert_eq!(ROW_SQUARES, 32);
    assert_eq!(MAX_SQUARES, 1024);
    assert_eq!(SQUARE_SIZE, 15);
}

#[test]
fn index_to_coords_corners() {
    assert_eq!(index_to_coords(0), (0, 0));
    assert_eq!(index_to_coords(1), (15, 0));
    assert_eq!(index_to_coords(33), (15, 15));
    assert_eq!(index_to_coords(1023), (465, 465));
}

#[test]
fn reversal_intents_are_all_rejected() {
    // Every queued intent is the exact opposite of the heading: the heading
    // stays, and the whole queue is discarded.
    let mut q: VecDeque<Direction> = VecDeque::new();
    q.push_back(Direction::Left);
    q.push_back(Direction::Left);
    let d = consume_one(&mut q, Direction::Right);
    assert_eq!(d, Direction::Right);
    assert!(q.is_empty());
}

#[test]
fn same_heading_intents_drain_queue() {
    // Intents equal to the heading are discarded too; the queue is drained.
    let mut q: VecDeque<Direction> = VecDeque::new();
    q.push_back(Direction::Right);
    q.push_back(Direction::Right);
    let d = consume_one(&mut q, Direction::Right);
    assert_eq!(d, Direction::Right);
    assert!(q.is_empty());
}

#[test]
fn first_acceptable_intent_wins() {
    // Heading RIGHT, queued [LEFT, UP]: LEFT is an illegal reversal and is
    // discarded, UP becomes the new heading.
    let mut q: VecDeque<Direction> = VecDeque::new();
    q.push_back(Direction::Left);
    q.push_back(Direction::Up);
    let d = consume_one(&mut q, Direction::Right);
    assert_eq!(d, Direction::Up);
    assert!(q.is_empty());
}

#[test]
fn intents_behind_the_accepted_one_are_kept() {
    let mut q: VecDeque<Direction> = VecDeque::new();
    q.push_back(Direction::Up);
    q.push_back(Direction::Down);
    let d = consume_one(&mut q, Direction::Right);
    assert_eq!(d, Direction::Up);
    assert_eq!(q.len(), 1);
    assert_eq!(q[0], Direction::Down);
}

#[test]
fn empty_queue_keeps_heading() {
    let mut q: VecDeque<Direction> = VecDeque::new();
    let d = consume_one(&mut q, Direction::Down);
    assert_eq!(d, Direction::Down);
}

#[test]
fn advance_shifts_and_moves_head() {
    let mut s = Snake {
        segments: vec![
            seg(30, 0, Direction::Right),
            seg(15, 0, Direction::Right),
            seg(0, 0, Direction::Right),
        ],
    };
    s.advance(Direction::Down);
    assert_eq!(s.segments.len(), 3);
    assert_eq!(s.segments[0], seg(30, 15, Direction::Down));
    assert_eq!(s.segments[1], seg(30, 0, Direction::Down));
    assert_eq!(s.segments[2], seg(15, 0, Direction::Right));
}

#[test]
fn advance_preserves_length() {
    let mut s = Snake {
        segments: vec![seg(100, 100, Direction::Left), seg(115, 100, Direction::Left)],
    };
    s.advance(Direction::Left);
    assert_eq!(s.segments.len(), 2);
    assert_eq!(s.segments[0], seg(85, 100, Direction::Left));
}

#[test]
fn new_square_appends_one_segment_behind_tail() {
    // Heading RIGHT: the grown segment sits one cell to the left of the tail.
    let mut s = Snake {
        segments: vec![seg(100, 100, Direction::Right), seg(85, 100, Direction::Right)],
    };
    s.new_square();
    assert_eq!(s.segments.len(), 3);
    assert_eq!(s.segments[2], seg(70, 100, Direction::Right));
}

#[test]
fn new_square_uses_head_heading_not_tail_heading() {
    // The growth axis comes from the head, even after a turn; the copied
    // tail keeps its own recorded direction.
    let mut s = Snake {
        segments: vec![seg(100, 100, Direction::Up), seg(100, 115, Direction::Right)],
    };
    s.new_square();
    assert_eq!(s.segments.len(), 3);
    assert_eq!(s.segments[2], seg(100, 130, Direction::Right));
}

#[test]
fn self_collision_detected() {
    let s = Snake {
        segments: vec![
            seg(30, 30, Direction::Right),
            seg(15, 30, Direction::Right),
            seg(30, 30, Direction::Down),
        ],
    };
    assert!(s.check_self_collision());
}

#[test]
fn no_self_collision_on_distinct_cells() {
    let s = Snake {
        segments: vec![seg(30, 30, Direction::Right), seg(15, 30, Direction::Right)],
    };
    assert!(!s.check_self_collision());
}

#[test]
fn boundary_collision_cases() {
    let inside = Snake { segments: vec![seg(465, 465, Direction::Right)] };
    assert!(!inside.check_boundary_collision(480));
    let right_edge = Snake { segments: vec![seg(480, 100, Direction::Right)] };
    assert!(right_edge.check_boundary_collision(480));
    let left_edge = Snake { segments: vec![seg(-15, 100, Direction::Left)] };
    assert!(left_edge.check_boundary_collision(480));
    let below = Snake { segments: vec![seg(100, 480, Direction::Down)] };
    assert!(below.check_boundary_collision(480));
    let above = Snake { segments: vec![seg(100, -15, Direction::Up)] };
    assert!(above.check_boundary_collision(480));
}

#[test]
fn treat_is_never_on_an_occupied_cell() {
    let occupied = vec![
        seg(0, 0, Direction::Right),
        seg(15, 0, Direction::Right),
        seg(30, 0, Direction::Right),
    ];
    for _ in 0..50 {
        let p = gen_treat_coords(&occupied).expect("board is nearly empty");
        for s in &occupied {
            assert!(!(s.x == p.0 && s.y == p.1));
        }
        assert_eq!(p.0 % 15, 0);
        assert_eq!(p.1 % 15, 0);
        assert!(0 <= p.0 && p.0 < 480);
        assert!(0 <= p.1 && p.1 < 480);
    }
}

#[test]
fn full_board_yields_no_treat() {
    let mut occupied = Vec::new();
    for i in 0..MAX_SQUARES {
        let (x, y) = index_to_coords(i);
        occupied.push(seg(x, y, Direction::Right));
    }
    assert_eq!(gen_treat_coords(&occupied), None);
}

#[test]
fn almost_full_board_yields_the_one_free_cell() {
    // Every cell but (15, 0) is occupied: placement must pick exactly it.
    let mut occupied = Vec::new();
    for i in 0..MAX_SQUARES {
        if i == 1 {
            continue;
        }
        let (x, y) = index_to_coords(i);
        occupied.push(seg(x, y, Direction::Right));
    }
    assert_eq!(gen_treat_coords(&occupied), Some((15, 0)));
}
