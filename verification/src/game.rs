//! The per-tick game-state transition. A session holds the snake, the
//! treat, the queue of pending direction intents and the session status;
//! `step` performs one iteration of the game loop: optionally consume one
//! intent and move, then grow and re-place the treat if it was eaten, then
//! check self- and boundary collision. The caller decides when movement is
//! due (the fixed-interval clock lives outside this crate) and performs the
//! rendering from the public fields.

use vstd::prelude::*;
use std::collections::VecDeque;
use crate::direction::Direction;
use crate::grid::{cell_x, cell_y, is_cell, SQUARE_SIZE, WINDOW_SIZE};
use crate::input::{consume_one, consume_rest, consume_result};
use crate::snake::{advanced, boundary_collision, grown_tail, self_collision, Segment, Snake};
use crate::treat::{gen_treat_coords, occupies, some_cell_free};

verus! {

/// Number of growth steps applied to the one-segment snake at game start.
pub const STARTING_SQUARES: u32 = 5;

/// Hard cap on the segment count, far beyond anything a 32-by-32 board can
/// produce; it keeps every coordinate the game can compute inside `i32`.
pub const MAX_SNAKE_LEN: usize = 1000000;

/// Whether the session is still running, and if not, why it ended.
#[derive(Copy, Clone, PartialEq, Eq, Structural, Debug)]
pub enum Status {
    Alive,
    Dead,
    BoardFull,
}

/// Coordinates a snake of `len` segments can reach stay within this bound:
/// the window, plus one cell for each segment the snake has or started with.
pub open spec fn coord_slack(len: int) -> int {
    WINDOW_SIZE + SQUARE_SIZE * (len + 6)
}

/// Every segment coordinate is within the slack bound for this length.
pub open spec fn coords_bounded(s: Seq<Segment>) -> bool {
    forall|i: int|
        0 <= i < s.len() ==> -coord_slack(s.len() as int) <= #[trigger] s[i].x <= coord_slack(
            s.len() as int,
        ) && -coord_slack(s.len() as int) <= s[i].y <= coord_slack(s.len() as int)
}

/// The segment's cell lies inside the play field.
pub open spec fn in_window(h: Segment) -> bool {
    0 <= h.x < WINDOW_SIZE && 0 <= h.y < WINDOW_SIZE
}

/// One running session of the game.
pub struct GameState {
    pub snake: Snake,
    pub treat: (i32, i32),
    pub queue: VecDeque<Direction>,
    pub status: Status,
}

/// The heading the tick moves under: the first acceptable queued intent if
/// movement is due, else the current heading unchanged.
pub open spec fn new_heading(pre: GameState, movement_due: bool) -> Direction {
    if movement_due {
        consume_result(pre.queue@, pre.snake@[0].dir)
    } else {
        pre.snake@[0].dir
    }
}

/// The intent queue after the tick: drained once if movement was due.
pub open spec fn queue_after(pre: GameState, movement_due: bool) -> Seq<Direction> {
    if movement_due {
        consume_rest(pre.queue@, pre.snake@[0].dir)
    } else {
        pre.queue@
    }
}

/// The snake after the movement phase of the tick.
pub open spec fn moved_snake(pre: GameState, movement_due: bool) -> Seq<Segment> {
    if movement_due {
        advanced(pre.snake@, new_heading(pre, movement_due))
    } else {
        pre.snake@
    }
}

/// The tick eats the treat iff the head lands on it.
pub open spec fn treat_eaten(pre: GameState, movement_due: bool) -> bool {
    let m = moved_snake(pre, movement_due);
    m[0].x == pre.treat.0 && m[0].y == pre.treat.1
}

/// The snake after the whole tick: grown by one tail segment iff the treat
/// was eaten.
pub open spec fn snake_after(pre: GameState, movement_due: bool) -> Seq<Segment> {
    let m = moved_snake(pre, movement_due);
    if treat_eaten(pre, movement_due) {
        m.push(grown_tail(m))
    } else {
        m
    }
}

/// What one call of `step` does. A finished session is left untouched.
/// Otherwise: movement happens iff it was due; the treat, if eaten, is
/// re-placed on a random free cell using the already-grown segment set, or
/// the board is found full; the collision checks run last, on the grown
/// snake, so a tick that both eats and crashes still ends the session.
pub open spec fn step_rel(pre: GameState, post: GameState, movement_due: bool) -> bool {
    if pre.status != Status::Alive {
        post == pre
    } else {
        let s = snake_after(pre, movement_due);
        let crashed = self_collision(s) || boundary_collision(s[0], WINDOW_SIZE);
        &&& post.snake@ == s
        &&& post.queue@ == queue_after(pre, movement_due)
        &&& if treat_eaten(pre, movement_due) {
            if some_cell_free(s) {
                &&& is_cell(post.treat.0 as int, post.treat.1 as int)
                &&& !occupies(s, post.treat.0 as int, post.treat.1 as int)
                &&& post.status == (if crashed {
                    Status::Dead
                } else {
                    Status::Alive
                })
            } else {
                &&& post.treat == pre.treat
                &&& post.status == (if crashed {
                    Status::Dead
                } else {
                    Status::BoardFull
                })
            }
        } else {
            &&& post.treat == pre.treat
            &&& post.status == (if crashed {
                Status::Dead
            } else {
                Status::Alive
            })
        }
    }
}

impl GameState {
    /// Session invariant: the snake is non-empty and not absurdly long,
    /// every coordinate is within the slack bound, and while the session is
    /// alive the head is inside the play field.
    pub open spec fn wf(self) -> bool {
        &&& self.snake@.len() >= 1
        &&& self.snake@.len() <= MAX_SNAKE_LEN
        &&& coords_bounded(self.snake@)
        &&& (self.status == Status::Alive ==> in_window(self.snake@[0]))
    }

    /// A fresh session: a snake of `STARTING_SQUARES + 1` segments laid out
    /// leftwards from the origin and heading right, an empty intent queue,
    /// and a treat on a random free cell.
    pub fn new() -> (g: GameState)
        ensures
            g.wf(),
            g.status == Status::Alive,
            g.snake@.len() == STARTING_SQUARES + 1,
            g.snake@[0] == (Segment { x: 0, y: 0, dir: Direction::Right }),
            forall|i: int|
                0 <= i < g.snake@.len() ==> ((#[trigger] g.snake@[i]).x == -(SQUARE_SIZE as int)
                    * i && g.snake@[i].y == 0 && g.snake@[i].dir == Direction::Right),
            is_cell(g.treat.0 as int, g.treat.1 as int),
            !occupies(g.snake@, g.treat.0 as int, g.treat.1 as int),
            g.queue@ == Seq::<Direction>::empty(),
    {
        let mut snake = Snake::new(0, 0, Direction::Right);
        let mut k: u32 = 0;
        while k < STARTING_SQUARES
            invariant
                0 <= k <= STARTING_SQUARES,
                snake@.len() == k + 1,
                forall|i: int|
                    0 <= i < snake@.len() ==> ((#[trigger] snake@[i]).x == -(SQUARE_SIZE as int)
                        * i && snake@[i].y == 0 && snake@[i].dir == Direction::Right),
            decreases STARTING_SQUARES - k,
        {
            let ghost prev = snake@;
            proof {
                assert(prev[0].x == 0 && prev[0].dir == Direction::Right);
                assert(prev[k as int].x == -(SQUARE_SIZE as int) * (k as int));
                assert(prev.last() == prev[k as int]);
            }
            snake.new_square();
            proof {
                assert(grown_tail(prev).x == prev.last().x - SQUARE_SIZE);
                assert forall|i: int|
                    0 <= i < snake@.len() implies ((#[trigger] snake@[i]).x == -(SQUARE_SIZE as int)
                    * i && snake@[i].y == 0 && snake@[i].dir == Direction::Right) by {
                    if i < prev.len() {
                        assert(snake@[i] == prev[i]);
                    } else {
                        assert(snake@[i] == grown_tail(prev));
                    }
                }
            }
            k = k + 1;
        }
        let treat_opt = gen_treat_coords(&snake.segments);
        proof {
            assert(cell_x(1) == SQUARE_SIZE && cell_y(1) == 0);
            assert(!occupies(snake@, SQUARE_SIZE as int, 0));
            assert(some_cell_free(snake@));
        }
        let treat = match treat_opt {
            Some(t) => t,
            None => (SQUARE_SIZE as i32, 0),
        };
        GameState { snake, treat, queue: VecDeque::new(), status: Status::Alive }
    }

    /// Appends a raw directional intent to the back of the input buffer,
    /// unconditionally; filtering happens when the buffer is drained.
    pub fn enqueue(&mut self, d: Direction)
        ensures
            final(self).queue@ == old(self).queue@.push(d),
            final(self).snake == old(self).snake,
            final(self).treat == old(self).treat,
            final(self).status == old(self).status,
            old(self).wf() ==> final(self).wf(),
    {
        self.queue.push_back(d);
    }

    /// One iteration of the game loop, with `movement_due` telling whether
    /// the fixed movement interval has elapsed.
    pub fn step(&mut self, movement_due: bool)
        requires
            old(self).wf(),
            old(self).snake@.len() < MAX_SNAKE_LEN,
        ensures
            final(self).wf(),
            step_rel(*old(self), *final(self), movement_due),
    {
        match self.status {
            Status::Alive => {},
            _ => {
                return;
            },
        }
        if movement_due {
            let heading = self.snake.head().dir;
            let d = consume_one(&mut self.queue, heading);
            self.snake.advance(d);
            proof {
                assert forall|i: int| 0 <= i < self.snake@.len() implies -coord_slack(
                    self.snake@.len() as int,
                ) <= #[trigger] self.snake@[i].x <= coord_slack(self.snake@.len() as int)
                    && -coord_slack(self.snake@.len() as int) <= self.snake@[i].y <= coord_slack(
                    self.snake@.len() as int,
                ) by {
                    if i >= 2 {
                        assert(self.snake@[i] == old(self).snake@[i - 1]);
                    }
                }
            }
        }
        let head = self.snake.head();
        if head.x == self.treat.0 && head.y == self.treat.1 {
            let ghost before_grow = self.snake@;
            self.snake.new_square();
            proof {
                assert forall|i: int| 0 <= i < self.snake@.len() implies -coord_slack(
                    self.snake@.len() as int,
                ) <= #[trigger] self.snake@[i].x <= coord_slack(self.snake@.len() as int)
                    && -coord_slack(self.snake@.len() as int) <= self.snake@[i].y <= coord_slack(
                    self.snake@.len() as int,
                ) by {
                    if i < before_grow.len() {
                        assert(self.snake@[i] == before_grow[i]);
                    }
                }
            }
            match gen_treat_coords(&self.snake.segments) {
                Some(t) => {
                    self.treat = t;
                },
                None => {
                    self.status = Status::BoardFull;
                },
            }
        }
        let crashed_self = self.snake.check_self_collision();
        let crashed_border = self.snake.check_boundary_collision(WINDOW_SIZE);
        if crashed_self || crashed_border {
            self.status = Status::Dead;
        }
    }
}

} // verus!
