//! The snake state machine: an ordered, head-first sequence of body
//! segments. Each movement tick shifts every segment into its predecessor's
//! place and moves the head one cell in the chosen heading; consuming a
//! treat appends a new tail segment one cell behind the current tail, along
//! the head's axis of travel.

use vstd::prelude::*;
use crate::direction::Direction;
use crate::grid::SQUARE_SIZE;

verus! {

/// One body segment: the pixel coordinates of its cell corner and the
/// heading it was last moved under.
#[derive(Copy, Clone, PartialEq, Eq, Structural, Debug)]
pub struct Segment {
    pub x: i32,
    pub y: i32,
    pub dir: Direction,
}

/// The snake: its segments in body order, the head first, the tail last.
pub struct Snake {
    pub segments: Vec<Segment>,
}

impl View for Snake {
    type V = Seq<Segment>;

    open spec fn view(&self) -> Seq<Segment> {
        self.segments@
    }
}

/// The head of `s` after one move in heading `d`: one cell further along
/// `d`, carrying `d` as its recorded direction.
pub open spec fn moved_head(h: Segment, d: Direction) -> Segment {
    match d {
        Direction::Left => Segment { x: (h.x - SQUARE_SIZE) as i32, y: h.y, dir: d },
        Direction::Right => Segment { x: (h.x + SQUARE_SIZE) as i32, y: h.y, dir: d },
        Direction::Up => Segment { x: h.x, y: (h.y - SQUARE_SIZE) as i32, dir: d },
        Direction::Down => Segment { x: h.x, y: (h.y + SQUARE_SIZE) as i32, dir: d },
    }
}

/// The whole snake after one move in heading `d`: the head advances one
/// cell; every other segment takes its predecessor's place, the first body
/// segment taking the head's old cell under the new heading `d`.
pub open spec fn advanced(s: Seq<Segment>, d: Direction) -> Seq<Segment> {
    Seq::new(
        s.len(),
        |i: int|
            if i == 0 {
                moved_head(s[0], d)
            } else if i == 1 {
                Segment { x: s[0].x, y: s[0].y, dir: d }
            } else {
                s[i - 1]
            },
    )
}

/// The tail segment appended by growth: a copy of the current tail pushed
/// one cell backwards along the axis the head is travelling.
pub open spec fn grown_tail(s: Seq<Segment>) -> Segment {
    let t = s.last();
    match s[0].dir {
        Direction::Left => Segment { x: (t.x + SQUARE_SIZE) as i32, y: t.y, dir: t.dir },
        Direction::Right => Segment { x: (t.x - SQUARE_SIZE) as i32, y: t.y, dir: t.dir },
        Direction::Up => Segment { x: t.x, y: (t.y + SQUARE_SIZE) as i32, dir: t.dir },
        Direction::Down => Segment { x: t.x, y: (t.y - SQUARE_SIZE) as i32, dir: t.dir },
    }
}

/// The head occupies the same cell as some segment behind it.
pub open spec fn self_collision(s: Seq<Segment>) -> bool {
    exists|i: int| 1 <= i < s.len() && #[trigger] s[i].x == s[0].x && s[i].y == s[0].y
}

/// The head lies outside the square play field of side `extent` pixels.
pub open spec fn boundary_collision(head: Segment, extent: u32) -> bool {
    head.x < 0 || head.x >= extent || head.y < 0 || head.y >= extent
}

impl Snake {
    /// A snake has at least its head segment.
    pub open spec fn wf(self) -> bool {
        self@.len() >= 1
    }

    /// A one-segment snake at `(x, y)` heading `dir`.
    pub fn new(x: i32, y: i32, dir: Direction) -> (s: Snake)
        ensures
            s@ =~= seq![Segment { x, y, dir }],
    {
        Snake { segments: vec![Segment { x, y, dir }] }
    }

    /// Number of segments.
    pub fn len(&self) -> (n: usize)
        ensures
            n == self@.len(),
    {
        self.segments.len()
    }

    /// The head segment, which carries the authoritative current heading.
    pub fn head(&self) -> (h: Segment)
        requires
            self.wf(),
        ensures
            h == self@[0],
    {
        self.segments[0]
    }

    /// Moves the snake one cell in heading `d`: every segment shifts into
    /// its predecessor's place and the head advances. Length is preserved.
    pub fn advance(&mut self, d: Direction)
        requires
            old(self).wf(),
            i32::MIN + SQUARE_SIZE <= old(self)@[0].x <= i32::MAX - SQUARE_SIZE,
            i32::MIN + SQUARE_SIZE <= old(self)@[0].y <= i32::MAX - SQUARE_SIZE,
        ensures
            final(self)@ =~= advanced(old(self)@, d),
            final(self)@.len() == old(self)@.len(),
    {
        self.segments[0].dir = d;
        let n = self.segments.len();
        let mut i: usize = n;
        while i > 1
            invariant
                1 <= i <= n,
                n == self.segments@.len(),
                n == old(self)@.len(),
                self.segments@[0] == (Segment {
                    x: old(self)@[0].x,
                    y: old(self)@[0].y,
                    dir: d,
                }),
                forall|j: int| 1 <= j < i ==> self.segments@[j] == old(self)@[j],
                forall|j: int| i <= j < n && j >= 2 ==> self.segments@[j] == old(self)@[j - 1],
                i < n ==> self.segments@[i as int] == (Segment {
                    x: old(self)@[i - 1].x,
                    y: old(self)@[i - 1].y,
                    dir: if i == 1 { d } else { old(self)@[i - 1].dir },
                }),
            decreases i,
        {
            i = i - 1;
            let prev = self.segments[i - 1];
            self.segments[i] = prev;
        }
        match d {
            Direction::Left => {
                self.segments[0].x = self.segments[0].x - SQUARE_SIZE as i32;
            },
            Direction::Right => {
                self.segments[0].x = self.segments[0].x + SQUARE_SIZE as i32;
            },
            Direction::Up => {
                self.segments[0].y = self.segments[0].y - SQUARE_SIZE as i32;
            },
            Direction::Down => {
                self.segments[0].y = self.segments[0].y + SQUARE_SIZE as i32;
            },
        }
    }

    /// Grows the snake by one segment: a copy of the tail, pushed one cell
    /// backwards along the head's current axis of travel.
    pub fn new_square(&mut self)
        requires
            old(self).wf(),
            i32::MIN + SQUARE_SIZE <= old(self)@.last().x <= i32::MAX - SQUARE_SIZE,
            i32::MIN + SQUARE_SIZE <= old(self)@.last().y <= i32::MAX - SQUARE_SIZE,
            old(self)@.len() < usize::MAX,
        ensures
            final(self)@ =~= old(self)@.push(grown_tail(old(self)@)),
            final(self)@.len() == old(self)@.len() + 1,
    {
        let n = self.segments.len();
        let tail = self.segments[n - 1];
        self.segments.push(tail);

        let direction = self.segments[0].dir;
        match direction {
            Direction::Left => {
                self.segments[n].x = self.segments[n].x + SQUARE_SIZE as i32;
            },
            Direction::Right => {
                self.segments[n].x = self.segments[n].x - SQUARE_SIZE as i32;
            },
            Direction::Up => {
                self.segments[n].y = self.segments[n].y + SQUARE_SIZE as i32;
            },
            Direction::Down => {
                self.segments[n].y = self.segments[n].y - SQUARE_SIZE as i32;
            },
        }
    }

    /// True iff the head occupies the same cell as some segment behind it.
    pub fn check_self_collision(&self) -> (r: bool)
        requires
            self.wf(),
        ensures
            r == self_collision(self@),
    {
        let head = self.segments[0];
        let n = self.segments.len();
        let mut i: usize = 1;
        while i < n
            invariant
                1 <= i <= n,
                n == self@.len(),
                head == self@[0],
                forall|j: int| 1 <= j < i ==> !(self@[j].x == head.x && self@[j].y == head.y),
            decreases n - i,
        {
            if self.segments[i].x == head.x && self.segments[i].y == head.y {
                return true;
            }
            i = i + 1;
        }
        false
    }

    /// True iff the head lies outside the square play field of side
    /// `extent` pixels.
    pub fn check_boundary_collision(&self, extent: u32) -> (r: bool)
        requires
            self.wf(),
            extent <= i32::MAX,
        ensures
            r == boundary_collision(self@[0], extent),
    {
        let head = self.segments[0];
        head.x < 0 || head.x >= extent as i32 || head.y < 0 || head.y >= extent as i32
    }
}

} // verus!
