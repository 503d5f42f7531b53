use std::collections::VecDeque;
use vstd::prelude::*;
use crate::grid::{on_border, Grid, Shape, MAX_SIDE};

verus! {

/// A cell position on the board, `x` to the right and `y` downwards.
#[derive(Clone, Copy, Debug, PartialEq, Eq, Structural)]
pub struct Point {
    pub x: isize,
    pub y: isize,
}

impl Point {
    pub fn new(x: isize, y: isize) -> (p: Point)
        ensures
            p.x == x,
            p.y == y,
    {
        Point { x, y }
    }
}

/// One of the four headings of the snake.
#[derive(Clone, Copy, Debug, PartialEq, Eq, Structural)]
pub enum Direction {
    Right,
    Down,
    Left,
    Up,
}

/// The heading that points the other way.
pub open spec fn opposite(d: Direction) -> Direction {
    match d {
        Direction::Right => Direction::Left,
        Direction::Left => Direction::Right,
        Direction::Down => Direction::Up,
        Direction::Up => Direction::Down,
    }
}

/// Whether `a` and `b` point in exactly opposite ways.
pub fn is_opposite(a: Direction, b: Direction) -> (r: bool)
    ensures
        r == (b == opposite(a)),
{
    match a {
        Direction::Right => b == Direction::Left,
        Direction::Left => b == Direction::Right,
        Direction::Down => b == Direction::Up,
        Direction::Up => b == Direction::Down,
    }
}

/// The cell one step from `p` in direction `d`.
pub open spec fn step(p: Point, d: Direction) -> Point {
    match d {
        Direction::Right => Point { x: (p.x + 1) as isize, y: p.y },
        Direction::Down => Point { x: p.x, y: (p.y + 1) as isize },
        Direction::Left => Point { x: (p.x - 1) as isize, y: p.y },
        Direction::Up => Point { x: p.x, y: (p.y - 1) as isize },
    }
}

/// Why a session ended.
#[derive(Clone, Copy, Debug, PartialEq, Eq, Structural)]
pub enum Collision {
    /// The head entered a cell held by the rest of the body.
    SelfCollision,
    /// The head entered a wall cell.
    WallCollision,
}

impl Collision {
    /// A line that tells the player why the game ended.
    pub fn reason(&self) -> (r: &'static str)
        ensures
            r@ == match self {
                Collision::SelfCollision => "You're not eatable! GameOver!"@,
                Collision::WallCollision => "Look your steps! GameOver!"@,
            },
    {
        match self {
            Collision::SelfCollision => {
                proof {
                    reveal_strlit("You're not eatable! GameOver!");
                }
                "You're not eatable! GameOver!"
            },
            Collision::WallCollision => {
                proof {
                    reveal_strlit("Look your steps! GameOver!");
                }
                "Look your steps! GameOver!"
            },
        }
    }
}

/// What one tick of movement led to.
#[derive(Clone, Copy, Debug, PartialEq, Eq, Structural)]
pub enum TickResult {
    /// The snake moved and the game goes on.
    Continue,
    /// The snake moved onto the food and grew by one segment.
    AteFood,
    /// The snake collided; the game is over.
    GameOver(Collision),
}

/// The body after one move: the new head in front, and the old tail dropped
/// unless the head lands on the food.
pub open spec fn moved_body(body: Seq<Point>, d: Direction, food: Point) -> Seq<Point> {
    let head = step(body[0], d);
    if head == food {
        seq![head] + body
    } else {
        seq![head] + body.drop_last()
    }
}

/// What one move of `body` heading `d` leads to on a `w` by `h` board with
/// food at `food`: self-collision is checked first, then the wall.
pub open spec fn tick_outcome(w: int, h: int, body: Seq<Point>, d: Direction, food: Point) -> TickResult {
    let nb = moved_body(body, d, food);
    let head = nb[0];
    if nb.subrange(1, nb.len() as int).contains(head) {
        TickResult::GameOver(Collision::SelfCollision)
    } else if on_border(w, h, head.x as int, head.y as int) {
        TickResult::GameOver(Collision::WallCollision)
    } else if head == food {
        TickResult::AteFood
    } else {
        TickResult::Continue
    }
}

/// Whether `p` is a ground cell, away from the outer ring, of a board `g`.
pub open spec fn in_interior(g: &Grid, p: Point) -> bool {
    0 < p.x < g.spec_width() - 1 && 0 < p.y < g.spec_height() - 1
}

/// The snake: its segments, head first, and its heading.
pub struct Snake {
    dir: Direction,
    body: VecDeque<Point>,
}

impl Snake {
    pub closed spec fn spec_body(&self) -> Seq<Point> {
        self.body@
    }

    pub closed spec fn spec_dir(&self) -> Direction {
        self.dir
    }

    pub open spec fn wf(&self) -> bool {
        self.spec_body().len() >= 1
    }

    pub open spec fn spec_head(&self) -> Point {
        self.spec_body()[0]
    }

    /// A snake with the given segments, head first.
    pub fn new(body: Vec<Point>, dir: Direction) -> (s: Snake)
        requires
            body@.len() >= 1,
        ensures
            s.wf(),
            s.spec_body() == body@,
            s.spec_dir() == dir,
    {
        let mut segments: VecDeque<Point> = VecDeque::new();
        let mut i: usize = 0;
        while i < body.len()
            invariant
                i <= body@.len(),
                segments@ == body@.subrange(0, i as int),
            decreases body@.len() - i,
        {
            segments.push_back(body[i]);
            i = i + 1;
            assert(segments@ =~= body@.subrange(0, i as int));
        }
        assert(segments@ =~= body@);
        Snake { dir, body: segments }
    }

    pub fn direction(&self) -> (r: Direction)
        ensures
            r == self.spec_dir(),
    {
        self.dir
    }

    pub fn len(&self) -> (r: usize)
        ensures
            r == self.spec_body().len(),
    {
        self.body.len()
    }

    pub fn head(&self) -> (r: Point)
        requires
            self.wf(),
        ensures
            r == self.spec_head(),
    {
        self.body[0]
    }

    /// The segments, head first.
    pub fn segments(&self) -> (r: Vec<Point>)
        ensures
            r@ == self.spec_body(),
    {
        let mut out: Vec<Point> = Vec::new();
        let mut i: usize = 0;
        while i < self.body.len()
            invariant
                i <= self.spec_body().len(),
                out@ == self.spec_body().subrange(0, i as int),
            decreases self.spec_body().len() - i,
        {
            out.push(self.body[i]);
            i = i + 1;
            assert(out@ =~= self.spec_body().subrange(0, i as int));
        }
        assert(out@ =~= self.spec_body());
        out
    }

    /// Whether some segment of the snake is at `p`.
    pub fn occupies(&self, p: Point) -> (r: bool)
        ensures
            r == self.spec_body().contains(p),
    {
        let mut i: usize = 0;
        while i < self.body.len()
            invariant
                i <= self.spec_body().len(),
                forall|j: int| 0 <= j < i ==> self.spec_body()[j] != p,
            decreases self.spec_body().len() - i,
        {
            if self.body[i] == p {
                return true;
            }
            i = i + 1;
        }
        false
    }

    /// Turns the snake to `requested`, unless that would reverse it onto its
    /// own neck.
    pub fn set_heading(&mut self, requested: Direction)
        ensures
            final(self).spec_body() == old(self).spec_body(),
            final(self).spec_dir() == if requested == opposite(old(self).spec_dir()) {
                old(self).spec_dir()
            } else {
                requested
            },
    {
        if !is_opposite(self.dir, requested) {
            self.dir = requested;
        }
    }

    /// Moves the snake one cell along its heading, growing it when the head
    /// lands on `food`, and reports what the move led to.
    pub fn tick(&mut self, grid: &Grid, food: Point) -> (r: TickResult)
        requires
            old(self).wf(),
            grid.wf(),
            in_interior(grid, old(self).spec_head()),
        ensures
            final(self).spec_dir() == old(self).spec_dir(),
            final(self).spec_body() == moved_body(
                old(self).spec_body(),
                old(self).spec_dir(),
                food,
            ),
            r == tick_outcome(
                grid.spec_width(),
                grid.spec_height(),
                old(self).spec_body(),
                old(self).spec_dir(),
                food,
            ),
    {
        let ghost old_body = self.body@;
        let ghost old_dir = self.dir;
        let head = self.body[0];
        let next = match self.dir {
            Direction::Right => Point { x: head.x + 1, y: head.y },
            Direction::Down => Point { x: head.x, y: head.y + 1 },
            Direction::Left => Point { x: head.x - 1, y: head.y },
            Direction::Up => Point { x: head.x, y: head.y - 1 },
        };
        assert(next == step(old_body[0], self.dir));
        self.body.push_front(next);
        let ate = next == food;
        if !ate {
            self.body.pop_back();
        }
        assert(self.body@ =~= moved_body(old_body, self.dir, food));
        let mut i: usize = 1;
        while i < self.body.len()
            invariant
                1 <= i <= self.body@.len(),
                self.body@.len() >= 1,
                self.body@[0] == next,
                self.dir == old_dir,
                old_body == old(self).spec_body(),
                old_dir == old(self).spec_dir(),
                self.body@ == moved_body(old_body, old_dir, food),
                next == step(old_body[0], old_dir),
                forall|j: int| 1 <= j < i ==> self.body@[j] != next,
            decreases self.body@.len() - i,
        {
            if self.body[i] == next {
                proof {
                    let rest = self.body@.subrange(1, self.body@.len() as int);
                    assert(rest[i - 1] == next);
                }
                return TickResult::GameOver(Collision::SelfCollision);
            }
            i = i + 1;
        }
        proof {
            let rest = self.body@.subrange(1, self.body@.len() as int);
            assert forall|k: int| 0 <= k < rest.len() implies rest[k] != next by {
                assert(rest[k] == self.body@[k + 1]);
            }
        }
        if grid.classify(next.x as usize, next.y as usize) == Shape::Wall {
            return TickResult::GameOver(Collision::WallCollision);
        }
        if ate {
            TickResult::AteFood
        } else {
            TickResult::Continue
        }
    }
}

} // verus!
