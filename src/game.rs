use vstd::prelude::*;
use crate::food::{has_free_cell, is_free, place_food};
use crate::grid::Grid;
use crate::snake::{in_interior, moved_body, tick_outcome, Direction, Point, Snake, TickResult};

verus! {

/// Width of the standard board.
pub const WIDTH: usize = 15;

/// Height of the standard board.
pub const HEIGHT: usize = 10;

/// Time between two ticks at the start of a session, in microseconds.
pub const START_INTERVAL_US: u64 = 300_000;

/// The tick interval after food is eaten: nine tenths of `i`, rounded up.
pub open spec fn decayed(i: u64) -> u64 {
    (i - i / 10) as u64
}

/// Shortens a tick interval by the decay factor.
pub fn decay(i: u64) -> (r: u64)
    ensures
        r == decayed(i),
        r <= i,
{
    i - i / 10
}

/// A session: the board, the snake, the food, the score and the pace.
/// It plays until the snake collides or the player quits.
pub struct Game {
    grid: Grid,
    snake: Snake,
    food: Point,
    score: u64,
    interval_us: u64,
    over: bool,
}

impl Game {
    pub closed spec fn spec_grid(&self) -> Grid {
        self.grid
    }

    pub closed spec fn spec_snake(&self) -> Snake {
        self.snake
    }

    pub closed spec fn spec_food(&self) -> Point {
        self.food
    }

    pub closed spec fn spec_score(&self) -> u64 {
        self.score
    }

    pub closed spec fn spec_interval(&self) -> u64 {
        self.interval_us
    }

    pub closed spec fn spec_over(&self) -> bool {
        self.over
    }

    /// While the session plays, the head is on a ground cell and the food lies
    /// on ground off the body.
    pub open spec fn wf(&self) -> bool {
        &&& self.spec_grid().wf()
        &&& self.spec_snake().wf()
        &&& !self.spec_over() ==> in_interior(&self.spec_grid(), self.spec_snake().spec_head())
        &&& !self.spec_over() ==> is_free(
            &self.spec_grid(),
            self.spec_snake().spec_body(),
            self.spec_food(),
        )
    }

    /// How one tick with the snake heading `dir` takes the session `before`
    /// to `after` with result `r`: the body moves, the score and the pace
    /// change only on food, food eaten is replaced by food on a free cell,
    /// and the session ends on a collision or when no cell is left free.
    pub open spec fn tick_step(before: Game, dir: Direction, after: Game, r: TickResult) -> bool {
        let grid = before.spec_grid();
        let body = before.spec_snake().spec_body();
        let food = before.spec_food();
        let new_body = moved_body(body, dir, food);
        &&& after.spec_grid() == grid
        &&& after.spec_snake().spec_dir() == dir
        &&& after.spec_snake().spec_body() == new_body
        &&& r == tick_outcome(grid.spec_width(), grid.spec_height(), body, dir, food)
        &&& after.spec_score() == if r == TickResult::AteFood {
            before.spec_score() + 1
        } else {
            before.spec_score() as int
        }
        &&& after.spec_interval() == if r == TickResult::AteFood {
            decayed(before.spec_interval())
        } else {
            before.spec_interval()
        }
        &&& r != TickResult::AteFood ==> after.spec_food() == food
        &&& r == TickResult::AteFood && has_free_cell(&grid, new_body) ==> is_free(
            &grid,
            new_body,
            after.spec_food(),
        )
        &&& after.spec_over() == (r is GameOver || (r == TickResult::AteFood && !has_free_cell(
            &grid,
            new_body,
        )))
    }

    /// A session on the given board, with the given snake and food, at score
    /// zero and the starting pace.
    pub fn from_parts(grid: Grid, snake: Snake, food: Point) -> (g: Game)
        requires
            grid.wf(),
            snake.wf(),
            in_interior(&grid, snake.spec_head()),
            is_free(&grid, snake.spec_body(), food),
        ensures
            g.wf(),
            g.spec_grid() == grid,
            g.spec_snake() == snake,
            g.spec_food() == food,
            g.spec_score() == 0,
            g.spec_interval() == START_INTERVAL_US,
            !g.spec_over(),
    {
        Game { grid, snake, food, score: 0, interval_us: START_INTERVAL_US, over: false }
    }

    /// The standard session: a 15 by 10 board, a snake of three segments
    /// from (2, 5) up to (2, 3) heading right, and food on a free cell.
    pub fn new() -> (g: Game)
        ensures
            g.wf(),
            g.spec_grid().spec_width() == WIDTH,
            g.spec_grid().spec_height() == HEIGHT,
            g.spec_snake().spec_body() == seq![
                Point { x: 2, y: 5 },
                Point { x: 2, y: 4 },
                Point { x: 2, y: 3 },
            ],
            g.spec_snake().spec_dir() == Direction::Right,
            is_free(&g.spec_grid(), g.spec_snake().spec_body(), g.spec_food()),
            g.spec_score() == 0,
            g.spec_interval() == START_INTERVAL_US,
            !g.spec_over(),
    {
        let grid = Grid::build(WIDTH, HEIGHT);
        let body = vec![Point::new(2, 5), Point::new(2, 4), Point::new(2, 3)];
        let snake = Snake::new(body, Direction::Right);
        let corner = Point { x: 1, y: 1 };
        assert(!snake.spec_body().contains(corner)) by {
            assert(snake.spec_body() =~= seq![
                Point { x: 2, y: 5 },
                Point { x: 2, y: 4 },
                Point { x: 2, y: 3 },
            ]);
        }
        assert(is_free(&grid, snake.spec_body(), corner));
        // (1, 1) is free, so a cell is always found.
        let food = match place_food(&grid, &snake) {
            Some(p) => p,
            None => corner,
        };
        assert(snake.spec_body() =~= seq![
            Point { x: 2, y: 5 },
            Point { x: 2, y: 4 },
            Point { x: 2, y: 3 },
        ]);
        Game { grid, snake, food, score: 0, interval_us: START_INTERVAL_US, over: false }
    }

    pub fn grid(&self) -> (r: &Grid)
        ensures
            *r == self.spec_grid(),
    {
        &self.grid
    }

    pub fn snake(&self) -> (r: &Snake)
        ensures
            *r == self.spec_snake(),
    {
        &self.snake
    }

    pub fn food(&self) -> (r: Point)
        ensures
            r == self.spec_food(),
    {
        self.food
    }

    pub fn score(&self) -> (r: u64)
        ensures
            r == self.spec_score(),
    {
        self.score
    }

    /// The current time between two ticks, in microseconds.
    pub fn interval_us(&self) -> (r: u64)
        ensures
            r == self.spec_interval(),
    {
        self.interval_us
    }

    pub fn is_over(&self) -> (r: bool)
        ensures
            r == self.spec_over(),
    {
        self.over
    }

    /// Ends the session at the player's request.
    pub fn quit(&mut self)
        requires
            old(self).wf(),
        ensures
            final(self).wf(),
            final(self).spec_over(),
            final(self).spec_grid() == old(self).spec_grid(),
            final(self).spec_snake() == old(self).spec_snake(),
            final(self).spec_food() == old(self).spec_food(),
            final(self).spec_score() == old(self).spec_score(),
            final(self).spec_interval() == old(self).spec_interval(),
    {
        self.over = true;
    }

    /// Passes a requested heading to the snake while the session plays; after
    /// the end nothing changes.
    pub fn set_heading(&mut self, requested: Direction)
        requires
            old(self).wf(),
        ensures
            final(self).wf(),
            final(self).spec_over() == old(self).spec_over(),
            final(self).spec_grid() == old(self).spec_grid(),
            final(self).spec_food() == old(self).spec_food(),
            final(self).spec_score() == old(self).spec_score(),
            final(self).spec_interval() == old(self).spec_interval(),
            final(self).spec_snake().spec_body() == old(self).spec_snake().spec_body(),
            final(self).spec_snake().spec_dir() == if old(self).spec_over() {
                old(self).spec_snake().spec_dir()
            } else if requested == crate::snake::opposite(old(self).spec_snake().spec_dir()) {
                old(self).spec_snake().spec_dir()
            } else {
                requested
            },
    {
        if !self.over {
            self.snake.set_heading(requested);
        }
    }

    /// Plays one tick. On food the score goes up by one, the interval decays
    /// and new food is placed on a free cell; on a collision the session ends
    /// with score and pace untouched. When the grown snake leaves no cell
    /// free the session ends too, as no food can be placed.
    pub fn advance(&mut self) -> (r: TickResult)
        requires
            old(self).wf(),
            !old(self).spec_over(),
            old(self).spec_score() < u64::MAX,
        ensures
            final(self).wf(),
            Self::tick_step(*old(self), old(self).spec_snake().spec_dir(), *final(self), r),
    {
        let ghost body = self.snake.spec_body();
        let r = self.snake.tick(&self.grid, self.food);
        match r {
            TickResult::GameOver(_) => {
                self.over = true;
            },
            TickResult::AteFood => {
                self.score = self.score + 1;
                self.interval_us = decay(self.interval_us);
                match place_food(&self.grid, &self.snake) {
                    Some(p) => {
                        self.food = p;
                    },
                    None => {
                        self.over = true;
                    },
                }
            },
            TickResult::Continue => {
                proof {
                    let nb = self.snake.spec_body();
                    assert forall|k: int| 0 <= k < nb.len() implies nb[k] != self.food by {
                        if k > 0 {
                            assert(nb[k] == body[k - 1]);
                        }
                    }
                }
            },
        }
        r
    }

    /// The decisions of one frame: a quit request ends the session; else a
    /// requested heading goes to the snake, and when `elapsed_us`, the time
    /// since the last tick, has reached the interval, one tick is played and
    /// its result returned. After the end nothing happens.
    pub fn frame(&mut self, turn: Option<Direction>, quit: bool, elapsed_us: u64) -> (r: Option<TickResult>)
        requires
            old(self).wf(),
            old(self).spec_score() < u64::MAX,
        ensures
            final(self).wf(),
            old(self).spec_over() ==> r is None && *final(self) == *old(self),
            !old(self).spec_over() && quit ==> r is None && final(self).spec_over()
                && final(self).spec_grid() == old(self).spec_grid()
                && final(self).spec_snake() == old(self).spec_snake()
                && final(self).spec_food() == old(self).spec_food()
                && final(self).spec_score() == old(self).spec_score()
                && final(self).spec_interval() == old(self).spec_interval(),
            !old(self).spec_over() && !quit ==> (r is Some <==> elapsed_us >= old(self).spec_interval()),
            !old(self).spec_over() && !quit && r is None ==> final(self).spec_grid() == old(self).spec_grid()
                && final(self).spec_snake().spec_body() == old(self).spec_snake().spec_body()
                && final(self).spec_food() == old(self).spec_food()
                && final(self).spec_score() == old(self).spec_score()
                && final(self).spec_interval() == old(self).spec_interval()
                && !final(self).spec_over(),
            !old(self).spec_over() && !quit && r is Some ==> Self::tick_step(
                *old(self),
                final(self).spec_snake().spec_dir(),
                *final(self),
                r->Some_0,
            ),
            !old(self).spec_over() && !quit ==> final(self).spec_snake().spec_dir() == match turn {
                Some(d) => if d == crate::snake::opposite(old(self).spec_snake().spec_dir()) {
                    old(self).spec_snake().spec_dir()
                } else {
                    d
                },
                None => old(self).spec_snake().spec_dir(),
            },
    {
        if self.over {
            return None;
        }
        if quit {
            self.quit();
            return None;
        }
        match turn {
            Some(d) => self.set_heading(d),
            None => {},
        }
        if elapsed_us >= self.interval_us {
            Some(self.advance())
        } else {
            None
        }
    }
}

} // verus!
