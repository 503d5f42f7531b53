use vstd::prelude::*;
use crate::grid::{shape_at, Grid, Shape, MAX_SIDE};
use crate::snake::{Point, Snake};

verus! {

/// How many uniform draws over the whole board are tried before the free
/// cells are listed and one of them is drawn directly.
pub const DRAWS: usize = 64;

/// Whether food may be placed at `p`: a ground cell of `g` that no segment
/// of `body` holds.
pub open spec fn is_free(g: &Grid, body: Seq<Point>, p: Point) -> bool {
    &&& g.contains(p.x as int, p.y as int)
    &&& shape_at(g.spec_width(), g.spec_height(), p.x as int, p.y as int) == Shape::Ground
    &&& !body.contains(p)
}

/// Whether some cell of `g` is free of `body`.
pub open spec fn has_free_cell(g: &Grid, body: Seq<Point>) -> bool {
    exists|p: Point| is_free(g, body, p)
}

/// Whether `a` comes before `b` row by row: an earlier row, or the same row
/// further left.
pub open spec fn precedes(a: Point, b: Point) -> bool {
    a.y < b.y || (a.y == b.y && a.x < b.x)
}

/// Whether the cells of `r` are in strictly increasing row-by-row order, so
/// each appears once.
pub open spec fn in_row_order(r: Seq<Point>) -> bool {
    forall|i: int, j: int| 0 <= i < j < r.len() ==> precedes(#[trigger] r[i], #[trigger] r[j])
}

/// Whether `r` lists exactly the cells of `g` free of `body`, row by row.
pub open spec fn lists_free_cells(g: &Grid, body: Seq<Point>, r: Seq<Point>) -> bool {
    &&& forall|k: int| 0 <= k < r.len() ==> is_free(g, body, #[trigger] r[k])
    &&& forall|p: Point| is_free(g, body, p) ==> r.contains(p)
    &&& in_row_order(r)
}

/// Relies on macroquad::rand::gen_range (quad-rand's generator): for
/// `low < high` it returns `low + floor((high - low) * r)` with `r` in
/// `[0, 1)`, so a value from `0` up to but not including `n`.
#[verifier::external_body]
fn random_below(n: usize) -> (r: usize)
    requires
        0 < n <= u32::MAX,
    ensures
        r < n,
{
    macroquad::rand::gen_range(0, n)
}

/// Whether food may be placed on the cell `(x, y)`.
pub fn is_free_cell(grid: &Grid, snake: &Snake, x: usize, y: usize) -> (r: bool)
    requires
        grid.wf(),
        x < grid.spec_width(),
        y < grid.spec_height(),
    ensures
        r == is_free(grid, snake.spec_body(), Point { x: x as isize, y: y as isize }),
{
    grid.classify(x, y) == Shape::Ground && !snake.occupies(Point::new(x as isize, y as isize))
}

/// Every ground cell of `grid` that the snake does not hold, row by row.
pub fn free_cells(grid: &Grid, snake: &Snake) -> (r: Vec<Point>)
    requires
        grid.wf(),
    ensures
        r@.len() <= grid.spec_width() * grid.spec_height(),
        lists_free_cells(grid, snake.spec_body(), r@),
{
    let w = grid.width();
    let h = grid.height();
    let ghost body = snake.spec_body();
    let mut free: Vec<Point> = Vec::new();
    let mut y: usize = 0;
    while y < h
        invariant
            grid.wf(),
            w == grid.spec_width(),
            h == grid.spec_height(),
            body == snake.spec_body(),
            y <= h,
            free@.len() <= y * w,
            forall|k: int| 0 <= k < free@.len() ==> is_free(grid, body, #[trigger] free@[k]),
            forall|p: Point| is_free(grid, body, p) && p.y < y ==> free@.contains(p),
            forall|k: int| 0 <= k < free@.len() ==> (#[trigger] free@[k]).y < y,
            in_row_order(free@),
        decreases h - y,
    {
        let mut x: usize = 0;
        while x < w
            invariant
                grid.wf(),
                w == grid.spec_width(),
                h == grid.spec_height(),
                body == snake.spec_body(),
                y < h,
                x <= w,
                free@.len() <= y * w + x,
                forall|k: int| 0 <= k < free@.len() ==> is_free(grid, body, #[trigger] free@[k]),
                forall|p: Point|
                    is_free(grid, body, p) && (p.y < y || (p.y == y && p.x < x))
                        ==> free@.contains(p),
                forall|k: int|
                    0 <= k < free@.len() ==> (#[trigger] free@[k]).y < y || (free@[k].y == y
                        && free@[k].x < x),
                in_row_order(free@),
            decreases w - x,
        {
            if is_free_cell(grid, snake, x, y) {
                let ghost before = free@;
                free.push(Point::new(x as isize, y as isize));
                proof {
                    assert forall|p: Point|
                        is_free(grid, body, p) && (p.y < y || (p.y == y && p.x < x + 1))
                            implies free@.contains(p) by {
                        if p.y == y && p.x == x {
                            assert(free@[free@.len() - 1] == p);
                        } else {
                            let k = choose|k: int| 0 <= k < before.len() && before[k] == p;
                            assert(free@[k] == p);
                        }
                    }
                    assert forall|i: int, j: int| 0 <= i < j < free@.len() implies precedes(
                        #[trigger] free@[i],
                        #[trigger] free@[j],
                    ) by {
                        if j < free@.len() - 1 {
                            assert(before[i] == free@[i] && before[j] == free@[j]);
                        } else {
                            assert(before[i] == free@[i]);
                        }
                    }
                    assert forall|k: int| 0 <= k < free@.len() implies (#[trigger] free@[k]).y
                        < y || (free@[k].y == y && free@[k].x < x + 1) by {
                        if k < free@.len() - 1 {
                            assert(before[k] == free@[k]);
                        }
                    }
                }
            }
            x = x + 1;
        }
        proof {
            assert((y + 1) * w == y * w + w) by (nonlinear_arith);
        }
        y = y + 1;
    }
    proof {
        assert(h * w == w * h) by (nonlinear_arith);
    }
    free
}

/// A cell on which food may be placed, drawn at random, or `None` when the
/// snake leaves no ground cell free.
pub fn place_food(grid: &Grid, snake: &Snake) -> (r: Option<Point>)
    requires
        grid.wf(),
    ensures
        r is None <==> !has_free_cell(grid, snake.spec_body()),
        r matches Some(p) ==> is_free(grid, snake.spec_body(), p),
{
    let w = grid.width();
    let h = grid.height();
    let mut tries: usize = 0;
    while tries < DRAWS
        invariant
            grid.wf(),
            w == grid.spec_width(),
            h == grid.spec_height(),
        decreases DRAWS - tries,
    {
        let x = random_below(w);
        let y = random_below(h);
        if is_free_cell(grid, snake, x, y) {
            return Some(Point::new(x as isize, y as isize));
        }
        tries = tries + 1;
    }
    let free = free_cells(grid, snake);
    if free.len() == 0 {
        proof {
            assert forall|p: Point| !is_free(grid, snake.spec_body(), p) by {
                if is_free(grid, snake.spec_body(), p) {
                    assert(free@.contains(p));
                }
            }
        }
        None
    } else {
        proof {
            assert(grid.spec_width() * grid.spec_height() <= MAX_SIDE * MAX_SIDE) by (nonlinear_arith)
                requires
                    grid.spec_width() <= MAX_SIDE,
                    grid.spec_height() <= MAX_SIDE,
                    grid.spec_width() >= 0,
                    grid.spec_height() >= 0,
            ;
            assert(is_free(grid, snake.spec_body(), free@[0]));
        }
        let k = random_below(free.len());
        Some(free[k])
    }
}

} // verus!
