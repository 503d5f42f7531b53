use vstd::prelude::*;

verus! {

/// The largest width or height of a board: coordinates fit in `i32`, and the
/// number of cells can be the bound of a random draw.
pub const MAX_SIDE: usize = 0xffff;

/// What a cell of the board is.
#[derive(Clone, Copy, Debug, PartialEq, Eq, Structural)]
pub enum Shape {
    Wall,
    Ground,
}

/// Whether `(x, y)` lies on the outer ring of a `w` by `h` board.
pub open spec fn on_border(w: int, h: int, x: int, y: int) -> bool {
    x == 0 || x == w - 1 || y == 0 || y == h - 1
}

/// What the cell `(x, y)` of a `w` by `h` board is.
pub open spec fn shape_at(w: int, h: int, x: int, y: int) -> Shape {
    if on_border(w, h, x, y) {
        Shape::Wall
    } else {
        Shape::Ground
    }
}

/// A rectangular board: the outer ring is wall, every other cell is ground.
/// It never changes once built.
pub struct Grid {
    width: usize,
    height: usize,
    rows: Vec<Vec<Shape>>,
}

impl Grid {
    pub closed spec fn spec_width(&self) -> int {
        self.width as int
    }

    pub closed spec fn spec_height(&self) -> int {
        self.height as int
    }

    /// The stored cells are those of `shape_at`.
    pub closed spec fn cells_match(&self) -> bool {
        &&& self.rows@.len() == self.height
        &&& forall|y: int| 0 <= y < self.height ==> #[trigger] self.rows@[y]@.len() == self.width
        &&& forall|x: int, y: int|
            0 <= x < self.width && 0 <= y < self.height ==> #[trigger] self.rows@[y]@[x]
                == shape_at(self.width as int, self.height as int, x, y)
    }

    pub open spec fn wf(&self) -> bool {
        &&& 3 <= self.spec_width() <= MAX_SIDE
        &&& 3 <= self.spec_height() <= MAX_SIDE
        &&& self.cells_match()
    }

    /// Whether `(x, y)` is a cell of this board.
    pub open spec fn contains(&self, x: int, y: int) -> bool {
        0 <= x < self.spec_width() && 0 <= y < self.spec_height()
    }

    /// Builds the `width` by `height` board.
    pub fn build(width: usize, height: usize) -> (g: Grid)
        requires
            3 <= width <= MAX_SIDE,
            3 <= height <= MAX_SIDE,
        ensures
            g.wf(),
            g.spec_width() == width,
            g.spec_height() == height,
    {
        let mut rows: Vec<Vec<Shape>> = Vec::new();
        let mut y: usize = 0;
        while y < height
            invariant
                y <= height,
                rows@.len() == y,
                forall|j: int| 0 <= j < y ==> #[trigger] rows@[j]@.len() == width,
                forall|i: int, j: int|
                    0 <= i < width && 0 <= j < y ==> #[trigger] rows@[j]@[i] == shape_at(
                        width as int,
                        height as int,
                        i,
                        j,
                    ),
            decreases height - y,
        {
            let mut row: Vec<Shape> = Vec::new();
            let mut x: usize = 0;
            while x < width
                invariant
                    x <= width,
                    y < height,
                    row@.len() == x,
                    forall|i: int|
                        0 <= i < x ==> #[trigger] row@[i] == shape_at(
                            width as int,
                            height as int,
                            i,
                            y as int,
                        ),
                decreases width - x,
            {
                if x == 0 || x == width - 1 || y == 0 || y == height - 1 {
                    row.push(Shape::Wall);
                } else {
                    row.push(Shape::Ground);
                }
                x = x + 1;
            }
            rows.push(row);
            y = y + 1;
        }
        Grid { width, height, rows }
    }

    pub fn width(&self) -> (r: usize)
        ensures
            r == self.spec_width(),
    {
        self.width
    }

    pub fn height(&self) -> (r: usize)
        ensures
            r == self.spec_height(),
    {
        self.height
    }

    /// What the cell `(x, y)` is.
    pub fn classify(&self, x: usize, y: usize) -> (r: Shape)
        requires
            self.wf(),
            self.contains(x as int, y as int),
        ensures
            r == shape_at(self.spec_width(), self.spec_height(), x as int, y as int),
    {
        self.rows[y][x]
    }
}

} // verus!
