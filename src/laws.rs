use vstd::prelude::*;
use crate::food::{in_row_order, is_free, lists_free_cells, precedes};
use crate::grid::{on_border, Grid};
use crate::snake::{moved_body, opposite, step, tick_outcome, Collision, Direction, Point, TickResult};

verus! {

/// The opposite headings come in the two pairs Left/Right and Up/Down, and
/// reversing twice gives the heading back.
pub proof fn lemma_opposite_pairs(d: Direction)
    ensures
        opposite(opposite(d)) == d,
        opposite(d) != d,
        (opposite(d) == Direction::Left) <==> (d == Direction::Right),
        (opposite(d) == Direction::Up) <==> (d == Direction::Down),
{
}

/// A move that does not land on food keeps the length of the body; the head
/// goes one step along the heading and every other segment takes the place
/// that the segment ahead of it held before the move.
pub proof fn lemma_move_shifts_body(body: Seq<Point>, d: Direction, food: Point)
    requires
        body.len() >= 1,
        step(body[0], d) != food,
    ensures
        moved_body(body, d, food).len() == body.len(),
        moved_body(body, d, food)[0] == step(body[0], d),
        forall|i: int| 1 <= i < body.len() ==> #[trigger] moved_body(body, d, food)[i] == body[i - 1],
{
}

/// A move that lands on food lengthens the body by exactly one: the head is
/// the food's cell and the whole old body follows it.
pub proof fn lemma_move_onto_food_grows(body: Seq<Point>, d: Direction, food: Point)
    requires
        body.len() >= 1,
        step(body[0], d) == food,
    ensures
        moved_body(body, d, food).len() == body.len() + 1,
        moved_body(body, d, food)[0] == food,
        forall|i: int| 1 <= i <= body.len() ==> #[trigger] moved_body(body, d, food)[i] == body[i - 1],
{
}

/// When the cell ahead of the head is held by a segment behind the head
/// other than the tail, which moves away, and holds no food, the tick ends
/// the game with a self-collision and the body does not grow.
pub proof fn lemma_self_collision(w: int, h: int, body: Seq<Point>, d: Direction, food: Point)
    requires
        body.len() >= 1,
        exists|i: int| 1 <= i < body.len() - 1 && #[trigger] body[i] == step(body[0], d),
        step(body[0], d) != food,
    ensures
        tick_outcome(w, h, body, d, food) == TickResult::GameOver(Collision::SelfCollision),
        moved_body(body, d, food).len() == body.len(),
{
    let next = step(body[0], d);
    let i = choose|i: int| 1 <= i < body.len() - 1 && body[i] == next;
    let nb = moved_body(body, d, food);
    let rest = nb.subrange(1, nb.len() as int);
    assert(nb[i + 1] == body[i]);
    assert(rest[i] == next);
}

/// When the head is on ground next to a wall and heads into it, the tick ends
/// the game with a wall collision, provided no segment already holds that
/// wall cell.
pub proof fn lemma_wall_collision(w: int, h: int, body: Seq<Point>, d: Direction, food: Point)
    requires
        w >= 3,
        h >= 3,
        body.len() >= 1,
        0 < body[0].x < w - 1,
        0 < body[0].y < h - 1,
        on_border(w, h, step(body[0], d).x as int, step(body[0], d).y as int),
        !body.contains(step(body[0], d)),
    ensures
        tick_outcome(w, h, body, d, food) == TickResult::GameOver(Collision::WallCollision),
{
    let next = step(body[0], d);
    let nb = moved_body(body, d, food);
    let rest = nb.subrange(1, nb.len() as int);
    if rest.contains(next) {
        let k = choose|k: int| 0 <= k < rest.len() && rest[k] == next;
        assert(nb[k + 1] == body[k]);
        assert(body.contains(next));
    }
}

/// Two lists in strictly increasing row-by-row order that hold the same
/// cells are the same list.
pub proof fn lemma_row_order_determined(a: Seq<Point>, b: Seq<Point>)
    requires
        in_row_order(a),
        in_row_order(b),
        forall|p: Point| a.contains(p) == b.contains(p),
    ensures
        a == b,
    decreases a.len(),
{
    if a.len() == 0 {
        if b.len() > 0 {
            assert(b.contains(b[0]));
        }
        assert(a =~= b);
    } else {
        assert(a.contains(a[0]));
        assert(b.len() > 0);
        assert(b.contains(b[0]));
        let j = choose|j: int| 0 <= j < b.len() && b[j] == a[0];
        let i = choose|i: int| 0 <= i < a.len() && a[i] == b[0];
        if i > 0 && j > 0 {
            assert(precedes(a[0], a[i]));
            assert(precedes(b[0], b[j]));
        }
        assert(a[0] == b[0]);
        let ta = a.drop_first();
        let tb = b.drop_first();
        assert forall|p: Point| ta.contains(p) == tb.contains(p) by {
            if ta.contains(p) {
                let k = choose|k: int| 0 <= k < ta.len() && ta[k] == p;
                assert(precedes(a[0], a[k + 1]));
                assert(a.contains(p));
                let m = choose|m: int| 0 <= m < b.len() && b[m] == p;
                assert(m != 0);
                assert(tb[m - 1] == p);
            }
            if tb.contains(p) {
                let k = choose|k: int| 0 <= k < tb.len() && tb[k] == p;
                assert(precedes(b[0], b[k + 1]));
                assert(b.contains(p));
                let m = choose|m: int| 0 <= m < a.len() && a[m] == p;
                assert(m != 0);
                assert(ta[m - 1] == p);
            }
        }
        assert forall|x: int, y: int| 0 <= x < y < ta.len() implies precedes(
            #[trigger] ta[x],
            #[trigger] ta[y],
        ) by {
            assert(precedes(a[x + 1], a[y + 1]));
        }
        assert forall|x: int, y: int| 0 <= x < y < tb.len() implies precedes(
            #[trigger] tb[x],
            #[trigger] tb[y],
        ) by {
            assert(precedes(b[x + 1], b[y + 1]));
        }
        lemma_row_order_determined(ta, tb);
        assert forall|k: int| 0 < k < a.len() implies a[k] == b[k] by {
            assert(a[k] == ta[k - 1] && b[k] == tb[k - 1]);
        }
        assert(a =~= b);
    }
}

/// The list of free cells depends on the snake only through the set of cells
/// it holds: two snakes on the same board that hold the same cells, in any
/// order or multiplicity, have the same free cells listed in the same order.
pub proof fn lemma_free_cells_depend_on_occupied_set(
    g: &Grid,
    b1: Seq<Point>,
    b2: Seq<Point>,
    r1: Seq<Point>,
    r2: Seq<Point>,
)
    requires
        forall|p: Point| b1.contains(p) == b2.contains(p),
        lists_free_cells(g, b1, r1),
        lists_free_cells(g, b2, r2),
    ensures
        r1 == r2,
{
    assert forall|p: Point| r1.contains(p) == r2.contains(p) by {
        if r1.contains(p) {
            let k = choose|k: int| 0 <= k < r1.len() && r1[k] == p;
            assert(is_free(g, b1, r1[k]));
            assert(is_free(g, b2, p));
        }
        if r2.contains(p) {
            let k = choose|k: int| 0 <= k < r2.len() && r2[k] == p;
            assert(is_free(g, b2, r2[k]));
            assert(is_free(g, b1, p));
        }
    }
    lemma_row_order_determined(r1, r2);
}

} // verus!
