use snake_q::food::{free_cells, is_free_cell, place_food};
use snake_q::game::{decay, Game, HEIGHT, START_INTERVAL_US, WIDTH};
use snake_q::grid::{Grid, Shape};
use snake_q::snake::{is_opposite, Collision, Direction, Point, Snake, TickResult};

fn p(x: isize, y: isize) -> Point {
    Point::new(x, y)
}

fn start_snake() -> Snake {
    Snake::new(vec![p(2, 5), p(2, 4), p(2, 3)], Direction::Right)
}

#[test]
fn grid_ring_is_wall_and_inside_is_ground() {
    for (w, h) in [(3usize, 3usize), (15, 10), (4, 7)] {
        let g = Grid::build(w, h);
        assert_eq!(g.width(), w);
        assert_eq!(g.height(), h);
        for y in 0..h {
            for x in 0..w {
                let border = x == 0 || x == w - 1 || y == 0 || y == h - 1;
                let expected = if border { Shape::Wall } else { Shape::Ground };
                assert_eq!(g.classify(x, y), expected);
            }
        }
    }
}

#[test]
fn smallest_grid_has_one_ground_cell() {
    let g = Grid::build(3, 3);
    assert_eq!(g.classify(1, 1), Shape::Ground);
    assert_eq!(g.classify(0, 1), Shape::Wall);
    assert_eq!(g.classify(2, 2), Shape::Wall);
}

#[test]
fn opposite_pairs() {
    let all = [Direction::Right, Direction::Down, Direction::Left, Direction::Up];
    for a in all {
        for b in all {
            let expected = matches!((a, b), (Direction::Left, Direction::Right)
                    | (Direction::Right, Direction::Left)
                    | (Direction::Up, Direction::Down)
                    | (Direction::Down, Direction::Up));
            assert_eq!(is_opposite(a, b), expected);
        }
    }
}

#[test]
fn heading_changes_unless_opposite() {
    let all = [Direction::Right, Direction::Down, Direction::Left, Direction::Up];
    for d in all {
        for r in all {
            let mut s = Snake::new(vec![p(5, 5), p(4, 5), p(3, 5)], d);
            s.set_heading(r);
            let expected = if is_opposite(d, r) { d } else { r };
            assert_eq!(s.direction(), expected);
            assert_eq!(s.segments(), vec![p(5, 5), p(4, 5), p(3, 5)]);
        }
    }
}

#[test]
fn reversing_onto_the_neck_is_rejected() {
    let mut s = Snake::new(vec![p(5, 5), p(4, 5), p(3, 5)], Direction::Left);
    s.set_heading(Direction::Right);
    assert_eq!(s.direction(), Direction::Left);
}

#[test]
fn repeated_heading_request_is_idempotent() {
    let mut s = start_snake();
    s.set_heading(Direction::Up);
    s.set_heading(Direction::Up);
    assert_eq!(s.direction(), Direction::Up);
    s.set_heading(Direction::Down);
    assert_eq!(s.direction(), Direction::Up);
}

#[test]
fn one_tick_without_food_shifts_the_body() {
    let g = Grid::build(15, 10);
    let mut s = start_snake();
    let r = s.tick(&g, p(10, 2));
    assert_eq!(r, TickResult::Continue);
    assert_eq!(s.segments(), vec![p(3, 5), p(2, 5), p(2, 4)]);
    assert_eq!(s.len(), 3);
    assert_eq!(s.head(), p(3, 5));
}

#[test]
fn each_heading_moves_the_head_one_cell() {
    let g = Grid::build(15, 10);
    let cases = [
        (Direction::Right, p(6, 5)),
        (Direction::Down, p(5, 6)),
        (Direction::Left, p(4, 5)),
        (Direction::Up, p(5, 4)),
    ];
    for (d, head) in cases {
        let mut s = Snake::new(vec![p(5, 5)], d);
        assert_eq!(s.tick(&g, p(1, 1)), TickResult::Continue);
        assert_eq!(s.segments(), vec![head]);
    }
}

#[test]
fn tick_onto_food_grows_by_one() {
    let g = Grid::build(15, 10);
    let mut s = start_snake();
    let r = s.tick(&g, p(3, 5));
    assert_eq!(r, TickResult::AteFood);
    assert_eq!(s.segments(), vec![p(3, 5), p(2, 5), p(2, 4), p(2, 3)]);
}

#[test]
fn eating_raises_score_and_speeds_up() {
    let g = Grid::build(15, 10);
    let mut game = Game::from_parts(g, start_snake(), p(3, 5));
    assert_eq!(game.interval_us(), START_INTERVAL_US);
    let r = game.advance();
    assert_eq!(r, TickResult::AteFood);
    assert_eq!(game.snake().segments(), vec![p(3, 5), p(2, 5), p(2, 4), p(2, 3)]);
    assert_eq!(game.score(), 1);
    assert_eq!(START_INTERVAL_US, 300_000);
    assert_eq!(game.interval_us(), 270_000);
    assert!(!game.is_over());
    let f = game.food();
    assert_eq!(game.grid().classify(f.x as usize, f.y as usize), Shape::Ground);
    assert!(!game.snake().occupies(f));
}

#[test]
fn decay_keeps_nine_tenths_rounded_up() {
    assert_eq!(decay(300_000), 270_000);
    assert_eq!(decay(270_000), 243_000);
    assert_eq!(decay(15), 14);
    assert_eq!(decay(9), 9);
    assert_eq!(decay(0), 0);
}

#[test]
fn moving_into_own_body_is_self_collision() {
    let g = Grid::build(15, 10);
    let body = vec![p(5, 5), p(5, 6), p(4, 6), p(4, 5), p(4, 4)];
    let mut game = Game::from_parts(g, Snake::new(body, Direction::Left), p(10, 2));
    let r = game.advance();
    assert_eq!(r, TickResult::GameOver(Collision::SelfCollision));
    assert!(game.is_over());
    assert_eq!(game.score(), 0);
    assert_eq!(game.interval_us(), START_INTERVAL_US);
    assert_eq!(game.snake().len(), 5);
}

#[test]
fn moving_into_the_vacated_tail_is_allowed() {
    let g = Grid::build(15, 10);
    let body = vec![p(5, 5), p(5, 6), p(4, 6), p(4, 5)];
    let mut s = Snake::new(body, Direction::Left);
    assert_eq!(s.tick(&g, p(10, 2)), TickResult::Continue);
    assert_eq!(s.segments(), vec![p(4, 5), p(5, 5), p(5, 6), p(4, 6)]);
}

#[test]
fn heading_into_the_left_wall_ends_the_game() {
    let g = Grid::build(15, 10);
    let mut game = Game::from_parts(g, Snake::new(vec![p(1, 5), p(2, 5), p(3, 5)], Direction::Left), p(10, 2));
    let r = game.advance();
    assert_eq!(r, TickResult::GameOver(Collision::WallCollision));
    assert!(game.is_over());
}

#[test]
fn every_wall_stops_the_snake() {
    let g = Grid::build(15, 10);
    let cases = [
        (p(13, 4), Direction::Right),
        (p(6, 8), Direction::Down),
        (p(1, 3), Direction::Left),
        (p(7, 1), Direction::Up),
    ];
    for (head, d) in cases {
        let mut s = Snake::new(vec![head], d);
        assert_eq!(s.tick(&g, p(5, 5)), TickResult::GameOver(Collision::WallCollision));
    }
}

#[test]
fn collision_reasons_differ() {
    let a = Collision::SelfCollision.reason();
    let b = Collision::WallCollision.reason();
    assert!(!a.is_empty());
    assert!(!b.is_empty());
    assert_ne!(a, b);
}

#[test]
fn free_cells_are_ground_and_off_body() {
    let g = Grid::build(5, 4);
    let s = Snake::new(vec![p(1, 1), p(2, 1)], Direction::Left);
    assert_eq!(free_cells(&g, &s), vec![p(3, 1), p(1, 2), p(2, 2), p(3, 2)]);
    assert!(is_free_cell(&g, &s, 3, 2));
    assert!(!is_free_cell(&g, &s, 1, 1));
    assert!(!is_free_cell(&g, &s, 0, 2));
}

#[test]
fn food_lands_on_a_free_cell() {
    let g = Grid::build(15, 10);
    let s = start_snake();
    for _ in 0..200 {
        let f = place_food(&g, &s).unwrap();
        assert!(is_free_cell(&g, &s, f.x as usize, f.y as usize));
    }
}

#[test]
fn food_on_a_nearly_full_board_takes_the_last_cell() {
    let g = Grid::build(4, 4);
    let s = Snake::new(vec![p(1, 1), p(2, 1), p(2, 2)], Direction::Left);
    for _ in 0..20 {
        assert_eq!(place_food(&g, &s), Some(p(1, 2)));
    }
}

#[test]
fn no_food_when_the_board_is_full() {
    let g = Grid::build(3, 3);
    let s = Snake::new(vec![p(1, 1)], Direction::Left);
    assert_eq!(place_food(&g, &s), None);
}

#[test]
fn eating_the_last_free_cell_ends_the_session() {
    let g = Grid::build(4, 3);
    let mut game = Game::from_parts(g, Snake::new(vec![p(1, 1)], Direction::Right), p(2, 1));
    assert_eq!(game.advance(), TickResult::AteFood);
    assert_eq!(game.score(), 1);
    assert!(game.is_over());
}

#[test]
fn new_game_starts_in_the_standard_state() {
    let game = Game::new();
    assert_eq!(game.grid().width(), WIDTH);
    assert_eq!(game.grid().height(), HEIGHT);
    assert_eq!(game.snake().segments(), vec![p(2, 5), p(2, 4), p(2, 3)]);
    assert_eq!(game.snake().direction(), Direction::Right);
    assert_eq!(game.score(), 0);
    assert!(!game.is_over());
    let f = game.food();
    assert!(is_free_cell(game.grid(), game.snake(), f.x as usize, f.y as usize));
}

#[test]
fn frame_waits_for_the_interval() {
    let g = Grid::build(15, 10);
    let mut game = Game::from_parts(g, start_snake(), p(10, 2));
    assert_eq!(game.frame(None, false, 299_999), None);
    assert_eq!(game.snake().head(), p(2, 5));
    assert_eq!(game.frame(None, false, 300_000), Some(TickResult::Continue));
    assert_eq!(game.snake().head(), p(3, 5));
}

#[test]
fn frame_applies_the_turn_before_the_tick() {
    let g = Grid::build(15, 10);
    let mut game = Game::from_parts(g, start_snake(), p(10, 2));
    assert_eq!(game.frame(Some(Direction::Down), false, 400_000), Some(TickResult::Continue));
    assert_eq!(game.snake().head(), p(2, 6));
    assert_eq!(game.frame(Some(Direction::Up), false, 400_000), Some(TickResult::Continue));
    assert_eq!(game.snake().head(), p(2, 7));
}

#[test]
fn quit_ends_the_session_and_nothing_moves_after() {
    let g = Grid::build(15, 10);
    let mut game = Game::from_parts(g, start_snake(), p(10, 2));
    assert_eq!(game.frame(Some(Direction::Down), true, 400_000), None);
    assert!(game.is_over());
    assert_eq!(game.snake().segments(), vec![p(2, 5), p(2, 4), p(2, 3)]);
    assert_eq!(game.frame(Some(Direction::Down), false, 400_000), None);
    assert_eq!(game.snake().direction(), Direction::Right);
    game.set_heading(Direction::Up);
    assert_eq!(game.snake().direction(), Direction::Right);
}

#[test]
fn free_cells_depend_only_on_occupied_cells() {
    let g = Grid::build(6, 5);
    let a = Snake::new(vec![p(2, 2), p(3, 2), p(3, 3)], Direction::Left);
    let b = Snake::new(vec![p(3, 3), p(2, 2), p(3, 2), p(2, 2)], Direction::Up);
    let fa = free_cells(&g, &a);
    assert_eq!(fa, free_cells(&g, &b));
    assert_eq!(fa.len(), 12 - 3);
    assert_eq!(fa[0], p(1, 1));
    assert_eq!(fa[fa.len() - 1], p(4, 3));
}

#[test]
fn frame_that_eats_updates_score_pace_and_food() {
    let g = Grid::build(15, 10);
    let mut game = Game::from_parts(g, start_snake(), p(3, 5));
    assert_eq!(game.frame(None, false, 300_000), Some(TickResult::AteFood));
    assert_eq!(game.snake().segments(), vec![p(3, 5), p(2, 5), p(2, 4), p(2, 3)]);
    assert_eq!(game.score(), 1);
    assert_eq!(game.interval_us(), 270_000);
    assert_ne!(game.food(), p(3, 5));
    assert!(!game.snake().occupies(game.food()));
}
