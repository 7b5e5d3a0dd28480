use snake_game::geom::{Dir, Point};
use snake_game::snake::{Key, Snake};
use snake_game::food::{Food, FoodType, APPLE_LIFETIME, APPLE_SCORE, CANDY_LIFETIME, CANDY_SCORE};
use snake_game::level::{catalog, level1, level2};
use snake_game::game::{
    classify, step_snake, Game, State, Tile, TileKind, Vitality, SPEEDUP_MILLIS, TICK_MILLIS,
};

fn pt(x: i8, y: i8) -> Point {
    Point { x, y }
}

fn apple_at(x: i8, y: i8) -> Food {
    Food {
        kind: FoodType::Apple,
        xy: pt(x, y),
        score: APPLE_SCORE,
        life_time: APPLE_LIFETIME,
        lived_time: 0,
    }
}

fn candy_at(x: i8, y: i8) -> Food {
    Food {
        kind: FoodType::Candy,
        xy: pt(x, y),
        score: CANDY_SCORE,
        life_time: CANDY_LIFETIME,
        lived_time: 0,
    }
}

/// A session on an open board (no walls), the two snakes placed apart and
/// both heading down, fully under the test's control.
fn open_board_game() -> Game {
    Game {
        snakes: vec![
            Snake::new(vec![pt(2, 3), pt(2, 2), pt(2, 1)], Dir::Down),
            Snake::new(vec![pt(4, 3), pt(4, 2), pt(4, 1)], Dir::Down),
        ],
        time: TICK_MILLIS,
        update_time: TICK_MILLIS,
        state: State::Playing,
        walls: Vec::new(),
        invisible_walls: Vec::new(),
        food: Vec::new(),
        score: 0,
    }
}

/// A session where both snakes face a wall and die on the next tick.
fn doomed_game() -> Game {
    let mut g = open_board_game();
    g.walls = vec![pt(2, 4), pt(4, 4)];
    g
}

#[test]
fn new_session_starts_fresh() {
    let g = Game::new();
    assert_eq!(g.state, State::Playing);
    assert_eq!(g.score, 0);
    assert_eq!(g.time, TICK_MILLIS);
    assert_eq!(g.update_time, TICK_MILLIS);
    assert_eq!(g.food.len(), 0);
    assert_eq!(g.snakes.len(), 2);
    assert_eq!(g.snakes[0].body, vec![pt(2, 3), pt(2, 2), pt(2, 1)]);
    assert_eq!(g.snakes[1].body, vec![pt(4, 3), pt(4, 2), pt(4, 1)]);
    assert_eq!(g.snakes[0].last_dir, Dir::Down);
    assert_eq!(g.snakes[1].last_dir, Dir::Down);
    assert!(g.walls.len() == 49 || g.walls.len() == 22);
}

#[test]
fn catalog_levels_have_their_shapes() {
    let l1 = level1();
    assert_eq!(l1.walls.len(), 49);
    assert_eq!(l1.invisible_walls.len(), 8);
    assert_eq!(l1.snakes.len(), 2);
    let l2 = level2();
    assert_eq!(l2.walls.len(), 22);
    assert_eq!(l2.invisible_walls.len(), 0);
    for s in l1.snakes.iter() {
        assert_eq!(s.body.len(), 3);
        assert_eq!(s.keys.len(), 0);
        for p in s.body.iter() {
            assert!(!l1.walls.contains(p));
        }
    }
    for s in l2.snakes.iter() {
        for p in s.body.iter() {
            assert!(!l2.walls.contains(p));
        }
    }
}

#[test]
fn catalog_maps_each_draw_to_its_layout() {
    let l1 = catalog(0);
    assert_eq!(l1.walls, level1().walls);
    assert_eq!(l1.invisible_walls, level1().invisible_walls);
    let l2 = catalog(1);
    assert_eq!(l2.walls, level2().walls);
    assert_eq!(l2.invisible_walls.len(), 0);
}

#[test]
fn classify_wall_is_dead() {
    let s = Snake::new(vec![pt(2, 3)], Dir::Down);
    let walls: Vec<Point> = vec![pt(2, 4)];
    assert_eq!(classify(pt(2, 4), &walls, &s), Vitality::Dead);
    assert_eq!(classify(pt(2, 5), &walls, &s), Vitality::Alive);
}

#[test]
fn classify_self_collision_is_dead() {
    // A next head cell equal to any existing body cell is lethal.
    let s = Snake::new(vec![pt(2, 3), pt(2, 2), pt(2, 1)], Dir::Down);
    let walls: Vec<Point> = Vec::new();
    assert_eq!(classify(pt(2, 2), &walls, &s), Vitality::Dead);
    assert_eq!(classify(pt(2, 1), &walls, &s), Vitality::Dead);
    assert_eq!(classify(pt(2, 4), &walls, &s), Vitality::Alive);
}

#[test]
fn step_snake_eats_apple_and_grows() {
    // Body [(2,2),(2,1),(2,0)] heading down onto an apple worth 10 at
    // (2,3): body gains exactly one cell, score gains 10, the tick interval
    // shrinks by the fixed decrement, and the apple is gone.
    let mut snake = Snake::new(vec![pt(2, 2), pt(2, 1), pt(2, 0)], Dir::Down);
    let walls: Vec<Point> = Vec::new();
    let mut food: Vec<Food> = vec![apple_at(2, 3)];
    let mut score: u32 = 0;
    let mut update_time: u32 = TICK_MILLIS;
    let dead = step_snake(&mut snake, &walls, &mut food, &mut score, &mut update_time);
    assert!(!dead);
    assert_eq!(snake.body, vec![pt(2, 3), pt(2, 2), pt(2, 1), pt(2, 0)]);
    assert_eq!(snake.body.len(), 4);
    assert_eq!(score, 10);
    assert_eq!(update_time, TICK_MILLIS - SPEEDUP_MILLIS);
    assert_eq!(food.len(), 0);
}

#[test]
fn step_snake_eats_candy_for_fifty() {
    let mut snake = Snake::new(vec![pt(6, 6)], Dir::Right);
    let walls: Vec<Point> = Vec::new();
    let mut food: Vec<Food> = vec![apple_at(9, 9), candy_at(7, 6)];
    let mut score: u32 = 3;
    let mut update_time: u32 = 100;
    let dead = step_snake(&mut snake, &walls, &mut food, &mut score, &mut update_time);
    assert!(!dead);
    assert_eq!(score, 53);
    assert_eq!(update_time, 98);
    assert_eq!(food.len(), 1);
    assert_eq!(food[0].kind, FoodType::Apple);
}

#[test]
fn step_snake_moves_without_food() {
    let mut snake = Snake::new(vec![pt(2, 2), pt(2, 1), pt(2, 0)], Dir::Down);
    let walls: Vec<Point> = Vec::new();
    let mut food: Vec<Food> = Vec::new();
    let mut score: u32 = 0;
    let mut update_time: u32 = TICK_MILLIS;
    let dead = step_snake(&mut snake, &walls, &mut food, &mut score, &mut update_time);
    assert!(!dead);
    assert_eq!(snake.body, vec![pt(2, 3), pt(2, 2), pt(2, 1)]);
    assert_eq!(score, 0);
    assert_eq!(update_time, TICK_MILLIS);
}

#[test]
fn step_snake_self_bite_freezes_snake() {
    let mut snake = Snake::new(vec![pt(2, 3), pt(2, 2), pt(2, 1)], Dir::Down);
    snake.enqueue_direction(Key::Up);
    let walls: Vec<Point> = Vec::new();
    let mut food: Vec<Food> = Vec::new();
    let mut score: u32 = 0;
    let mut update_time: u32 = TICK_MILLIS;
    let dead = step_snake(&mut snake, &walls, &mut food, &mut score, &mut update_time);
    assert!(dead);
    assert_eq!(snake.body, vec![pt(2, 3), pt(2, 2), pt(2, 1)]);
}

#[test]
fn step_snake_wraps_around_the_board() {
    // Head at (14, 7) moving rightward with no wall at (0, 7): the snake
    // survives and its head reappears at (0, 7).
    let mut snake = Snake::new(vec![pt(14, 7)], Dir::Right);
    let walls: Vec<Point> = Vec::new();
    let mut food: Vec<Food> = Vec::new();
    let mut score: u32 = 0;
    let mut update_time: u32 = TICK_MILLIS;
    let dead = step_snake(&mut snake, &walls, &mut food, &mut score, &mut update_time);
    assert!(!dead);
    assert_eq!(snake.body, vec![pt(0, 7)]);
}

#[test]
fn tick_moves_both_snakes_in_order() {
    let mut g = open_board_game();
    g.tick();
    assert_eq!(g.state, State::Playing);
    assert_eq!(g.snakes[0].body, vec![pt(2, 4), pt(2, 3), pt(2, 2)]);
    assert_eq!(g.snakes[1].body, vec![pt(4, 4), pt(4, 3), pt(4, 2)]);
}

#[test]
fn tick_with_one_dead_snake_keeps_playing() {
    let mut g = open_board_game();
    g.walls = vec![pt(2, 4)];
    g.tick();
    assert_eq!(g.state, State::Playing);
    assert_eq!(g.snakes[0].body, vec![pt(2, 3), pt(2, 2), pt(2, 1)]);
    assert_eq!(g.snakes[1].body, vec![pt(4, 4), pt(4, 3), pt(4, 2)]);
}

#[test]
fn game_over_when_both_snakes_die_together() {
    let mut g = doomed_game();
    g.tick();
    assert_eq!(g.state, State::GameOver);
    assert_eq!(g.snakes[0].body, vec![pt(2, 3), pt(2, 2), pt(2, 1)]);
    assert_eq!(g.snakes[1].body, vec![pt(4, 3), pt(4, 2), pt(4, 1)]);
}

#[test]
fn game_over_is_terminal_until_restart() {
    // Once both snakes die in the same step the session stays over: update
    // becomes a no-op and only restart leaves the state.
    let mut g = doomed_game();
    g.update(TICK_MILLIS + 1);
    assert_eq!(g.state, State::GameOver);
    let score_after = g.score;
    let body_after = g.snakes[0].body.clone();
    g.update(10_000);
    g.update(10_000);
    assert_eq!(g.state, State::GameOver);
    assert_eq!(g.score, score_after);
    assert_eq!(g.snakes[0].body, body_after);
    g.key_press(Key::Pause);
    assert_eq!(g.state, State::GameOver);
    g.key_press(Key::Restart);
    assert_eq!(g.state, State::Playing);
}

#[test]
fn restart_resets_everything() {
    let mut g = open_board_game();
    g.score = 77;
    g.update_time = 90;
    g.time = 33;
    g.state = State::Paused;
    g.food = vec![apple_at(5, 5)];
    g.key_press(Key::Restart);
    assert_eq!(g.state, State::Playing);
    assert_eq!(g.score, 0);
    assert_eq!(g.update_time, TICK_MILLIS);
    assert_eq!(g.time, TICK_MILLIS);
    assert_eq!(g.food.len(), 0);
    assert_eq!(g.snakes.len(), 2);
    assert_eq!(g.snakes[0].body, vec![pt(2, 3), pt(2, 2), pt(2, 1)]);
    assert_eq!(g.snakes[1].body, vec![pt(4, 3), pt(4, 2), pt(4, 1)]);
    assert!(g.walls.len() == 49 || g.walls.len() == 22);
}

#[test]
fn pause_toggles_and_freezes_time() {
    let mut g = open_board_game();
    g.key_press(Key::Pause);
    assert_eq!(g.state, State::Paused);
    let time_before = g.time;
    g.update(10_000);
    assert_eq!(g.time, time_before);
    assert_eq!(g.snakes[0].body, vec![pt(2, 3), pt(2, 2), pt(2, 1)]);
    g.key_press(Key::Pause);
    assert_eq!(g.state, State::Playing);
}

#[test]
fn directional_key_reaches_both_snakes() {
    let mut g = open_board_game();
    g.key_press(Key::Left);
    assert_eq!(g.snakes[0].keys, vec![Dir::Left]);
    assert_eq!(g.snakes[1].keys, vec![Dir::Left]);
    g.key_press(Key::Up);
    assert_eq!(g.snakes[0].keys, vec![Dir::Left, Dir::Up]);
    assert_eq!(g.snakes[1].keys, vec![Dir::Left, Dir::Up]);
    assert_eq!(g.state, State::Playing);
}

#[test]
fn update_accumulates_below_threshold() {
    let mut g = open_board_game();
    g.time = 0;
    g.update(100);
    assert_eq!(g.time, 100);
    assert_eq!(g.snakes[0].body, vec![pt(2, 3), pt(2, 2), pt(2, 1)]);
    g.update(50);
    assert_eq!(g.time, TICK_MILLIS);
    assert_eq!(g.snakes[0].body, vec![pt(2, 3), pt(2, 2), pt(2, 1)]);
}

#[test]
fn update_keeps_fractional_overshoot() {
    let mut g = open_board_game();
    g.time = 0;
    g.update(TICK_MILLIS + 7);
    assert_eq!(g.time, 7);
    assert_eq!(g.snakes[0].body, vec![pt(2, 4), pt(2, 3), pt(2, 2)]);
}

#[test]
fn tiles_are_blank_after_game_over() {
    let mut g = doomed_game();
    g.tick();
    assert_eq!(g.state, State::GameOver);
    let tiles: Vec<Tile> = g.tiles_to_draw();
    assert_eq!(tiles.len(), 0);
}

#[test]
fn tiles_cover_food_snakes_and_walls_in_order() {
    let mut g = open_board_game();
    g.walls = vec![pt(7, 7)];
    g.food = vec![apple_at(5, 5)];
    let tiles: Vec<Tile> = g.tiles_to_draw();
    assert_eq!(tiles.len(), 1 + 3 + 3 + 1);
    assert_eq!(tiles[0].kind, TileKind::Food(FoodType::Apple));
    assert_eq!(tiles[0].pos, pt(5, 5));
    assert!(tiles[0].visible);
    assert_eq!(tiles[1].kind, TileKind::SnakeBody);
    assert_eq!(tiles[1].pos, pt(2, 3));
    assert_eq!(tiles[4].pos, pt(4, 3));
    assert_eq!(tiles[7].kind, TileKind::Wall);
    assert_eq!(tiles[7].pos, pt(7, 7));
}

#[test]
fn blinking_food_tile_carries_its_flag() {
    let mut g = open_board_game();
    let mut a = apple_at(5, 5);
    a.lived_time = 40;
    g.food = vec![a];
    let tiles: Vec<Tile> = g.tiles_to_draw();
    assert_eq!(tiles[0].kind, TileKind::Food(FoodType::Apple));
    assert!(!tiles[0].visible);
}

#[test]
fn eating_through_a_full_update_scores() {
    let mut g = open_board_game();
    g.food = vec![apple_at(2, 4)];
    g.time = 0;
    g.update(TICK_MILLIS + 1);
    assert_eq!(g.score, 10);
    assert_eq!(g.update_time, TICK_MILLIS - SPEEDUP_MILLIS);
    assert_eq!(g.snakes[0].body.len(), 4);
    assert_eq!(g.snakes[0].body[0], pt(2, 4));
    // The eaten apple is gone from the food list.
    let mut i: usize = 0;
    while i < g.food.len() {
        assert!(g.food[i].xy != pt(2, 4) || g.food[i].lived_time > 0);
        i += 1;
    }
}
