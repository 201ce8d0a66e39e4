use rusty_snake::action::Action;
use rusty_snake::game::{
    Direction, Game, GameStatus, Keys, Point, EATING_SPEED, FOOD_TILE_MAX, FOOD_TILE_MIN, START_SPEED, TILE_SIZE,
};

fn p(x: i32, y: i32) -> Point {
    Point { x, y }
}

fn no_keys() -> Keys {
    Keys { up: false, down: false, left: false, right: false }
}

fn is_food_cell(q: Point) -> bool {
    let lo = FOOD_TILE_MIN * TILE_SIZE;
    let hi = FOOD_TILE_MAX * TILE_SIZE;
    q.x % TILE_SIZE == 0 && q.y % TILE_SIZE == 0 && lo <= q.x && q.x <= hi && lo <= q.y && q.y <= hi
}

#[test]
fn new_game_is_fresh() {
    let g = Game::new();
    assert_eq!(g.snake, vec![p(200, 200), p(200, 210), p(200, 220), p(200, 230)]);
    assert_eq!(g.direction, Direction::Up);
    assert!(g.running);
    assert!(!g.direction_lock);
    assert_eq!(g.speed, START_SPEED);
    assert_eq!(g.score, 0);
    assert_eq!(g.high_score, 0);
    assert_eq!(g.n_games, 0);
    assert_eq!(g.game_status, GameStatus::Start);
    assert!(is_food_cell(g.food));
    assert!(!g.snake.contains(&g.food));
}

#[test]
fn new_food_avoids_the_snake() {
    let mut g = Game::new();
    g.snake = Vec::new();
    for tx in FOOD_TILE_MIN..=FOOD_TILE_MAX {
        for ty in FOOD_TILE_MIN..=FOOD_TILE_MAX {
            if (tx, ty) != (7, 9) {
                g.snake.push(p(tx * TILE_SIZE, ty * TILE_SIZE));
            }
        }
    }
    assert_eq!(g.new_food(), Some(p(70, 90)));
    g.snake.push(p(70, 90));
    assert_eq!(g.new_food(), None);
}

#[test]
fn new_food_draws_free_cells() {
    let g = Game::new();
    for _ in 0..50 {
        let f = g.new_food().unwrap();
        assert!(is_food_cell(f));
        assert!(!g.snake.contains(&f));
    }
}

#[test]
fn move_snake_shifts_body() {
    let mut g = Game::new();
    g.direction_lock = true;
    g.move_snake();
    assert_eq!(g.snake, vec![p(200, 190), p(200, 200), p(200, 210), p(200, 220)]);
    assert!(!g.direction_lock);
    g.direction = Direction::Right;
    g.move_snake();
    assert_eq!(g.snake[0], p(210, 190));
    assert_eq!(g.snake.len(), 4);
}

#[test]
fn handle_action_ignores_reversal() {
    let mut g = Game::new();
    g.handle_action(&Action::Down);
    assert_eq!(g.direction, Direction::Up);
    g.handle_action(&Action::Left);
    assert_eq!(g.direction, Direction::Left);
    g.handle_action(&Action::Right);
    assert_eq!(g.direction, Direction::Left);
    g.handle_action(&Action::Down);
    assert_eq!(g.direction, Direction::Down);
}

#[test]
fn handle_input_takes_first_allowed_key_and_locks() {
    let mut g = Game::new();
    let keys = Keys { up: false, down: true, left: true, right: true };
    assert_eq!(g.handle_input(keys), Action::Left);
    assert_eq!(g.direction, Direction::Left);
    assert!(g.direction_lock);
    // locked until the next move
    assert_eq!(g.handle_input(Keys { up: true, ..no_keys() }), Action::Left);
    assert_eq!(g.direction, Direction::Left);
    g.move_snake();
    assert_eq!(g.handle_input(Keys { up: true, ..no_keys() }), Action::Up);
}

#[test]
fn handle_input_without_keys_reports_heading() {
    let mut g = Game::new();
    assert_eq!(g.handle_input(no_keys()), Action::Up);
    assert!(!g.direction_lock);
}

#[test]
fn border_collision_stops_game() {
    let mut g = Game::new();
    g.snake[0] = p(10, 10);
    g.collision_with_border();
    assert!(g.running);
    g.snake[0] = p(0, 10);
    g.collision_with_border();
    assert!(!g.running);
    let mut h = Game::new();
    h.snake[0] = p(200, 410);
    h.collision_with_border();
    assert!(!h.running);
}

#[test]
fn self_collision_stops_game() {
    let mut g = Game::new();
    g.collision_with_self();
    assert!(g.running);
    g.snake = vec![p(100, 100), p(110, 100), p(110, 110), p(100, 110), p(100, 100)];
    g.collision_with_self();
    assert!(!g.running);
}

#[test]
fn eating_grows_and_scores() {
    let mut g = Game::new();
    g.food = p(300, 300);
    assert!(!g.collision_with_food());
    assert_eq!(g.score, 0);
    g.food = g.snake[0];
    assert!(g.collision_with_food());
    assert_eq!(g.score, 1);
    assert_eq!(g.snake.len(), 5);
    assert_eq!(g.snake[4], p(200, 230));
    assert_eq!(g.speed, EATING_SPEED);
    assert!(g.just_ate);
    assert_eq!(g.time_starving, 0);
}

#[test]
fn restart_keeps_best_score_and_counts_games() {
    let mut g = Game::new();
    g.score = 3;
    g.high_score = 1;
    g.running = false;
    g.restart();
    assert_eq!(g.high_score, 3);
    assert_eq!(g.n_games, 1);
    assert_eq!(g.score, 0);
    assert!(g.running);
    assert_eq!(g.snake.len(), 4);
    g.score = 2;
    g.restart();
    assert_eq!(g.high_score, 3);
    assert_eq!(g.n_games, 2);
}

#[test]
fn state_of_new_game() {
    let mut g = Game::new();
    g.food = p(100, 300);
    assert_eq!(g.get_game_state(), [1, 0, 0, 0, 0, 1, 1, 0, 0, 0, 0, 0]);
    g.food = p(200, 200);
    assert_eq!(g.get_game_state(), [1, 0, 0, 0, 0, 0, 0, 0, 0, 0, 0, 0]);
}

#[test]
fn state_after_meal_hides_food() {
    let mut g = Game::new();
    g.food = p(100, 300);
    g.just_ate = true;
    assert_eq!(&g.get_game_state()[4..8], &[0, 0, 0, 0]);
    assert!(!g.just_ate);
    assert_eq!(&g.get_game_state()[4..8], &[0, 1, 1, 0]);
}

#[test]
fn state_flags_adjacent_body() {
    let mut g = Game::new();
    g.direction = Direction::Left;
    g.snake = vec![p(200, 200), p(210, 200), p(210, 210), p(200, 210), p(190, 210)];
    g.food = p(300, 100);
    // the segment to the right is behind the heading, the one below is not
    assert_eq!(g.get_game_state(), [0, 0, 1, 0, 1, 0, 0, 1, 0, 1, 0, 0]);
    g.direction = Direction::Down;
    assert_eq!(&g.get_game_state()[8..], &[0, 1, 0, 1]);
}

#[test]
fn state_flags_wall_next_to_body() {
    let mut g = Game::new();
    g.snake = vec![p(10, 200), p(10, 210), p(20, 210), p(30, 210), p(40, 210)];
    assert_eq!(&g.get_game_state()[8..], &[0, 0, 1, 0]);
}

#[test]
fn short_snake_has_no_danger() {
    let mut g = Game::new();
    g.direction = Direction::Right;
    g.snake = vec![p(200, 200), p(200, 210), p(190, 210), p(190, 200)];
    assert_eq!(&g.get_game_state()[8..], &[0, 0, 0, 0]);
}
