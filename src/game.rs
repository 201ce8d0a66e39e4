use vstd::prelude::*;
use crate::action::Action;
use crate::random::random_below;

verus! {

/// Side of one grid tile, in pixels. Every position of the game is a
/// multiple of it.
pub const TILE_SIZE: i32 = 10;

/// Lowest coordinate inside the playing field.
pub const FIELD_MIN: i32 = 10;

/// First coordinate past the playing field.
pub const FIELD_END: i32 = 410;

/// Food is placed on tiles `FOOD_TILE_MIN..=FOOD_TILE_MAX` along both axes.
pub const FOOD_TILE_MIN: i32 = 2;
pub const FOOD_TILE_MAX: i32 = 40;

/// Tick interval of a fresh game, in microseconds.
pub const START_SPEED: u64 = 1000;

/// Shortest tick interval reached once the snake has eaten, in microseconds.
pub const EATING_SPEED: u64 = 30_000;

/// A pixel position on the board.
#[derive(Clone, Copy, Debug, PartialEq, Eq, Structural)]
pub struct Point {
    pub x: i32,
    pub y: i32,
}

#[derive(Clone, Copy, Debug, PartialEq, Eq, Structural)]
pub enum GameStatus {
    Start,
    Running,
    GameOver,
}

#[derive(Clone, Copy, Debug, PartialEq, Eq, Structural)]
pub enum Direction {
    Up,
    Down,
    Left,
    Right,
}

/// Which arrow keys were pressed during the current frame.
#[derive(Clone, Copy, Debug, PartialEq, Eq, Structural)]
pub struct Keys {
    pub up: bool,
    pub down: bool,
    pub left: bool,
    pub right: bool,
}

pub struct Game {
    /// Segments from head (index 0) to tail.
    pub snake: Vec<Point>,
    pub food: Point,
    pub direction: Direction,
    /// Set once a key has turned the snake; cleared by the next move.
    pub direction_lock: bool,
    pub running: bool,
    /// Interval between two ticks, in microseconds.
    pub speed: u64,
    pub score: i32,
    pub high_score: i32,
    pub game_status: GameStatus,
    pub time_starving: i32,
    pub just_ate: bool,
    pub n_games: i32,
}

pub open spec fn opposite(d: Direction) -> Direction {
    match d {
        Direction::Up => Direction::Down,
        Direction::Down => Direction::Up,
        Direction::Left => Direction::Right,
        Direction::Right => Direction::Left,
    }
}

pub open spec fn action_of(d: Direction) -> Action {
    match d {
        Direction::Up => Action::Up,
        Direction::Down => Action::Down,
        Direction::Left => Action::Left,
        Direction::Right => Action::Right,
    }
}

pub open spec fn direction_of(a: Action) -> Direction {
    match a {
        Action::Up => Direction::Up,
        Action::Down => Direction::Down,
        Action::Left => Direction::Left,
        Action::Right => Direction::Right,
    }
}

/// The direction after the agent asks for `a`: a reversal onto the snake's
/// own body is ignored.
pub open spec fn turned(d: Direction, a: Action) -> Direction {
    if direction_of(a) == opposite(d) {
        d
    } else {
        direction_of(a)
    }
}

/// The key that turns the snake this frame, if any: keys are tried in the
/// order up, down, left, right, and a key that would reverse is skipped.
pub open spec fn key_turn(d: Direction, k: Keys) -> Option<Direction> {
    if k.up && d != Direction::Down {
        Some(Direction::Up)
    } else if k.down && d != Direction::Up {
        Some(Direction::Down)
    } else if k.left && d != Direction::Right {
        Some(Direction::Left)
    } else if k.right && d != Direction::Left {
        Some(Direction::Right)
    } else {
        None
    }
}

/// A head can move one tile in any direction without leaving `i32`.
pub open spec fn can_step(p: Point) -> bool {
    i32::MIN + TILE_SIZE <= p.x <= i32::MAX - TILE_SIZE
        && i32::MIN + TILE_SIZE <= p.y <= i32::MAX - TILE_SIZE
}

/// The position one tile away from `p` in direction `d`.
pub open spec fn step(p: Point, d: Direction) -> Point
    recommends
        can_step(p),
{
    match d {
        Direction::Up => Point { x: p.x, y: (p.y - TILE_SIZE) as i32 },
        Direction::Down => Point { x: p.x, y: (p.y + TILE_SIZE) as i32 },
        Direction::Left => Point { x: (p.x - TILE_SIZE) as i32, y: p.y },
        Direction::Right => Point { x: (p.x + TILE_SIZE) as i32, y: p.y },
    }
}

pub open spec fn outside_field(p: Point) -> bool {
    p.x < FIELD_MIN || p.x >= FIELD_END || p.y < FIELD_MIN || p.y >= FIELD_END
}

/// A position where food may be placed.
pub open spec fn food_cell(p: Point) -> bool {
    p.x % TILE_SIZE == 0 && p.y % TILE_SIZE == 0
        && FOOD_TILE_MIN * TILE_SIZE <= p.x <= FOOD_TILE_MAX * TILE_SIZE
        && FOOD_TILE_MIN * TILE_SIZE <= p.y <= FOOD_TILE_MAX * TILE_SIZE
}

/// The snake's head runs into one of its other segments.
pub open spec fn bites_itself(snake: Seq<Point>) -> bool {
    exists|i: int| 1 <= i < snake.len() && #[trigger] snake[i] == snake[0]
}

pub open spec fn starting_snake() -> Seq<Point> {
    seq![
        Point { x: 200, y: 200 },
        Point { x: 200, y: 210 },
        Point { x: 200, y: 220 },
        Point { x: 200, y: 230 },
    ]
}

/// One-hot encoding of the heading.
pub open spec fn direction_bits(d: Direction) -> Seq<i32> {
    match d {
        Direction::Up => seq![1i32, 0, 0, 0],
        Direction::Down => seq![0i32, 1, 0, 0],
        Direction::Left => seq![0i32, 0, 1, 0],
        Direction::Right => seq![0i32, 0, 0, 1],
    }
}

/// `[1, 0]` when `head > food`, `[0, 1]` when `head < food`, else `[0, 0]`.
pub open spec fn compare_bits(head: i32, food: i32) -> Seq<i32> {
    if head > food {
        seq![1i32, 0]
    } else if head < food {
        seq![0i32, 1]
    } else {
        seq![0i32, 0]
    }
}

/// Where the food lies relative to the head (vertical pair, then
/// horizontal pair); all zero right after a meal.
pub open spec fn food_bits(head: Point, food: Point, just_ate: bool) -> Seq<i32> {
    if just_ate {
        seq![0i32, 0, 0, 0]
    } else {
        compare_bits(head.y, food.y) + compare_bits(head.x, food.x)
    }
}

pub open spec fn abs_int(v: int) -> int {
    if v < 0 { -v } else { v }
}

/// Segment `s` touches the head along one axis.
pub open spec fn adjacent(h: Point, s: Point) -> bool {
    abs_int(h.x - s.x) + abs_int(h.y - s.y) == TILE_SIZE
}

/// Whether an adjacent segment `s` flags danger in slot `k`
/// (0 up, 1 down, 2 left, 3 right).
pub open spec fn danger_from(h: Point, s: Point, d: Direction, k: int) -> bool {
    if k == 0 {
        (h.y - s.y == TILE_SIZE && d != Direction::Down) || h.y - TILE_SIZE == 0
    } else if k == 1 {
        (h.y - s.y == -TILE_SIZE && d != Direction::Up) || h.y + TILE_SIZE == FIELD_END
    } else if k == 2 {
        (h.x - s.x == TILE_SIZE && d != Direction::Right) || h.x - TILE_SIZE == 0
    } else {
        (h.x - s.x == -TILE_SIZE && d != Direction::Left) || h.x + TILE_SIZE == FIELD_END
    }
}

/// Danger flag `k`: set when the snake is longer than its starting length
/// and some body segment next to the head raises it.
pub open spec fn danger_flag(snake: Seq<Point>, d: Direction, k: int) -> bool {
    snake.len() > 4 && danger_found(snake, d, k, snake.len() as int)
}

pub open spec fn bit(b: bool) -> i32 {
    if b { 1 } else { 0 }
}

pub open spec fn danger_bits(snake: Seq<Point>, d: Direction) -> Seq<i32> {
    seq![
        bit(danger_flag(snake, d, 0)),
        bit(danger_flag(snake, d, 1)),
        bit(danger_flag(snake, d, 2)),
        bit(danger_flag(snake, d, 3)),
    ]
}

/// The twelve features the agent sees: heading, food direction, danger.
pub open spec fn state_features(snake: Seq<Point>, food: Point, d: Direction, just_ate: bool) -> Seq<i32> {
    direction_bits(d) + food_bits(snake[0], food, just_ate) + danger_bits(snake, d)
}

impl Game {
    /// The game's invariant: a snake has a head, and the tick interval never
    /// exceeds the one reached after a meal.
    pub open spec fn wf(&self) -> bool {
        self.snake@.len() >= 1 && self.speed <= EATING_SPEED
    }

    /// The state of a game that has just been set up, whatever its history.
    pub open spec fn is_fresh(&self) -> bool {
        &&& self.snake@ == starting_snake()
        &&& food_cell(self.food)
        &&& !self.snake@.contains(self.food)
        &&& self.direction == Direction::Up
        &&& !self.direction_lock
        &&& self.running
        &&& self.speed == START_SPEED
        &&& self.score == 0
        &&& self.game_status == GameStatus::Start
        &&& self.time_starving == 0
        &&& !self.just_ate
    }

    pub fn new() -> (r: Game)
        ensures
            r.wf(),
            r.is_fresh(),
            r.high_score == 0,
            r.n_games == 0,
    {
        let snake = vec![
            Point { x: 200, y: 200 },
            Point { x: 200, y: 210 },
            Point { x: 200, y: 220 },
            Point { x: 200, y: 230 },
        ];
        let mut new_game = Game {
            snake,
            food: Point { x: 0, y: 0 },
            direction: Direction::Up,
            direction_lock: false,
            running: true,
            speed: START_SPEED,
            score: 0,
            high_score: 0,
            n_games: 0,
            game_status: GameStatus::Start,
            time_starving: 0,
            just_ate: false,
        };
        assert(new_game.snake@ =~= starting_snake());
        let free = Point { x: 20, y: 20 };
        assert(food_cell(free));
        assert(!new_game.snake@.contains(free)) by {
            if new_game.snake@.contains(free) {
                let i = choose|i: int| 0 <= i < 4 && new_game.snake@[i] == free;
            }
        }
        match new_game.new_food() {
            Some(p) => {
                new_game.food = p;
            },
            None => {
                assert(false);
            },
        }
        new_game
    }

    /// Advances the snake one tile in its heading: a new head in front,
    /// the last segment dropped.
    pub fn move_snake(&mut self)
        requires
            old(self).wf(),
            can_step(old(self).snake@[0]),
        ensures
            final(self).wf(),
            final(self).snake@ == seq![step(old(self).snake@[0], old(self).direction)]
                + old(self).snake@.drop_last(),
            !final(self).direction_lock,
            final(self).food == old(self).food,
            final(self).direction == old(self).direction,
            final(self).running == old(self).running,
            final(self).speed == old(self).speed,
            final(self).score == old(self).score,
            final(self).high_score == old(self).high_score,
            final(self).game_status == old(self).game_status,
            final(self).time_starving == old(self).time_starving,
            final(self).just_ate == old(self).just_ate,
            final(self).n_games == old(self).n_games,
    {
        let head = self.snake[0];
        let new_head = match self.direction {
            Direction::Up => Point { x: head.x, y: head.y - TILE_SIZE },
            Direction::Down => Point { x: head.x, y: head.y + TILE_SIZE },
            Direction::Left => Point { x: head.x - TILE_SIZE, y: head.y },
            Direction::Right => Point { x: head.x + TILE_SIZE, y: head.y },
        };
        self.snake.insert(0, new_head);
        self.snake.pop();
        self.direction_lock = false;
        assert(self.snake@ =~= seq![new_head] + old(self).snake@.drop_last());
    }

    /// Turns the snake by the first pressed key that does not reverse it,
    /// unless a turn was already taken since the last move; returns the
    /// action matching the resulting heading.
    pub fn handle_input(&mut self, keys: Keys) -> (r: Action)
        ensures
            !old(self).direction_lock && key_turn(old(self).direction, keys) is Some ==> {
                &&& final(self).direction == key_turn(old(self).direction, keys)->Some_0
                &&& final(self).direction_lock
            },
            old(self).direction_lock || key_turn(old(self).direction, keys) is None ==> {
                &&& final(self).direction == old(self).direction
                &&& final(self).direction_lock == old(self).direction_lock
            },
            r == action_of(final(self).direction),
            final(self).snake == old(self).snake,
            final(self).food == old(self).food,
            final(self).running == old(self).running,
            final(self).speed == old(self).speed,
            final(self).score == old(self).score,
            final(self).high_score == old(self).high_score,
            final(self).game_status == old(self).game_status,
            final(self).time_starving == old(self).time_starving,
            final(self).just_ate == old(self).just_ate,
            final(self).n_games == old(self).n_games,
    {
        if !self.direction_lock {
            if keys.up && self.direction != Direction::Down {
                self.direction = Direction::Up;
                self.direction_lock = true;
                Action::Up
            } else if keys.down && self.direction != Direction::Up {
                self.direction = Direction::Down;
                self.direction_lock = true;
                Action::Down
            } else if keys.left && self.direction != Direction::Right {
                self.direction = Direction::Left;
                self.direction_lock = true;
                Action::Left
            } else if keys.right && self.direction != Direction::Left {
                self.direction = Direction::Right;
                self.direction_lock = true;
                Action::Right
            } else {
                self.current_action()
            }
        } else {
            self.current_action()
        }
    }

    /// The action that keeps the current heading.
    pub fn current_action(&self) -> (r: Action)
        ensures
            r == action_of(self.direction),
    {
        match self.direction {
            Direction::Up => Action::Up,
            Direction::Down => Action::Down,
            Direction::Left => Action::Left,
            Direction::Right => Action::Right,
        }
    }

    /// Applies the agent's action; a reversal is ignored.
    pub fn handle_action(&mut self, action: &Action)
        ensures
            final(self).direction == turned(old(self).direction, *action),
            final(self).snake == old(self).snake,
            final(self).food == old(self).food,
            final(self).direction_lock == old(self).direction_lock,
            final(self).running == old(self).running,
            final(self).speed == old(self).speed,
            final(self).score == old(self).score,
            final(self).high_score == old(self).high_score,
            final(self).game_status == old(self).game_status,
            final(self).time_starving == old(self).time_starving,
            final(self).just_ate == old(self).just_ate,
            final(self).n_games == old(self).n_games,
    {
        match action {
            Action::Up => {
                if self.direction != Direction::Down {
                    self.direction = Direction::Up;
                }
            },
            Action::Down => {
                if self.direction != Direction::Up {
                    self.direction = Direction::Down;
                }
            },
            Action::Left => {
                if self.direction != Direction::Right {
                    self.direction = Direction::Left;
                }
            },
            Action::Right => {
                if self.direction != Direction::Left {
                    self.direction = Direction::Right;
                }
            },
        }
    }

    /// A random food position that the snake does not cover, drawn
    /// uniformly among the free ones; `None` when the snake covers them all.
    pub fn new_food(&self) -> (r: Option<Point>)
        ensures
            r matches Some(p) ==> food_cell(p) && !self.snake@.contains(p),
            r is None ==> forall|p: Point| food_cell(p) ==> self.snake@.contains(p),
    {
        let mut free: Vec<Point> = Vec::new();
        let mut tx: i32 = FOOD_TILE_MIN;
        while tx <= FOOD_TILE_MAX
            invariant
                FOOD_TILE_MIN <= tx <= FOOD_TILE_MAX + 1,
                forall|i: int| 0 <= i < free@.len()
                    ==> food_cell(#[trigger] free@[i]) && !self.snake@.contains(free@[i]),
                free@.len() == 0 ==> forall|p: Point|
                    food_cell(p) && p.x < tx * TILE_SIZE ==> self.snake@.contains(p),
            decreases FOOD_TILE_MAX + 1 - tx,
        {
            let mut ty: i32 = FOOD_TILE_MIN;
            while ty <= FOOD_TILE_MAX
                invariant
                    FOOD_TILE_MIN <= tx <= FOOD_TILE_MAX,
                    FOOD_TILE_MIN <= ty <= FOOD_TILE_MAX + 1,
                    forall|i: int| 0 <= i < free@.len()
                        ==> food_cell(#[trigger] free@[i]) && !self.snake@.contains(free@[i]),
                    free@.len() == 0 ==> forall|p: Point|
                        food_cell(p) && (p.x < tx * TILE_SIZE || (p.x == tx * TILE_SIZE && p.y
                            < ty * TILE_SIZE)) ==> self.snake@.contains(p),
                decreases FOOD_TILE_MAX + 1 - ty,
            {
                let p = Point { x: tx * TILE_SIZE, y: ty * TILE_SIZE };
                if !contains_point(&self.snake, p) {
                    free.push(p);
                }
                ty += 1;
            }
            tx += 1;
        }
        if free.len() == 0 {
            None
        } else {
            let i = random_below(free.len());
            Some(free[i])
        }
    }

    /// Ends the game when the head lies on another segment.
    pub fn collision_with_self(&mut self)
        requires
            old(self).wf(),
        ensures
            final(self).running == (old(self).running && !bites_itself(old(self).snake@)),
            final(self).snake == old(self).snake,
            final(self).food == old(self).food,
            final(self).direction == old(self).direction,
            final(self).direction_lock == old(self).direction_lock,
            final(self).speed == old(self).speed,
            final(self).score == old(self).score,
            final(self).high_score == old(self).high_score,
            final(self).game_status == old(self).game_status,
            final(self).time_starving == old(self).time_starving,
            final(self).just_ate == old(self).just_ate,
            final(self).n_games == old(self).n_games,
    {
        let head = self.snake[0];
        let mut i: usize = 1;
        while i < self.snake.len()
            invariant
                1 <= i <= self.snake@.len(),
                head == self.snake@[0],
                self.snake == old(self).snake,
                self.food == old(self).food,
                self.direction == old(self).direction,
                self.direction_lock == old(self).direction_lock,
                self.speed == old(self).speed,
                self.score == old(self).score,
                self.high_score == old(self).high_score,
                self.game_status == old(self).game_status,
                self.time_starving == old(self).time_starving,
                self.just_ate == old(self).just_ate,
                self.n_games == old(self).n_games,
                self.running == (old(self).running && !exists|j: int|
                    1 <= j < i && #[trigger] self.snake@[j] == self.snake@[0]),
            decreases self.snake@.len() - i,
        {
            if self.snake[i] == head {
                self.running = false;
            }
            i += 1;
        }
    }

    /// Ends the game when the head has left the playing field.
    pub fn collision_with_border(&mut self)
        requires
            old(self).wf(),
        ensures
            final(self).running == (old(self).running && !outside_field(old(self).snake@[0])),
            final(self).snake == old(self).snake,
            final(self).food == old(self).food,
            final(self).direction == old(self).direction,
            final(self).direction_lock == old(self).direction_lock,
            final(self).speed == old(self).speed,
            final(self).score == old(self).score,
            final(self).high_score == old(self).high_score,
            final(self).game_status == old(self).game_status,
            final(self).time_starving == old(self).time_starving,
            final(self).just_ate == old(self).just_ate,
            final(self).n_games == old(self).n_games,
    {
        let head = self.snake[0];
        if head.x < FIELD_MIN || head.x >= FIELD_END || head.y < FIELD_MIN || head.y >= FIELD_END {
            self.running = false;
        }
    }

    /// When the head reaches the food: scores, grows by repeating the tail
    /// segment, slows to the after-meal interval and resets starvation.
    pub fn collision_with_food(&mut self) -> (r: bool)
        requires
            old(self).wf(),
            old(self).score < i32::MAX,
        ensures
            r == (old(self).snake@[0] == old(self).food),
            final(self).wf(),
            r ==> {
                &&& final(self).score == old(self).score + 1
                &&& final(self).snake@ == old(self).snake@.push(old(self).snake@.last())
                &&& final(self).speed == EATING_SPEED
                &&& final(self).time_starving == 0
                &&& final(self).just_ate
            },
            !r ==> {
                &&& final(self).score == old(self).score
                &&& final(self).snake == old(self).snake
                &&& final(self).speed == old(self).speed
                &&& final(self).time_starving == old(self).time_starving
                &&& final(self).just_ate == old(self).just_ate
            },
            final(self).food == old(self).food,
            final(self).direction == old(self).direction,
            final(self).direction_lock == old(self).direction_lock,
            final(self).running == old(self).running,
            final(self).high_score == old(self).high_score,
            final(self).game_status == old(self).game_status,
            final(self).n_games == old(self).n_games,
    {
        if self.snake[0] == self.food {
            self.score = self.score + 1;
            let last = self.snake[self.snake.len() - 1];
            self.snake.push(last);
            let slowed = self.speed * 95 / 100;
            self.speed = if slowed > EATING_SPEED { slowed } else { EATING_SPEED };
            self.time_starving = 0;
            self.just_ate = true;
            return true;
        }
        false
    }

    /// Sets up a new round: keeps the best score seen and counts the game.
    pub fn restart(&mut self)
        requires
            old(self).n_games < i32::MAX,
        ensures
            final(self).wf(),
            final(self).is_fresh(),
            final(self).high_score == if old(self).score > old(self).high_score {
                old(self).score
            } else {
                old(self).high_score
            },
            final(self).n_games == old(self).n_games + 1,
    {
        if self.score > self.high_score {
            self.high_score = self.score;
        }
        let current_high_score = self.high_score;
        let ngames = self.n_games;
        *self = Game::new();
        self.high_score = current_high_score;
        self.n_games = ngames + 1;
    }

    /// The twelve features describing the game to the agent: the one-hot
    /// heading, where the food lies, and which neighbouring tiles are
    /// dangerous. Reading them consumes the "just ate" mark.
    pub fn get_game_state(&mut self) -> (r: [i32; 12])
        requires
            old(self).wf(),
        ensures
            r@ == state_features(old(self).snake@, old(self).food, old(self).direction, old(self).just_ate),
            !final(self).just_ate,
            final(self).snake == old(self).snake,
            final(self).food == old(self).food,
            final(self).direction == old(self).direction,
            final(self).direction_lock == old(self).direction_lock,
            final(self).running == old(self).running,
            final(self).speed == old(self).speed,
            final(self).score == old(self).score,
            final(self).high_score == old(self).high_score,
            final(self).game_status == old(self).game_status,
            final(self).time_starving == old(self).time_starving,
            final(self).n_games == old(self).n_games,
    {
        let (d0, d1, d2, d3): (i32, i32, i32, i32) = match self.direction {
            Direction::Up => (1, 0, 0, 0),
            Direction::Down => (0, 1, 0, 0),
            Direction::Left => (0, 0, 1, 0),
            Direction::Right => (0, 0, 0, 1),
        };
        let head = self.snake[0];
        let food = self.food;
        let (mut f0, mut f1, mut f2, mut f3): (i32, i32, i32, i32) = (0, 0, 0, 0);
        if self.just_ate {
            self.just_ate = false;
        } else {
            let (y0, y1) = compare(head.y, food.y);
            let (x0, x1) = compare(head.x, food.x);
            f0 = y0;
            f1 = y1;
            f2 = x0;
            f3 = x1;
        }
        let ghost snake = self.snake@;
        let direction = self.direction;
        let (mut up, mut down, mut left, mut right) = (false, false, false, false);
        if self.snake.len() > 4 {
            let hx = head.x as i64;
            let hy = head.y as i64;
            let tile = TILE_SIZE as i64;
            let end = FIELD_END as i64;
            let mut i: usize = 1;
            while i < self.snake.len()
                invariant
                    1 <= i <= snake.len(),
                    snake == self.snake@,
                    snake.len() > 4,
                    head == snake[0],
                    hx == head.x,
                    hy == head.y,
                    tile == TILE_SIZE,
                    end == FIELD_END,
                    up == danger_found(snake, direction, 0, i as int),
                    down == danger_found(snake, direction, 1, i as int),
                    left == danger_found(snake, direction, 2, i as int),
                    right == danger_found(snake, direction, 3, i as int),
                decreases snake.len() - i,
            {
                let seg = self.snake[i];
                let dx = hx - seg.x as i64;
                let dy = hy - seg.y as i64;
                let adx = if dx < 0 { -dx } else { dx };
                let ady = if dy < 0 { -dy } else { dy };
                if adx + ady == tile {
                    if (dy == tile && direction != Direction::Down) || hy - tile == 0 {
                        up = true;
                    }
                    if (dy == -tile && direction != Direction::Up) || hy + tile == end {
                        down = true;
                    }
                    if (dx == tile && direction != Direction::Right) || hx - tile == 0 {
                        left = true;
                    }
                    if (dx == -tile && direction != Direction::Left) || hx + tile == end {
                        right = true;
                    }
                }
                proof {
                    assert forall|k: int| #![auto] 0 <= k < 4 implies danger_found(snake, direction, k, i + 1)
                        == (danger_found(snake, direction, k, i as int) || (adjacent(snake[0], snake[i as int])
                        && danger_from(snake[0], snake[i as int], direction, k))) by {
                        lemma_danger_found_step(snake, direction, k, i as int);
                    }
                }
                i += 1;
            }
        }
        let r = [d0, d1, d2, d3, f0, f1, f2, f3, flag(up), flag(down), flag(left), flag(right)];
        proof {
            assert(r@ =~= state_features(old(self).snake@, old(self).food, old(self).direction, old(self).just_ate));
        }
        r
    }
}

/// Danger flag `k` raised by one of the segments `1..n`.
pub open spec fn danger_found(snake: Seq<Point>, d: Direction, k: int, n: int) -> bool {
    exists|i: int|
        1 <= i < n && adjacent(snake[0], #[trigger] snake[i]) && danger_from(snake[0], snake[i], d, k)
}

proof fn lemma_danger_found_step(snake: Seq<Point>, d: Direction, k: int, n: int)
    requires
        1 <= n,
    ensures
        danger_found(snake, d, k, n + 1) == (danger_found(snake, d, k, n) || (adjacent(snake[0], snake[n])
            && danger_from(snake[0], snake[n], d, k))),
{
    if danger_found(snake, d, k, n + 1) && !(adjacent(snake[0], snake[n]) && danger_from(snake[0], snake[n], d, k)) {
        let i = choose|i: int|
            1 <= i < n + 1 && adjacent(snake[0], #[trigger] snake[i]) && danger_from(snake[0], snake[i], d, k);
        assert(i != n);
    }
}

fn flag(b: bool) -> (r: i32)
    ensures
        r == bit(b),
{
    if b { 1 } else { 0 }
}

/// The pair `compare_bits(head, food)`.
fn compare(head: i32, food: i32) -> (r: (i32, i32))
    ensures
        seq![r.0, r.1] == compare_bits(head, food),
{
    if head > food {
        (1, 0)
    } else if head < food {
        (0, 1)
    } else {
        (0, 0)
    }
}

/// Whether `p` is one of the points of `v`.
pub fn contains_point(v: &Vec<Point>, p: Point) -> (r: bool)
    ensures
        r == v@.contains(p),
{
    let mut i: usize = 0;
    while i < v.len()
        invariant
            i <= v@.len(),
            forall|j: int| 0 <= j < i ==> v@[j] != p,
        decreases v@.len() - i,
    {
        if v[i] == p {
            return true;
        }
        i += 1;
    }
    false
}

} // verus!
