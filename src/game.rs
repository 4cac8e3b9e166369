use rand::Rng;
use vstd::prelude::*;

use crate::draw::{block_shape, Paint, Shape};
use crate::snake::{start_body, turned, Block, Direction, Snake};

verus! {

/// Default time between two forced moves, in microseconds.
pub const DEFAULT_MOVING_PERIOD: u64 = 100_000;

/// Default time spent on the game-over screen, in microseconds.
pub const DEFAULT_RESTART_TIME: u64 = 1_000_000;

/// How often a random cell is drawn for the food before the free cells are
/// listed and one of them is drawn.
pub const FOOD_DRAWS: u32 = 256;

pub const START_X: i32 = 2;
pub const START_Y: i32 = 2;
pub const FIRST_FOOD_X: i32 = 6;
pub const FIRST_FOOD_Y: i32 = 4;

/// What `str::parse::<i32>` makes of a text.
pub uninterp spec fn decimal_i32(s: Seq<char>) -> Option<i32>;

/// Relies on `str::parse::<i32>`: the value written in decimal, or `None`
/// when the text is not an `i32` (an empty text never is).
#[verifier::external_body]
fn parse_i32(s: &str) -> (r: Option<i32>)
    ensures
        r == decimal_i32(s@),
        s@.len() == 0 ==> r is None,
{
    s.parse::<i32>().ok()
}

/// Relies on `rand::Rng::gen_range` over `thread_rng()`: a value in
/// `lo..hi`, which must not be empty.
#[verifier::external_body]
fn random_in(lo: i64, hi: i64) -> (r: i64)
    requires
        lo < hi,
    ensures
        lo <= r < hi,
{
    rand::thread_rng().gen_range(lo..hi)
}

/// The best score kept in a score text: its decimal value, or 0.
pub fn parse_score(text: &str) -> (r: i32)
    ensures
        r == match decimal_i32(text@) {
            Some(v) => v,
            None => 0,
        },
{
    match parse_i32(text) {
        Some(v) => v,
        None => 0,
    }
}

/// The tunables of a game; times are in microseconds.
#[derive(Clone, Copy, PartialEq, Eq, Structural, Debug)]
pub struct Config {
    pub food_exists: bool,
    pub moving_period: u64,
    pub restart_time: u64,
}

impl Config {
    /// The configuration from the values that were found, each missing one
    /// taking its default.
    pub fn from_fields(
        food_exists: Option<bool>,
        moving_period: Option<u64>,
        restart_time: Option<u64>,
    ) -> (r: Config)
        ensures
            r.food_exists == match food_exists {
                Some(b) => b,
                None => true,
            },
            r.moving_period == match moving_period {
                Some(t) => t,
                None => DEFAULT_MOVING_PERIOD,
            },
            r.restart_time == match restart_time {
                Some(t) => t,
                None => DEFAULT_RESTART_TIME,
            },
    {
        Config {
            food_exists: match food_exists {
                Some(b) => b,
                None => true,
            },
            moving_period: match moving_period {
                Some(t) => t,
                None => DEFAULT_MOVING_PERIOD,
            },
            restart_time: match restart_time {
                Some(t) => t,
                None => DEFAULT_RESTART_TIME,
            },
        }
    }
}

/// A key press, as far as the game cares.
#[derive(Clone, Copy, PartialEq, Eq, Structural, Debug)]
pub enum Key {
    Up,
    Down,
    Left,
    Right,
    Other,
}

pub open spec fn direction_of_spec(key: Key) -> Option<Direction> {
    match key {
        Key::Up => Some(Direction::Up),
        Key::Down => Some(Direction::Down),
        Key::Left => Some(Direction::Left),
        Key::Right => Some(Direction::Right),
        Key::Other => None,
    }
}

/// The direction of an arrow key; `None` for any other key.
pub fn direction_of(key: Key) -> (r: Option<Direction>)
    ensures
        r == direction_of_spec(key),
{
    match key {
        Key::Up => Some(Direction::Up),
        Key::Down => Some(Direction::Down),
        Key::Left => Some(Direction::Left),
        Key::Right => Some(Direction::Right),
        Key::Other => None,
    }
}

/// Whether `(x, y)` lies inside the border ring of a `width` by `height` board.
pub open spec fn interior(width: int, height: int, x: int, y: int) -> bool {
    1 <= x < width - 1 && 1 <= y < height - 1
}

/// The score after one more food, held at the top of `i32`.
pub open spec fn bumped(c: i32) -> i32 {
    if c < i32::MAX {
        (c + 1) as i32
    } else {
        c
    }
}

/// `a + b`, held at the top of `u64`.
pub open spec fn sum_held(a: u64, b: u64) -> u64 {
    if a + b > u64::MAX {
        u64::MAX
    } else {
        (a + b) as u64
    }
}

pub struct Game {
    snake: Snake,
    food: Option<Block>,
    width: i32,
    height: i32,
    game_over: bool,
    waiting_time: u64,
    moving_period: u64,
    restart_time: u64,
    score: i32,
    game_score: i32,
}

impl Game {
    pub closed spec fn spec_snake(&self) -> Snake {
        self.snake
    }

    pub closed spec fn spec_food(&self) -> Option<Block> {
        self.food
    }

    pub closed spec fn spec_width(&self) -> i32 {
        self.width
    }

    pub closed spec fn spec_height(&self) -> i32 {
        self.height
    }

    pub closed spec fn spec_over(&self) -> bool {
        self.game_over
    }

    /// Time since the last move, or since the game ended.
    pub closed spec fn spec_waiting(&self) -> u64 {
        self.waiting_time
    }

    pub closed spec fn spec_period(&self) -> u64 {
        self.moving_period
    }

    pub closed spec fn spec_restart(&self) -> u64 {
        self.restart_time
    }

    /// The best score known.
    pub closed spec fn spec_best(&self) -> i32 {
        self.score
    }

    /// Food eaten in this round.
    pub closed spec fn spec_current(&self) -> i32 {
        self.game_score
    }

    /// The snake is well formed, its head can step without leaving `i32`,
    /// and the food never lies on the snake.
    pub open spec fn wf(&self) -> bool {
        &&& self.spec_snake().wf()
        &&& 0 < self.spec_snake().head().x < i32::MAX
        &&& 0 < self.spec_snake().head().y < i32::MAX
        &&& self.spec_food() matches Some(f) ==> !self.spec_snake().occupies(f.x, f.y)
    }

    pub open spec fn is_free(&self, x: i32, y: i32) -> bool {
        interior(self.spec_width() as int, self.spec_height() as int, x as int, y as int)
            && !self.spec_snake().occupies(x, y)
    }

    pub open spec fn has_free_cell(&self) -> bool {
        exists|x: i32, y: i32| #[trigger] self.is_free(x, y)
    }

    /// Food lies on a free cell, or there is no free cell and no food.
    pub open spec fn food_placed(&self) -> bool {
        &&& self.spec_food() matches Some(f) ==> self.is_free(f.x, f.y)
        &&& self.spec_food() is None ==> !self.has_free_cell()
    }

    /// The snake survives a move with this turn request: its next head is
    /// neither on the snake nor on or beyond the border ring.
    pub open spec fn alive_spec(&self, requested: Option<Direction>) -> bool {
        let n = self.spec_snake().next_head_spec(requested);
        self.is_free(n.x, n.y)
    }

    pub open spec fn same_settings(pre: Game, post: Game) -> bool {
        &&& post.spec_width() == pre.spec_width()
        &&& post.spec_height() == pre.spec_height()
        &&& post.spec_period() == pre.spec_period()
        &&& post.spec_restart() == pre.spec_restart()
        &&& post.spec_best() == pre.spec_best()
    }

    /// `post` is `pre` after one tick with the given turn request.
    pub open spec fn ticked(pre: Game, post: Game, requested: Option<Direction>) -> bool {
        let n = pre.spec_snake().next_head_spec(requested);
        let eats = pre.spec_food() == Some(n);
        &&& Game::same_settings(pre, post)
        &&& post.spec_waiting() == 0
        &&& if pre.alive_spec(requested) {
            &&& post.spec_over() == pre.spec_over()
            &&& post.spec_snake().heading() == turned(pre.spec_snake().heading(), requested)
            &&& post.spec_snake().cells() == if eats {
                seq![n] + pre.spec_snake().cells()
            } else {
                seq![n] + pre.spec_snake().cells().drop_last()
            }
            &&& post.spec_food() == if eats {
                None
            } else {
                pre.spec_food()
            }
            &&& post.spec_current() == if eats {
                bumped(pre.spec_current())
            } else {
                pre.spec_current()
            }
        } else {
            &&& post.spec_over()
            &&& post.spec_snake() == pre.spec_snake()
            &&& post.spec_food() == pre.spec_food()
            &&& post.spec_current() == pre.spec_current()
        }
    }

    /// `post` is `pre` started over: the snake back at its start, the first
    /// food in place, the round's score at zero.
    pub open spec fn restarted(pre: Game, post: Game) -> bool {
        &&& Game::same_settings(pre, post)
        &&& post.spec_snake().cells() == start_body(START_X, START_Y)
        &&& post.spec_snake().heading() == Direction::Right
        &&& post.spec_snake().released() is None
        &&& post.spec_food() == Some(Block { x: FIRST_FOOD_X, y: FIRST_FOOD_Y })
        &&& !post.spec_over()
        &&& post.spec_waiting() == 0
        &&& post.spec_current() == 0
    }

    /// `mid` is `pre` with the waiting time set to `w` and food placed if
    /// there was none.
    pub open spec fn fed(pre: Game, mid: Game, w: u64) -> bool {
        &&& Game::same_settings(pre, mid)
        &&& mid.spec_snake() == pre.spec_snake()
        &&& mid.spec_over() == pre.spec_over()
        &&& mid.spec_waiting() == w
        &&& mid.spec_current() == pre.spec_current()
        &&& pre.spec_food() is Some ==> mid.spec_food() == pre.spec_food()
        &&& pre.spec_food() is None ==> mid.food_placed()
    }

    /// The score to save, if this round beat the best one.
    pub open spec fn pending_spec(&self) -> Option<i32> {
        if self.spec_current() > self.spec_best() {
            Some(self.spec_current())
        } else {
            None
        }
    }

    /// A new game on a `width` by `height` board with the given tunables
    /// and the best score saved so far.
    pub fn new(width: i32, height: i32, config: Config, best_score: i32) -> (r: Game)
        ensures
            r.wf(),
            r.spec_width() == width,
            r.spec_height() == height,
            r.spec_snake().cells() == start_body(START_X, START_Y),
            r.spec_snake().heading() == Direction::Right,
            r.spec_food() == if config.food_exists {
                Some(Block { x: FIRST_FOOD_X, y: FIRST_FOOD_Y })
            } else {
                None
            },
            !r.spec_over(),
            r.spec_waiting() == 0,
            r.spec_period() == config.moving_period,
            r.spec_restart() == config.restart_time,
            r.spec_best() == best_score,
            r.spec_current() == 0,
    {
        let food = if config.food_exists {
            Some(Block { x: FIRST_FOOD_X, y: FIRST_FOOD_Y })
        } else {
            None
        };
        Game {
            snake: Snake::new(START_X, START_Y),
            food,
            width,
            height,
            game_over: false,
            waiting_time: 0,
            moving_period: config.moving_period,
            restart_time: config.restart_time,
            score: best_score,
            game_score: 0,
        }
    }

    pub fn snake(&self) -> (r: &Snake)
        ensures
            *r == self.spec_snake(),
    {
        &self.snake
    }

    pub fn food(&self) -> (r: Option<Block>)
        ensures
            r == self.spec_food(),
    {
        self.food
    }

    pub fn is_game_over(&self) -> (r: bool)
        ensures
            r == self.spec_over(),
    {
        self.game_over
    }

    pub fn waiting_time(&self) -> (r: u64)
        ensures
            r == self.spec_waiting(),
    {
        self.waiting_time
    }

    pub fn current_score(&self) -> (r: i32)
        ensures
            r == self.spec_current(),
    {
        self.game_score
    }

    pub fn best_score(&self) -> (r: i32)
        ensures
            r == self.spec_best(),
    {
        self.score
    }

    /// Whether a move with this turn request keeps the snake alive.
    pub fn check_if_snake_alive(&self, requested: Option<Direction>) -> (r: bool)
        requires
            self.wf(),
        ensures
            r == self.alive_spec(requested),
    {
        let (x, y) = self.snake.next_head(requested);
        if self.snake.overlap_tail(x, y) {
            return false;
        }
        (x as i64) > 0 && (y as i64) > 0 && (x as i64) < (self.width as i64) - 1 && (y as i64)
            < (self.height as i64) - 1
    }

    /// One tick: the snake moves and maybe eats, or the game ends.
    pub fn update_snake(&mut self, requested: Option<Direction>)
        requires
            old(self).wf(),
        ensures
            final(self).wf(),
            Game::ticked(*old(self), *final(self), requested),
    {
        let ghost pre = *self;
        if self.check_if_snake_alive(requested) {
            self.snake.move_forward(requested);
            self.check_eating();
            proof {
                let c = pre.snake.cells();
                let n = pre.snake.next_head_spec(requested);
                if pre.food == Some(n) {
                    assert((seq![n] + c.drop_last()).push(c.last()) =~= seq![n] + c);
                }
            }
        } else {
            self.game_over = true;
        }
        self.waiting_time = 0;
    }

    fn check_eating(&mut self)
        requires
            old(self).spec_snake().wf(),
            0 < old(self).spec_snake().head().x < i32::MAX,
            0 < old(self).spec_snake().head().y < i32::MAX,
            old(self).spec_food() matches Some(f) ==> (f == old(self).spec_snake().head()
                || !old(self).spec_snake().occupies(f.x, f.y)),
            old(self).spec_snake().released() is Some,
        ensures
            final(self).wf(),
            Game::same_settings(*old(self), *final(self)),
            final(self).spec_over() == old(self).spec_over(),
            final(self).spec_waiting() == old(self).spec_waiting(),
            old(self).spec_food() == Some(old(self).spec_snake().head()) ==> {
                &&& Snake::regrown(old(self).spec_snake(), final(self).spec_snake())
                &&& final(self).spec_food() is None
                &&& final(self).spec_current() == bumped(old(self).spec_current())
            },
            old(self).spec_food() != Some(old(self).spec_snake().head()) ==> {
                &&& final(self).spec_snake() == old(self).spec_snake()
                &&& final(self).spec_food() == old(self).spec_food()
                &&& final(self).spec_current() == old(self).spec_current()
            },
    {
        let (hx, hy) = self.snake.head_position();
        match self.food {
            Some(f) => if f.x == hx && f.y == hy {
                self.food = None;
                self.snake.restore_tail();
                if self.game_score < i32::MAX {
                    self.game_score = self.game_score + 1;
                }
            },
            None => {},
        }
    }
    /// Puts food on a free cell drawn at random; leaves no food when the
    /// board has no free cell.
    pub fn add_food(&mut self)
        requires
            old(self).wf(),
        ensures
            final(self).wf(),
            final(self).food_placed(),
            Game::same_settings(*old(self), *final(self)),
            final(self).spec_snake() == old(self).spec_snake(),
            final(self).spec_over() == old(self).spec_over(),
            final(self).spec_waiting() == old(self).spec_waiting(),
            final(self).spec_current() == old(self).spec_current(),
    {
        let w: i64 = self.width as i64;
        let h: i64 = self.height as i64;
        if w < 3 || h < 3 {
            self.food = None;
            assert forall|x: i32, y: i32| !self.is_free(x, y) by {}
            return;
        }
        let mut tries: u32 = 0;
        while tries < FOOD_DRAWS
            invariant
                self.wf(),
                self.width as i64 == w,
                self.height as i64 == h,
                w >= 3,
                h >= 3,
                self.snake == old(self).snake,
                *self == *old(self),
            decreases FOOD_DRAWS - tries,
        {
            let x = random_in(1, w - 1) as i32;
            let y = random_in(1, h - 1) as i32;
            if !self.snake.overlap_tail(x, y) {
                self.food = Some(Block { x, y });
                return;
            }
            tries = tries + 1;
        }
        let mut free: Vec<Block> = Vec::new();
        let mut x: i32 = 1;
        while (x as i64) < w - 1
            invariant
                *self == *old(self),
                self.wf(),
                self.width as i64 == w,
                self.height as i64 == h,
                w >= 3,
                h >= 3,
                1 <= x <= w - 1,
                forall|k: int| 0 <= k < free@.len() ==> self.is_free(#[trigger] free@[k].x, free@[k].y),
                free@.len() == 0 ==> forall|a: i32, b: i32| #[trigger] self.is_free(a, b) ==> a >= x,
            decreases w - x,
        {
            let mut y: i32 = 1;
            while (y as i64) < h - 1
                invariant
                    *self == *old(self),
                    self.wf(),
                    self.width as i64 == w,
                    self.height as i64 == h,
                    w >= 3,
                    h >= 3,
                    1 <= x < w - 1,
                    1 <= y <= h - 1,
                    forall|k: int| 0 <= k < free@.len() ==> self.is_free(#[trigger] free@[k].x, free@[k].y),
                    free@.len() == 0 ==> forall|a: i32, b: i32| #[trigger] self.is_free(a, b) ==> (a > x || (a == x && b >= y)),
                decreases h - y,
            {
                if !self.snake.overlap_tail(x, y) {
                    free.push(Block { x, y });
                }
                y = y + 1;
            }
            x = x + 1;
        }
        if free.len() == 0 {
            let ghost before = *self;
            self.food = None;
            assert forall|a: i32, b: i32| !self.is_free(a, b) by {
                if before.is_free(a, b) {
                    assert(a >= x);
                }
            }
        } else {
            let n: usize = free.len();
            let hi: i64 = if n as u64 > i64::MAX as u64 {
                i64::MAX
            } else {
                n as i64
            };
            let i = random_in(0, hi) as usize;
            let f = free[i];
            assert(self.is_free(free@[i as int].x, free@[i as int].y));
            self.food = Some(f);
        }
    }

    /// The score to save, if this round beat the best one; nothing changes.
    pub fn pending_best(&self) -> (r: Option<i32>)
        ensures
            r == self.pending_spec(),
    {
        if self.game_score > self.score {
            Some(self.game_score)
        } else {
            None
        }
    }

    /// Takes note that `saved` was written as the best score: the best
    /// score becomes the larger of the two.
    pub fn record_best(&mut self, saved: i32)
        requires
            old(self).wf(),
        ensures
            final(self).wf(),
            final(self).spec_best() == if saved > old(self).spec_best() {
                saved
            } else {
                old(self).spec_best()
            },
            final(self).spec_snake() == old(self).spec_snake(),
            final(self).spec_food() == old(self).spec_food(),
            final(self).spec_over() == old(self).spec_over(),
            final(self).spec_waiting() == old(self).spec_waiting(),
            final(self).spec_current() == old(self).spec_current(),
            final(self).spec_width() == old(self).spec_width(),
            final(self).spec_height() == old(self).spec_height(),
            final(self).spec_period() == old(self).spec_period(),
            final(self).spec_restart() == old(self).spec_restart(),
    {
        if saved > self.score {
            self.score = saved;
        }
    }

    /// Starts a new round and hands back the score to save, if the round
    /// that ended beat the best one.
    pub fn restart(&mut self) -> (r: Option<i32>)
        requires
            old(self).wf(),
        ensures
            final(self).wf(),
            Game::restarted(*old(self), *final(self)),
            r == old(self).pending_spec(),
    {
        let r = self.pending_best();
        self.snake = Snake::new(START_X, START_Y);
        self.waiting_time = 0;
        self.food = Some(Block { x: FIRST_FOOD_X, y: FIRST_FOOD_Y });
        self.game_over = false;
        self.game_score = 0;
        r
    }

    /// Lets `delta` microseconds pass. After a game over the game restarts
    /// once the restart time is exceeded, handing back the score to save;
    /// otherwise food is placed if there is none, and the snake is moved
    /// once the moving period is exceeded.
    pub fn update(&mut self, delta: u64) -> (r: Option<i32>)
        requires
            old(self).wf(),
        ensures
            final(self).wf(),
            ({
                let w = sum_held(old(self).spec_waiting(), delta);
                if old(self).spec_over() {
                    if w > old(self).spec_restart() {
                        Game::restarted(*old(self), *final(self)) && r == old(self).pending_spec()
                    } else {
                        &&& r is None
                        &&& Game::same_settings(*old(self), *final(self))
                        &&& final(self).spec_snake() == old(self).spec_snake()
                        &&& final(self).spec_food() == old(self).spec_food()
                        &&& final(self).spec_over()
                        &&& final(self).spec_waiting() == w
                        &&& final(self).spec_current() == old(self).spec_current()
                    }
                } else {
                    &&& r is None
                    &&& exists|mid: Game| #[trigger] Game::fed(*old(self), mid, w) && mid.wf() && if w > old(
                        self,
                    ).spec_period() {
                        Game::ticked(mid, *final(self), None)
                    } else {
                        *final(self) == mid
                    }
                }
            }),
    {
        let w = if self.waiting_time > u64::MAX - delta {
            u64::MAX
        } else {
            self.waiting_time + delta
        };
        self.waiting_time = w;
        if self.game_over {
            if w > self.restart_time {
                return self.restart();
            }
            return None;
        }
        if self.food.is_none() {
            self.add_food();
        }
        let ghost mid = *self;
        if w > self.moving_period {
            self.update_snake(None);
        }
        assert(w == sum_held(old(self).spec_waiting(), delta));
        assert(Game::fed(*old(self), mid, w) && mid.wf() && if w > old(self).spec_period() {
            Game::ticked(mid, *self, None)
        } else {
            *self == mid
        });
        None
    }

    /// Handles a key press: an arrow key turns the snake and moves it at
    /// once, unless the game is over or the key points back along the
    /// heading; any other key does nothing.
    pub fn key_pressed(&mut self, key: Key)
        requires
            old(self).wf(),
        ensures
            final(self).wf(),
            ({
                let d = direction_of_spec(key);
                if old(self).spec_over() || d is None || d == Some(
                    old(self).spec_snake().heading().opposite_spec(),
                ) {
                    *final(self) == *old(self)
                } else {
                    Game::ticked(*old(self), *final(self), d)
                }
            }),
    {
        if self.game_over {
            return;
        }
        let dir = direction_of(key);
        match dir {
            Some(d) => {
                if d == self.snake.head_direction().opposite() {
                    return;
                }
                self.update_snake(dir);
            },
            None => {},
        }
    }
    /// What a frame shows, in drawing order: one block per snake cell from
    /// head to tail, the food if any, the four sides of the border, and a
    /// shade over the whole board once the game is over.
    pub open spec fn frame(&self) -> Seq<Shape> {
        let cells = self.spec_snake().cells();
        let w = self.spec_width();
        let h = self.spec_height();
        Seq::new(cells.len(), |i: int| block_shape(Paint::Snake, cells[i].x, cells[i].y))
            + match self.spec_food() {
            Some(f) => seq![block_shape(Paint::Food, f.x, f.y)],
            None => Seq::<Shape>::empty(),
        } + seq![
            Shape { paint: Paint::Border, x: 0, y: 0, width: w, height: 1 },
            Shape { paint: Paint::Border, x: 0, y: (h - 1) as i32, width: w, height: 1 },
            Shape { paint: Paint::Border, x: 0, y: 0, width: 1, height: h },
            Shape { paint: Paint::Border, x: (w - 1) as i32, y: 0, width: 1, height: h },
        ] + if self.spec_over() {
            seq![Shape { paint: Paint::GameOver, x: 0, y: 0, width: w, height: h }]
        } else {
            Seq::<Shape>::empty()
        }
    }

    /// The rectangles of a frame; see `frame`.
    pub fn draw(&self) -> (r: Vec<Shape>)
        requires
            self.spec_width() > i32::MIN,
            self.spec_height() > i32::MIN,
        ensures
            r@ == self.frame(),
    {
        let cells = self.snake.body();
        let mut r: Vec<Shape> = Vec::new();
        let mut i: usize = 0;
        while i < cells.len()
            invariant
                i <= cells@.len(),
                cells@ == self.spec_snake().cells(),
                r@ == Seq::new(i as nat, |k: int| block_shape(Paint::Snake, cells@[k].x, cells@[k].y)),
            decreases cells@.len() - i,
        {
            let c = cells[i];
            r.push(Shape { paint: Paint::Snake, x: c.x, y: c.y, width: 1, height: 1 });
            i = i + 1;
            assert(r@ =~= Seq::new(i as nat, |k: int| block_shape(Paint::Snake, cells@[k].x, cells@[k].y)));
        }
        let ghost snake_part = r@;
        match self.food {
            Some(f) => r.push(Shape { paint: Paint::Food, x: f.x, y: f.y, width: 1, height: 1 }),
            None => {},
        }
        let ghost fed_part = r@;
        let w = self.width;
        let h = self.height;
        r.push(Shape { paint: Paint::Border, x: 0, y: 0, width: w, height: 1 });
        r.push(Shape { paint: Paint::Border, x: 0, y: h - 1, width: w, height: 1 });
        r.push(Shape { paint: Paint::Border, x: 0, y: 0, width: 1, height: h });
        r.push(Shape { paint: Paint::Border, x: w - 1, y: 0, width: 1, height: h });
        let ghost bordered = r@;
        if self.game_over {
            r.push(Shape { paint: Paint::GameOver, x: 0, y: 0, width: w, height: h });
        }
        proof {
            let food_part = match self.spec_food() {
                Some(f) => seq![block_shape(Paint::Food, f.x, f.y)],
                None => Seq::<Shape>::empty(),
            };
            assert(fed_part =~= snake_part + food_part);
            assert(r@ =~= self.frame());
        }
        r
    }
}

} // verus!

verus! {

/// The border rule: a tick whose next head lies on the border ring or
/// beyond ends the game, and one whose next head is inside the ring and off
/// the snake never does.
pub proof fn lemma_border_rule(pre: Game, post: Game, requested: Option<Direction>)
    requires
        pre.wf(),
        !pre.spec_over(),
        Game::ticked(pre, post, requested),
    ensures
        ({
            let n = pre.spec_snake().next_head_spec(requested);
            &&& !interior(pre.spec_width() as int, pre.spec_height() as int, n.x as int, n.y as int)
                ==> post.spec_over()
            &&& interior(pre.spec_width() as int, pre.spec_height() as int, n.x as int, n.y as int)
                && !pre.spec_snake().occupies(n.x, n.y) ==> !post.spec_over()
        }),
{
}

/// A round's score is saved at most once: it is due exactly when it beats
/// the best score, and once recorded with `record_best` it is due no more.
pub proof fn lemma_save_once(g0: Game, g1: Game)
    requires
        g1.spec_best() == if g0.spec_current() > g0.spec_best() {
            g0.spec_current()
        } else {
            g0.spec_best()
        },
        g1.spec_current() == g0.spec_current(),
    ensures
        g0.pending_spec() is Some <==> g0.spec_current() > g0.spec_best(),
        g0.pending_spec() matches Some(v) ==> v == g0.spec_current(),
        g1.pending_spec() is None,
{
}

} // verus!
