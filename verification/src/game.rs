use vstd::prelude::*;
use crate::command::Command;
use crate::direction::Direction;
use crate::point::{Point, transformed};
use crate::snake::{Snake, slither_view};
use crate::timing::{elapsed_millis, instant_now};
use crate::ui::UI;
use rand::Rng;

verus! {

/// The longest tick interval, in milliseconds, used at speed 0.
pub const MAX_INTERVAL: u16 = 700;

/// The shortest tick interval, in milliseconds, approached at top speed.
pub const MIN_INTERVAL: u16 = 200;

/// The highest speed level; the speed ramp never passes it.
pub const MAX_SPEED: u16 = 20;

/// How many segments a snake starts with.
pub const INITIAL_SNAKE_LENGTH: u16 = 3;

/// The shortest grid side that fits the initial snake in every heading and
/// keeps the speed ramp's divisor above zero.
pub const MIN_GRID_SIDE: u16 = 5;

/// Why a game could not be constructed from the requested grid size.
#[derive(Clone, Copy, Debug, PartialEq, Eq, Structural)]
pub enum ConfigError {
    /// A grid side is shorter than `MIN_GRID_SIDE`, so the initial snake
    /// would not fit in every heading.
    GridTooSmall,
    /// The grid area exceeds the coordinate range of the score arithmetic.
    GridTooLarge,
}

/// Relies on rand::thread_rng and rand::Rng::gen_range: on the non-empty
/// range `0..n` the draw returns a value below `n` (an empty range would
/// panic).
#[verifier::external_body]
fn random_below(n: u16) -> (r: u16)
    requires
        n > 0,
    ensures
        r < n,
{
    rand::thread_rng().gen_range(0..n)
}

/// Whether `q` is the cell one step from `p` along `direction`, compared
/// over unbounded coordinates, so that a step off the coordinate range
/// matches no cell at all.
pub open spec fn one_step_to(p: Point, direction: Direction, q: Point) -> bool {
    match direction {
        Direction::Up => q.x == p.x && q.y + 1 == p.y,
        Direction::Right => q.y == p.y && q.x == p.x + 1,
        Direction::Down => q.x == p.x && q.y == p.y + 1,
        Direction::Left => q.y == p.y && q.x + 1 == p.x,
    }
}

fn is_one_step(p: Point, direction: Direction, q: Point) -> (r: bool)
    ensures
        r == one_step_to(p, direction, q),
{
    match direction {
        Direction::Up => q.x == p.x && (q.y as u32) + 1 == (p.y as u32),
        Direction::Right => q.y == p.y && (q.x as u32) == (p.x as u32) + 1,
        Direction::Down => q.x == p.x && (q.y as u32) == (p.y as u32) + 1,
        Direction::Left => q.y == p.y && (q.x as u32) + 1 == (p.x as u32),
    }
}

/// The game: grid dimensions, the snake, at most one outstanding food
/// point, the current speed level and the score.
#[derive(Debug)]
pub struct Game {
    pub food: Option<Point>,
    pub snake: Snake,
    pub width: u16,
    pub height: u16,
    pub speed: u16,
    pub score: u16,
}

impl Game {
    /// Whether `p` lies on the grid.
    pub open spec fn in_grid(self, p: Point) -> bool {
        p.x < self.width && p.y < self.height
    }

    /// The game's invariant: a grid with valid dimensions, a well-formed
    /// snake lying on it, a speed within the ramp's range, and any
    /// outstanding food on a free grid cell.
    pub open spec fn wf(self) -> bool {
        &&& MIN_GRID_SIDE <= self.width
        &&& MIN_GRID_SIDE <= self.height
        &&& self.width * self.height <= u16::MAX
        &&& self.speed <= MAX_SPEED
        &&& self.snake.wf()
        &&& self.snake@.len() >= 2
        &&& forall|i: int| 0 <= i < self.snake@.len() ==> self.in_grid(#[trigger] self.snake@[i])
        &&& match self.food {
            Some(p) => self.in_grid(p) && !self.snake@.contains(p),
            None => true,
        }
    }

    /// The wall-collision predicate: the head sits on the grid edge toward
    /// the current heading, so the next step would leave the grid.
    pub open spec fn wall_hit(self) -> bool {
        match self.snake.direction_spec() {
            Direction::Up => self.snake@[0].y == 0,
            Direction::Right => self.snake@[0].x == self.width - 1,
            Direction::Down => self.snake@[0].y == self.height - 1,
            Direction::Left => self.snake@[0].x == 0,
        }
    }

    /// The cell the head would move onto at the next tick.
    pub open spec fn next_head(self) -> Point {
        transformed(self.snake@[0], self.snake.direction_spec(), 1)
    }

    /// The self-collision predicate: the projected next head, computed
    /// before moving, lands on a body segment other than the current head
    /// and the current tail.
    pub open spec fn bitten(self) -> bool {
        exists|i: int|
            1 <= i < self.snake@.len() - 1 && one_step_to(
                self.snake@[0],
                self.snake.direction_spec(),
                #[trigger] self.snake@[i],
            )
    }

    /// Whether the snake is about to eat: food is outstanding and the
    /// projected next head lands on it.
    pub open spec fn about_to_eat(self) -> bool {
        match self.food {
            Some(p) => self.next_head() == p,
            None => false,
        }
    }

    /// Builds a game on a `width` by `height` grid: a snake of
    /// `INITIAL_SNAKE_LENGTH` segments centered on the grid with a random
    /// heading, no food yet, and score and speed at zero. A grid whose
    /// sides cannot hold the initial snake in every heading is refused, as
    /// is one whose area exceeds the coordinate range.
    pub fn new(width: u16, height: u16) -> (r: Result<Game, ConfigError>)
        ensures
            match r {
                Ok(g) => {
                    &&& MIN_GRID_SIDE <= width
                    &&& MIN_GRID_SIDE <= height
                    &&& width * height <= u16::MAX
                    &&& g.wf()
                    &&& g.width == width
                    &&& g.height == height
                    &&& g.food is None
                    &&& g.score == 0
                    &&& g.speed == 0
                    &&& g.snake@.len() == INITIAL_SNAKE_LENGTH
                    &&& forall|i: int|
                        0 <= i < g.snake@.len() ==> #[trigger] g.snake@[i] == transformed(
                            Point { x: width / 2, y: height / 2 },
                            g.snake.direction_spec().opposite_spec(),
                            i as u16,
                        )
                    &&& g.snake@[0] == (Point { x: width / 2, y: height / 2 })
                    &&& !g.snake.digesting_spec()
                },
                Err(e) => match e {
                    ConfigError::GridTooSmall => width < MIN_GRID_SIDE || height < MIN_GRID_SIDE,
                    ConfigError::GridTooLarge => {
                        &&& MIN_GRID_SIDE <= width
                        &&& MIN_GRID_SIDE <= height
                        &&& width * height > u16::MAX
                    },
                },
            },
    {
        if width < MIN_GRID_SIDE || height < MIN_GRID_SIDE {
            return Err(ConfigError::GridTooSmall);
        }
        proof {
            assert((width as int) * (height as int) < 0x1_0000_0000) by (nonlinear_arith)
                requires
                    width < 0x1_0000,
                    height < 0x1_0000,
            ;
        }
        if (width as u32) * (height as u32) > (u16::MAX as u32) {
            return Err(ConfigError::GridTooLarge);
        }
        let heading = match random_below(4) {
            0 => Direction::Up,
            1 => Direction::Right,
            2 => Direction::Down,
            _ => Direction::Left,
        };
        let head = Point::new(width / 2, height / 2);
        let snake = Snake::new(head, INITIAL_SNAKE_LENGTH, heading);
        let g = Game { food: None, snake, width, height, speed: 0, score: 0 };
        proof {
            assert forall|i: int| 0 <= i < g.snake@.len() implies g.in_grid(
                #[trigger] g.snake@[i],
            ) by {
                assert(g.snake@[i] == transformed(head, heading.opposite_spec(), i as u16));
            }
        }
        Ok(g)
    }

    /// Places the food on a random free cell: cells are drawn uniformly and
    /// rejected while they land on the snake's body. Should an astronomical
    /// run of draws all be rejected, a scan settles for the first free cell,
    /// and only a snake covering the whole grid leaves the food unset.
    /// Nothing else changes.
    pub fn place_food(&mut self)
        requires
            old(self).width >= 1,
            old(self).height >= 1,
        ensures
            final(self).snake == old(self).snake,
            final(self).width == old(self).width,
            final(self).height == old(self).height,
            final(self).speed == old(self).speed,
            final(self).score == old(self).score,
            match final(self).food {
                Some(p) => final(self).in_grid(p) && !final(self).snake@.contains(p),
                None => forall|p: Point|
                    final(self).in_grid(p) ==> final(self).snake@.contains(p),
            },
    {
        let mut attempts: u64 = 0;
        while attempts < u64::MAX
            invariant
                self.snake == old(self).snake,
                self.width == old(self).width,
                self.height == old(self).height,
                self.speed == old(self).speed,
                self.score == old(self).score,
                self.width >= 1,
                self.height >= 1,
            decreases u64::MAX - attempts,
        {
            let random_x = random_below(self.width);
            let random_y = random_below(self.height);

            let point = Point::new(random_x, random_y);
            if !self.snake.contains_point(&point) {
                self.food = Some(point);
                return;
            }
            attempts = attempts + 1;
        }

        let mut y: u16 = 0;
        while y < self.height
            invariant
                self.snake == old(self).snake,
                self.width == old(self).width,
                self.height == old(self).height,
                self.speed == old(self).speed,
                self.score == old(self).score,
                y <= self.height,
                forall|p: Point|
                    p.x < self.width && p.y < y ==> self.snake@.contains(p),
            decreases self.height - y,
        {
            let mut x: u16 = 0;
            while x < self.width
                invariant
                    self.snake == old(self).snake,
                    self.width == old(self).width,
                    self.height == old(self).height,
                    self.speed == old(self).speed,
                    self.score == old(self).score,
                    x <= self.width,
                    y < self.height,
                    forall|p: Point|
                        p.x < self.width && p.y < y ==> self.snake@.contains(p),
                    forall|p: Point| p.y == y && p.x < x ==> self.snake@.contains(p),
                decreases self.width - x,
            {
                let point = Point::new(x, y);
                if !self.snake.contains_point(&point) {
                    self.food = Some(point);
                    return;
                }
                x = x + 1;
            }
            y = y + 1;
        }
        self.food = None;
    }

    /// The tick interval in milliseconds, linearly interpolated from
    /// `MAX_INTERVAL` at speed 0 down toward `MIN_INTERVAL` as the speed
    /// approaches `MAX_SPEED`.
    pub fn calculate_interval(&self) -> (r: u64)
        requires
            self.speed <= MAX_SPEED,
        ensures
            r == MIN_INTERVAL + (((MAX_INTERVAL - MIN_INTERVAL) as int) / (MAX_SPEED as int)) * (
            MAX_SPEED - self.speed),
    {
        let speed = MAX_SPEED - self.speed;
        (MIN_INTERVAL + ((MAX_INTERVAL - MIN_INTERVAL) / MAX_SPEED) * speed) as u64
    }

    /// Whether the head sits on the grid edge toward the current heading.
    pub fn has_collided_with_wall(&self) -> (r: bool)
        requires
            self.snake@.len() >= 1,
            self.width >= 1,
            self.height >= 1,
        ensures
            r == self.wall_hit(),
    {
        let head_point = self.snake.get_head_point();

        match self.snake.get_direction() {
            Direction::Up => head_point.y == 0,
            Direction::Right => head_point.x == self.width - 1,
            Direction::Down => head_point.y == self.height - 1,
            Direction::Left => head_point.x == 0,
        }
    }

    /// Whether the projected next head position, computed before moving,
    /// lands on a current body segment other than the head and the tail.
    pub fn has_bitten_itself(&self) -> (r: bool)
        requires
            self.snake@.len() >= 2,
        ensures
            r == self.bitten(),
    {
        let head_point = self.snake.get_head_point();
        let direction = self.snake.get_direction();
        let mut next_body_points = self.snake.get_body_points();
        let last: usize = next_body_points.len() - 1;
        next_body_points.remove(last);
        next_body_points.remove(0);
        proof {
            assert(next_body_points@ =~= self.snake@.subrange(1, self.snake@.len() - 1));
        }

        let mut i: usize = 0;
        while i < next_body_points.len()
            invariant
                self.snake@.len() >= 2,
                next_body_points@ == self.snake@.subrange(1, self.snake@.len() - 1),
                head_point == self.snake@[0],
                direction == self.snake.direction_spec(),
                i <= next_body_points@.len(),
                forall|j: int|
                    0 <= j < i ==> !one_step_to(
                        self.snake@[0],
                        self.snake.direction_spec(),
                        #[trigger] next_body_points@[j],
                    ),
            decreases next_body_points@.len() - i,
        {
            if is_one_step(head_point, direction, next_body_points[i]) {
                proof {
                    assert(one_step_to(
                        self.snake@[0],
                        self.snake.direction_spec(),
                        self.snake@[i + 1],
                    ));
                    assert(self.bitten());
                }
                return true;
            }
            i = i + 1;
        }
        proof {
            assert forall|k: int| 1 <= k < self.snake@.len() - 1 implies !one_step_to(
                self.snake@[0],
                self.snake.direction_spec(),
                #[trigger] self.snake@[k],
            ) by {
                assert(self.snake@[k] == next_body_points@[k - 1]);
            }
        }
        false
    }

    /// Applies a turn command, judged against the snake's current heading:
    /// a command equal to that heading or to its opposite is ignored, so
    /// such a command never changes the heading.
    pub fn apply_turn(&mut self, towards: Direction)
        ensures
            final(self).snake@ == old(self).snake@,
            final(self).snake.digesting_spec() == old(self).snake.digesting_spec(),
            final(self).food == old(self).food,
            final(self).width == old(self).width,
            final(self).height == old(self).height,
            final(self).speed == old(self).speed,
            final(self).score == old(self).score,
            final(self).snake.direction_spec() == if towards == old(self).snake.direction_spec()
                || towards == old(self).snake.direction_spec().opposite_spec() {
                old(self).snake.direction_spec()
            } else {
                towards
            },
    {
        let direction = self.snake.get_direction();
        if direction != towards && direction.opposite() != towards {
            self.snake.set_direction(towards);
        }
    }

    /// The speed level after the score changed: one level is gained when
    /// the new score is a multiple of the grid-area threshold
    /// `(width * height) / MAX_SPEED`, and the speed never passes
    /// `MAX_SPEED`.
    pub open spec fn bumped_speed(self, new_score: u16) -> u16 {
        if (new_score as int) % ((self.width * self.height) / (MAX_SPEED as int)) == 0 && self.speed
            < MAX_SPEED {
            (self.speed + 1) as u16
        } else {
            self.speed
        }
    }

    /// One tick boundary. If the heading runs the head into a wall, or the
    /// projected next head into the body, the game is over and nothing
    /// moves. Otherwise the snake slithers; if its new head reaches the
    /// food, the snake grows, the food moves to a random free cell, the
    /// score rises by one and the speed follows the ramp.
    pub fn tick(&mut self) -> (alive: bool)
        requires
            old(self).wf(),
        ensures
            final(self).wf(),
            final(self).width == old(self).width,
            final(self).height == old(self).height,
            alive == !(old(self).wall_hit() || old(self).bitten()),
            !alive ==> *final(self) == *old(self),
            alive ==> final(self).snake@ == slither_view(
                old(self).snake@,
                old(self).snake.direction_spec(),
                old(self).snake.digesting_spec(),
            ),
            alive ==> final(self).snake.direction_spec() == old(self).snake.direction_spec(),
            alive ==> final(self).snake.digesting_spec() == old(self).about_to_eat(),
            alive && old(self).about_to_eat() ==> {
                &&& final(self).score == if old(self).score < u16::MAX {
                    (old(self).score + 1) as u16
                } else {
                    old(self).score
                }
                &&& final(self).speed == old(self).bumped_speed(final(self).score)
                &&& match final(self).food {
                    Some(p) => final(self).in_grid(p) && !final(self).snake@.contains(p),
                    None => forall|p: Point|
                        final(self).in_grid(p) ==> final(self).snake@.contains(p),
                }
            },
            alive && !old(self).about_to_eat() ==> {
                &&& final(self).score == old(self).score
                &&& final(self).speed == old(self).speed
                &&& final(self).food == old(self).food
            },
            final(self).score >= old(self).score,
            final(self).speed >= old(self).speed,
            final(self).snake@.len() >= old(self).snake@.len(),
    {
        let wall = self.has_collided_with_wall();
        if wall {
            return false;
        }
        proof {
            assert(self.in_grid(self.snake@[0]));
        }
        let bitten = self.has_bitten_itself();
        if bitten {
            return false;
        }

        self.snake.slither();
        proof {
            assert forall|i: int| 0 <= i < self.snake@.len() implies self.in_grid(
                #[trigger] self.snake@[i],
            ) by {
                if i >= 1 {
                    assert(self.snake@[i] == old(self).snake@[i - 1]);
                    assert(old(self).in_grid(old(self).snake@[i - 1]));
                }
            }
        }

        let mut ate = false;
        if let Some(food_point) = self.food {
            if self.snake.get_head_point() == food_point {
                ate = true;
                self.snake.grow();
                if self.score < u16::MAX {
                    self.score = self.score + 1;
                }
                proof {
                    assert(self.width * self.height >= 25) by (nonlinear_arith)
                        requires
                            self.width >= 5,
                            self.height >= 5,
                    ;
                }
                let threshold = (self.width * self.height) / MAX_SPEED;
                if self.score % threshold == 0 && self.speed < MAX_SPEED {
                    self.speed = self.speed + 1;
                }
                self.place_food();
            }
        }
        if !ate {
            proof {
                if let Some(p) = self.food {
                    assert forall|i: int| 0 <= i < self.snake@.len() implies #[trigger] self
                        .snake@[i] != p by {
                        if i >= 1 {
                            assert(self.snake@[i] == old(self).snake@[i - 1]);
                            assert(old(self).snake@[i - 1] != p);
                        }
                    }
                    assert(!self.snake@.contains(p));
                }
            }
        }
        true
    }

    /// Drives the game loop. The first food is placed, the UI is
    /// initialized and an initial frame is rendered; then each iteration
    /// polls for commands within the tick interval, applying valid turns at
    /// once, and at the tick boundary advances the game, rendering after
    /// every live tick. A quit command ends the loop at once, before the
    /// boundary; a collision ends it at the boundary; either way the UI is
    /// shut down exactly once with the final state.
    pub fn run<U: UI>(&mut self, ui: &mut U)
        requires
            old(self).wf(),
        ensures
            final(self).wf(),
            final(self).width == old(self).width,
            final(self).height == old(self).height,
            final(self).score >= old(self).score,
            final(self).speed >= old(self).speed,
            final(self).snake@.len() >= old(self).snake@.len(),
    {
        self.place_food();
        ui.init(self);
        ui.render(self);

        let mut done = false;
        let mut ticks: u64 = 0;
        while !done && ticks < u64::MAX
            invariant
                self.wf(),
                self.width == old(self).width,
                self.height == old(self).height,
                self.score >= old(self).score,
                self.speed >= old(self).speed,
                self.snake@.len() >= old(self).snake@.len(),
            decreases u64::MAX - ticks,
        {
            ticks = ticks + 1;
            let interval = self.calculate_interval();
            let start = instant_now();

            let mut polls: u64 = 0;
            while polls < u64::MAX
                invariant
                    self.wf(),
                    self.width == old(self).width,
                    self.height == old(self).height,
                    self.score >= old(self).score,
                    self.speed >= old(self).speed,
                    self.snake@.len() >= old(self).snake@.len(),
                decreases u64::MAX - polls,
            {
                polls = polls + 1;
                let elapsed = elapsed_millis(&start);
                if elapsed >= interval {
                    break;
                }
                if let Some(command) = ui.get_command(interval - elapsed) {
                    match command {
                        Command::Quit => {
                            done = true;
                            break;
                        },
                        Command::Turn(towards) => {
                            self.apply_turn(towards);
                        },
                    }
                }
            }

            if !done {
                if self.tick() {
                    ui.render(self);
                } else {
                    done = true;
                }
            }
        }

        ui.shutdown(self);
    }
}

/// The speed ramp never takes a bounded speed past `MAX_SPEED`, whatever
/// the score does.
pub proof fn lemma_speed_never_exceeds_maximum(g: Game, new_score: u16)
    requires
        g.speed <= MAX_SPEED,
    ensures
        g.bumped_speed(new_score) <= MAX_SPEED,
{
}

} // verus!
