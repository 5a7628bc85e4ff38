//! The per-tick simulation: intent resolution, head projection, the death
//! check with the tail-vacate rule, the commit of the move, and food
//! respawning by rejection sampling with a board-full terminal check.

use vstd::prelude::*;
use crate::GAME_HEIGHT;
use crate::GAME_LENGTH;
use crate::geometry::Direction;
use crate::geometry::Point;
use crate::geometry::distinct;
use crate::geometry::in_grid;
use crate::geometry::is_in_vec;
use crate::geometry::is_out_of_bounds;
use crate::geometry::next_head;
use crate::geometry::occupied;
use crate::geometry::step_pos;
use crate::intent::IntentQueue;
use crate::rng::rand_coord;

verus! {

/// Number of segments the snake starts with.
pub const STARTING_SNAKE: u8 = 4;

/// The direction a tick commits, given the current one and the oldest pending
/// intent: the intent is accepted only if it is neither the current direction
/// nor its exact opposite; a reversal or a no-op leaves the direction as it was.
pub open spec fn resolve_direction(cur: Direction, intent: Option<Direction>) -> Direction {
    match intent {
        Option::None => cur,
        Option::Some(d) => if d == cur || d == cur.opposite() {
            cur
        } else {
            d
        },
    }
}

/// Whether moving the head to `nh` kills the snake: leaving the grid is fatal,
/// and so is landing on a body cell — except that on a non-eating tick the
/// tail cell is vacated simultaneously, so only the body without its last
/// segment counts.
pub open spec fn move_kills(snake: Seq<Point>, nh: Point, eating: bool) -> bool
    recommends
        snake.len() >= 1,
{
    ||| !in_grid(nh)
    ||| (if eating {
        occupied(nh, snake)
    } else {
        occupied(nh, snake.drop_last())
    })
}

/// The body after a surviving move to `nh`: the new head is prepended, and on
/// a non-eating tick the tail is dropped.
pub open spec fn advanced_snake(snake: Seq<Point>, nh: Point, eating: bool) -> Seq<Point>
    recommends
        snake.len() >= 1,
{
    if eating {
        seq![nh] + snake
    } else {
        seq![nh] + snake.drop_last()
    }
}

/// Accepts or rejects the oldest pending intent against the current direction.
pub fn accept_intent(current: Direction, intent: Option<Direction>) -> (r: Direction)
    ensures
        r == resolve_direction(current, intent),
{
    match intent {
        Option::None => current,
        Option::Some(d) => {
            if d == current || d == current.get_opposite() {
                current
            } else {
                d
            }
        },
    }
}

/// Decides whether committing a move of the head to `nh` would kill the snake,
/// honoring the tail-vacate rule on non-eating ticks.
pub fn move_kills_snake(snake: &Vec<Point>, nh: &Point, eating: bool) -> (r: bool)
    requires
        snake@.len() >= 1,
    ensures
        r == move_kills(snake@, *nh, eating),
{
    if is_out_of_bounds(nh) {
        return true;
    }
    let limit: usize = if eating {
        snake.len()
    } else {
        snake.len() - 1
    };
    let mut i: usize = 0;
    while i < limit
        invariant
            limit <= snake@.len(),
            eating ==> limit == snake@.len(),
            !eating ==> limit == snake@.len() - 1,
            forall|k: int| 0 <= k < i ==> snake@[k] != *nh,
        decreases limit - i,
    {
        if snake[i] == *nh {
            proof {
                if !eating {
                    assert(snake@.drop_last()[i as int] == *nh);
                }
            }
            return true;
        }
        i = i + 1;
    }
    assert(!eating ==> !occupied(*nh, snake@.drop_last())) by {
        if !eating && occupied(*nh, snake@.drop_last()) {
            let k = choose|k: int| 0 <= k < snake@.drop_last().len() && snake@.drop_last()[k] == *nh;
            assert(snake@[k] == *nh);
        }
    }
    false
}

/// Scans the whole grid for a cell the snake does not occupy; returns `None`
/// exactly when every cell of the field is occupied.
fn find_free_cell(snake: &Vec<Point>) -> (r: Option<Point>)
    ensures
        (r matches Some(p) ==> in_grid(p) && !occupied(p, snake@)),
        r is None ==> forall|p: Point| in_grid(p) ==> occupied(p, snake@),
{
    let mut x: u8 = 1;
    while x <= GAME_LENGTH
        invariant
            1 <= x <= GAME_LENGTH + 1,
            forall|p: Point| in_grid(p) && p.x < x ==> occupied(p, snake@),
        decreases GAME_LENGTH + 1 - x,
    {
        let mut y: u8 = 1;
        while y <= GAME_HEIGHT
            invariant
                1 <= x <= GAME_LENGTH,
                1 <= y <= GAME_HEIGHT + 1,
                forall|p: Point| in_grid(p) && p.x < x ==> occupied(p, snake@),
                forall|p: Point| in_grid(p) && p.x == x && p.y < y ==> occupied(p, snake@),
            decreases GAME_HEIGHT + 1 - y,
        {
            let candidate = Point { x, y };
            if !is_in_vec(&candidate, snake) {
                return Some(candidate);
            }
            y = y + 1;
        }
        x = x + 1;
    }
    None
}

/// Most random draws tried before the scanned free cell is used instead;
/// keeps the sampling loop provably finite.
pub const RESAMPLE_ATTEMPTS: u32 = 1000;

/// Picks a food cell at random among the cells the snake does not occupy, by
/// rejection sampling: draw, reject if occupied, retry. Returns `None` exactly
/// when the board is fully occupied, which the caller treats as winning the
/// game. When a free cell exists, the retries are capped at
/// `RESAMPLE_ATTEMPTS`, after which the scan's free cell is used, so the loop
/// always terminates.
pub fn respawn_food(snake: &Vec<Point>, rng: &mut rand::rngs::ThreadRng) -> (r: Option<Point>)
    ensures
        (r matches Some(p) ==> in_grid(p) && !occupied(p, snake@)),
        r is None <==> (forall|p: Point| in_grid(p) ==> occupied(p, snake@)),
{
    match find_free_cell(snake) {
        Option::None => None,
        Option::Some(free) => {
            let mut attempts: u32 = 0;
            while attempts < RESAMPLE_ATTEMPTS
                invariant
                    in_grid(free),
                    !occupied(free, snake@),
                decreases RESAMPLE_ATTEMPTS - attempts,
            {
                let x = rand_coord(rng, 1, GAME_LENGTH);
                let y = rand_coord(rng, 1, GAME_HEIGHT);
                let candidate = Point { x, y };
                if !is_in_vec(&candidate, snake) {
                    return Some(candidate);
                }
                attempts = attempts + 1;
            }
            Some(free)
        },
    }
}

/// The oldest pending intent of a queue, if any.
pub open spec fn oldest_intent(q: Seq<Direction>) -> Option<Direction> {
    if q.len() == 0 {
        Option::None
    } else {
        Option::Some(q[0])
    }
}

/// A surviving move preserves the body invariants: the advanced body starts at
/// the new head, stays distinct and on the grid, and its length grows by one
/// exactly on eating ticks.
pub proof fn lemma_advance_preserves(snake: Seq<Point>, nh: Point, eating: bool)
    requires
        snake.len() >= 1,
        distinct(snake),
        forall|i: int| 0 <= i < snake.len() ==> in_grid(#[trigger] snake[i]),
        !move_kills(snake, nh, eating),
    ensures
        advanced_snake(snake, nh, eating)[0] == nh,
        advanced_snake(snake, nh, eating).len() == if eating {
            snake.len() + 1
        } else {
            snake.len()
        },
        distinct(advanced_snake(snake, nh, eating)),
        forall|i: int|
            0 <= i < advanced_snake(snake, nh, eating).len() ==> in_grid(
                #[trigger] advanced_snake(snake, nh, eating)[i],
            ),
{
    let adv = advanced_snake(snake, nh, eating);
    let rest = if eating {
        snake
    } else {
        snake.drop_last()
    };
    assert forall|i: int, j: int| 0 <= i < j < adv.len() implies adv[i] != adv[j] by {
        if i == 0 {
            assert(adv[j] == rest[j - 1]);
            if adv[j] == nh {
                assert(occupied(nh, rest));
            }
        } else {
            assert(adv[i] == rest[i - 1] && adv[j] == rest[j - 1]);
            if eating {
                assert(rest[i - 1] != rest[j - 1]);
            } else {
                assert(snake[i - 1] != snake[j - 1]);
            }
        }
    }
    assert forall|i: int| 0 <= i < adv.len() implies in_grid(adv[i]) by {
        if i > 0 {
            assert(adv[i] == rest[i - 1] && rest[i - 1] == snake[i - 1]);
        }
    }
}

/// The whole game state a tick mutates: the body, the food cell, the committed
/// direction, the eating flag carried into the next commit, and the two
/// terminal flags.
pub struct GameState {
    pub snake: Vec<Point>,
    pub food: Point,
    pub direction: Direction,
    pub eating: bool,
    pub death: bool,
    pub won: bool,
}

impl GameState {
    /// The body invariant: at least one segment, no two segments coincide, and
    /// every segment lies on the field.
    pub open spec fn snake_ok(&self) -> bool {
        &&& self.snake@.len() >= 1
        &&& distinct(self.snake@)
        &&& forall|i: int| 0 <= i < self.snake@.len() ==> in_grid(#[trigger] self.snake@[i])
    }

    /// Full well-formedness: the body invariant plus a food cell on the field
    /// and outside the body. A won game (fully occupied board) has no such
    /// food cell, so this holds of every state that is not won.
    pub open spec fn wf(&self) -> bool {
        &&& self.snake_ok()
        &&& in_grid(self.food)
        &&& !occupied(self.food, self.snake@)
    }

    /// The freshly started game: a horizontal snake on the middle row with its
    /// head rightmost, heading right, food near the right edge, no flag set.
    pub fn new() -> (s: GameState)
        ensures
            s.wf(),
            !s.death,
            !s.eating,
            !s.won,
            s.direction == Direction::Right,
            s.snake@.len() == STARTING_SNAKE as int,
            forall|i: int|
                0 <= i < s.snake@.len() ==> s.snake@[i] == (Point {
                    x: (STARTING_SNAKE - i) as u8,
                    y: (GAME_HEIGHT / 2) as u8,
                }),
            s.food == (Point { x: (GAME_LENGTH - 1) as u8, y: (GAME_HEIGHT / 2) as u8 }),
    {
        let mid = GAME_HEIGHT / 2;
        let mut snake_vec: Vec<Point> = Vec::new();
        let mut num = STARTING_SNAKE;
        while num >= 1
        invariant
            num <= STARTING_SNAKE,
            mid == GAME_HEIGHT / 2,
            snake_vec@.len() == STARTING_SNAKE - num,
            forall|i: int|
                0 <= i < snake_vec@.len() ==> snake_vec@[i] == (Point {
                    x: (STARTING_SNAKE - i) as u8,
                    y: (GAME_HEIGHT / 2) as u8,
                }),
        decreases num,
        {
            snake_vec.push(Point { x: num, y: mid });
            num = num - 1;
        }
        let s = GameState {
            snake: snake_vec,
            food: Point { x: GAME_LENGTH - 1, y: mid },
            direction: Direction::Right,
            eating: false,
            death: false,
            won: false,
        };
        proof {
            assert forall|i: int, j: int| 0 <= i < j < s.snake@.len() implies s.snake@[i]
                != s.snake@[j] by {
                assert(s.snake@[i].x == STARTING_SNAKE - i);
                assert(s.snake@[j].x == STARTING_SNAKE - j);
            }
            assert(!occupied(s.food, s.snake@)) by {
                if occupied(s.food, s.snake@) {
                    let k = choose|k: int| 0 <= k < s.snake@.len() && s.snake@[k] == s.food;
                    assert(s.snake@[k].x <= STARTING_SNAKE);
                }
            }
        }
        s
    }

    /// Segments gained since the start: the score the display shows. Zero
    /// until the body outgrows its starting length.
    pub fn score(&self) -> (r: usize)
        ensures
            r == if self.snake@.len() >= STARTING_SNAKE as int {
                self.snake@.len() - STARTING_SNAKE as int
            } else {
                0int
            },
    {
        if self.snake.len() >= STARTING_SNAKE as usize {
            self.snake.len() - STARTING_SNAKE as usize
        } else {
            0
        }
    }

    /// Advances the game by one tick: commits the oldest acceptable intent,
    /// projects the head, declares death on leaving the grid or on a
    /// self-collision (the tail cell counting as vacated when not eating), and
    /// otherwise commits the move, checks for food, and respawns it — or
    /// declares the game won when no free cell is left.
    pub fn tick(&mut self, queue: &mut IntentQueue, rng: &mut rand::rngs::ThreadRng)
        requires
            old(self).wf(),
            !old(self).death,
            !old(self).won,
            old(queue).wf(),
        ensures
            final(queue).wf(),
            final(queue)@ == if old(queue)@.len() == 0 {
                old(queue)@
            } else {
                old(queue)@.skip(1)
            },
            final(self).direction == resolve_direction(
                old(self).direction,
                oldest_intent(old(queue)@),
            ),
            final(self).death == move_kills(
                old(self).snake@,
                step_pos(old(self).snake@[0], final(self).direction),
                old(self).eating,
            ),
            final(self).death ==> final(self).snake@ == old(self).snake@ && final(self).food
                == old(self).food && final(self).eating == old(self).eating,
            !final(self).death ==> final(self).snake@ == advanced_snake(
                old(self).snake@,
                step_pos(old(self).snake@[0], final(self).direction),
                old(self).eating,
            ),
            !final(self).death ==> final(self).eating == (step_pos(
                old(self).snake@[0],
                final(self).direction,
            ) == old(self).food),
            final(self).death || !final(self).eating ==> final(self).won == old(self).won
                && final(self).food == old(self).food,
            !final(self).death && final(self).eating && !final(self).won ==> in_grid(
                final(self).food,
            ) && !occupied(final(self).food, final(self).snake@),
            !final(self).death && final(self).eating ==> (final(self).won <==> (forall|p: Point|
                in_grid(p) ==> occupied(p, final(self).snake@))),
            final(self).won ==> final(self).food == old(self).food,
            in_grid(final(self).food),
            final(self).snake_ok(),
            !final(self).won ==> final(self).wf(),
    {
        let intent = queue.pop();
        let dir = accept_intent(self.direction, intent);
        self.direction = dir;
        let head = self.snake[0];
        let nh = next_head(&head, &dir);
        if move_kills_snake(&self.snake, &nh, self.eating) {
            self.death = true;
        } else {
            proof {
                lemma_advance_preserves(self.snake@, nh, self.eating);
            }
            let was_eating = self.eating;
            if self.eating {
                self.eating = false;
            } else {
                let _ = self.snake.pop();
            }
            self.snake.insert(0, nh);
            proof {
                assert(self.snake@ =~= advanced_snake(old(self).snake@, nh, was_eating));
                assert(!occupied(old(self).food, self.snake@) || nh == old(self).food) by {
                    if occupied(old(self).food, self.snake@) && nh != old(self).food {
                        let k = choose|k: int|
                            0 <= k < self.snake@.len() && self.snake@[k] == old(self).food;
                        if was_eating {
                            assert(self.snake@[k] == old(self).snake@[k - 1]);
                        } else {
                            assert(self.snake@[k] == old(self).snake@.drop_last()[k - 1]);
                            assert(self.snake@[k] == old(self).snake@[k - 1]);
                        }
                        assert(occupied(old(self).food, old(self).snake@));
                    }
                }
            }
            if nh == self.food {
                self.eating = true;
                match respawn_food(&self.snake, rng) {
                    Option::Some(p) => {
                        self.food = p;
                    },
                    Option::None => {
                        self.won = true;
                    },
                }
            }
        }
    }
}

} // verus!
