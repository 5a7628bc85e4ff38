//! Grid cells, movement directions, and the predicates the simulation is
//! built on: cell occupancy, body distinctness, and the bounds check.

use vstd::prelude::*;
use crate::GAME_HEIGHT;
use crate::GAME_LENGTH;

verus! {

/// A cell of the playing field. Coordinates are 1-indexed: `x` runs from 1 to
/// `GAME_LENGTH` and `y` from 1 to `GAME_HEIGHT` for cells on the field.
#[derive(PartialEq, Eq, Structural, Clone, Copy, Debug)]
pub struct Point {
    pub x: u8,
    pub y: u8,
}

/// One of the four movement directions of the snake.
#[derive(PartialEq, Eq, Structural, Clone, Copy, Debug)]
pub enum Direction {
    Up,
    Down,
    Left,
    Right,
}

impl Direction {
    /// The direction pointing the opposite way; this mapping is involutive.
    pub open spec fn opposite(self) -> Direction {
        match self {
            Direction::Up => Direction::Down,
            Direction::Down => Direction::Up,
            Direction::Left => Direction::Right,
            Direction::Right => Direction::Left,
        }
    }

    /// Returns the opposite direction (Up for Down, Left for Right, and back).
    pub fn get_opposite(self: &Self) -> (r: Direction)
        ensures
            r == self.opposite(),
    {
        match self {
            Direction::Up => Direction::Down,
            Direction::Down => Direction::Up,
            Direction::Left => Direction::Right,
            Direction::Right => Direction::Left,
        }
    }
}

/// A point lies on the playing field iff both coordinates are between 1 and
/// the grid dimension, inclusive.
pub open spec fn in_grid(p: Point) -> bool {
    &&& 1 <= p.x <= GAME_LENGTH
    &&& 1 <= p.y <= GAME_HEIGHT
}

/// A point is occupied by the snake iff it equals one of its segments.
pub open spec fn occupied(p: Point, snake: Seq<Point>) -> bool {
    exists|i: int| 0 <= i < snake.len() && snake[i] == p
}

/// No two segments of the sequence coincide.
pub open spec fn distinct(s: Seq<Point>) -> bool {
    forall|i: int, j: int| 0 <= i < j < s.len() ==> s[i] != s[j]
}

/// Returns whether `values` equals one of the points in `vec`; used both for
/// self-collision detection and for rejecting food placements inside the body.
pub fn is_in_vec(values: &Point, vec: &Vec<Point>) -> (r: bool)
    ensures
        r == occupied(*values, vec@),
{
    let mut i: usize = 0;
    while i < vec.len()
        invariant
            0 <= i <= vec@.len(),
            forall|k: int| 0 <= k < i ==> vec@[k] != *values,
        decreases vec@.len() - i,
    {
        if vec[i] == *values {
            return true;
        }
        i = i + 1;
    }
    false
}

/// Returns whether a point lies outside the playing field.
pub fn is_out_of_bounds(p: &Point) -> (r: bool)
    ensures
        r == !in_grid(*p),
{
    p.x < 1 || p.x > GAME_LENGTH || p.y < 1 || p.y > GAME_HEIGHT
}

/// Returns whether the body already collides with itself, that is, whether
/// some two of its segments coincide.
pub fn does_snake_die(snake: &Vec<Point>) -> (r: bool)
    ensures
        r == !distinct(snake@),
{
    let mut i: usize = 0;
    while i < snake.len()
        invariant
            0 <= i <= snake@.len(),
            forall|a: int, b: int| 0 <= a < b < i ==> snake@[a] != snake@[b],
        decreases snake@.len() - i,
    {
        let mut j: usize = 0;
        while j < i
            invariant
                0 <= j <= i < snake@.len(),
                forall|b: int| 0 <= b < j ==> snake@[b] != snake@[i as int],
            decreases i - j,
        {
            if snake[j] == snake[i] {
                return true;
            }
            j = j + 1;
        }
        i = i + 1;
    }
    false
}

/// Returns whether the snake's head (or any segment) sits on the food cell.
pub fn yum_yum(snake: &Vec<Point>, money: &Point) -> (r: bool)
    ensures
        r == occupied(*money, snake@),
{
    is_in_vec(money, snake)
}

/// The cell one step from `p` along `d`: Up decrements y, Down increments y,
/// Left decrements x, Right increments x.
pub open spec fn step_pos(p: Point, d: Direction) -> Point
    recommends
        in_grid(p),
{
    match d {
        Direction::Up => (Point { x: p.x, y: (p.y - 1) as u8 }),
        Direction::Down => (Point { x: p.x, y: (p.y + 1) as u8 }),
        Direction::Left => (Point { x: (p.x - 1) as u8, y: p.y }),
        Direction::Right => (Point { x: (p.x + 1) as u8, y: p.y }),
    }
}

/// Computes the head's next cell when moving along `d`.
pub fn next_head(p: &Point, d: &Direction) -> (r: Point)
    requires
        in_grid(*p),
    ensures
        r == step_pos(*p, *d),
{
    match d {
        Direction::Up => (Point { x: p.x, y: p.y - 1 }),
        Direction::Down => (Point { x: p.x, y: p.y + 1 }),
        Direction::Left => (Point { x: p.x - 1, y: p.y }),
        Direction::Right => (Point { x: p.x + 1, y: p.y }),
    }
}

} // verus!
