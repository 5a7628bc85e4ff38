//! Laws of the simulation, stated once over the spec-level model and proved
//! for every input they speak of.

use vstd::prelude::*;
use crate::GAME_HEIGHT;
use crate::GAME_LENGTH;
use crate::geometry::Direction;
use crate::geometry::Point;
use crate::geometry::distinct;
use crate::geometry::in_grid;
use crate::geometry::occupied;
use crate::geometry::step_pos;
use crate::sim::advanced_snake;
use crate::sim::move_kills;
use crate::sim::resolve_direction;

verus! {

/// The opposite mapping on directions is an involution: taking the opposite
/// twice gives the direction back.
pub proof fn lemma_opposite_involutive(d: Direction)
    ensures
        d.opposite().opposite() == d,
{
}

/// A reversal intent is always rejected: the oldest pending intent being the
/// exact opposite of the committed direction leaves that direction unchanged,
/// and so does an intent equal to it.
pub proof fn lemma_reversal_rejected(cur: Direction)
    ensures
        resolve_direction(cur, Option::Some(cur.opposite())) == cur,
        resolve_direction(cur, Option::Some(cur)) == cur,
{
}

/// Exactly one cell changes hands on a surviving non-eating tick: the new
/// head's cell joins the body, the old tail's cell leaves it, every other
/// cell keeps its membership, and the length stays the same. On an eating
/// tick the body strictly grows by one: the new head's cell, previously
/// free, joins and no cell leaves.
pub proof fn lemma_step_membership(snake: Seq<Point>, nh: Point, eating: bool)
    requires
        snake.len() >= 1,
        distinct(snake),
        !move_kills(snake, nh, eating),
    ensures
        advanced_snake(snake, nh, eating).len() == if eating {
            snake.len() + 1
        } else {
            snake.len()
        },
        eating ==> !snake.contains(nh),
        eating ==> forall|p: Point|
            #[trigger] advanced_snake(snake, nh, true).contains(p) <==> (p == nh || snake.contains(
                p,
            )),
        !eating ==> forall|p: Point|
            #[trigger] advanced_snake(snake, nh, false).contains(p) <==> (p == nh || (
            snake.contains(p) && p != snake.last())),
{
    let adv = advanced_snake(snake, nh, eating);
    if eating {
        assert(!snake.contains(nh)) by {
            if snake.contains(nh) {
                let k = choose|k: int| 0 <= k < snake.len() && snake[k] == nh;
                assert(occupied(nh, snake));
            }
        }
        assert forall|p: Point| #[trigger] adv.contains(p) <==> (p == nh || snake.contains(p)) by {
            if adv.contains(p) {
                let k = choose|k: int| 0 <= k < adv.len() && adv[k] == p;
                if k > 0 {
                    assert(snake[k - 1] == p);
                }
            }
            if p == nh {
                assert(adv[0] == p);
            }
            if snake.contains(p) {
                let k = choose|k: int| 0 <= k < snake.len() && snake[k] == p;
                assert(adv[k + 1] == p);
            }
        }
    } else {
        let last = snake.last();
        assert forall|p: Point| #[trigger] adv.contains(p) <==> (p == nh || (snake.contains(p) && p
            != last)) by {
            if adv.contains(p) {
                let k = choose|k: int| 0 <= k < adv.len() && adv[k] == p;
                if k > 0 {
                    assert(snake.drop_last()[k - 1] == p);
                    assert(snake[k - 1] == p);
                    assert(p != last) by {
                        assert(snake[k - 1] != snake[snake.len() - 1]);
                    }
                }
            }
            if p == nh {
                assert(adv[0] == p);
            }
            if snake.contains(p) && p != last {
                let k = choose|k: int| 0 <= k < snake.len() && snake[k] == p;
                assert(k < snake.len() - 1) by {
                    if k == snake.len() - 1 {
                        assert(p == last);
                    }
                }
                assert(adv[k + 1] == snake.drop_last()[k]);
                assert(adv[k + 1] == p);
            }
        }
    }
}

/// The tail cell counts as vacated on a non-eating tick: a head landing
/// exactly on the current tail's cell of a self-overlap-free body is not a
/// collision, so the snake survives that move.
pub proof fn lemma_tail_cell_vacated(snake: Seq<Point>)
    requires
        snake.len() >= 1,
        distinct(snake),
        in_grid(snake.last()),
    ensures
        !move_kills(snake, snake.last(), false),
{
    if occupied(snake.last(), snake.drop_last()) {
        let k = choose|k: int|
            0 <= k < snake.drop_last().len() && snake.drop_last()[k] == snake.last();
        assert(snake[k] == snake[snake.len() - 1]);
    }
}

/// Leaving the grid is decided exactly at the edge: from a cell on the field,
/// moving left leaves iff x is 1, right iff x is the width, up iff y is 1,
/// down iff y is the height — one cell in from the edge never leaves.
pub proof fn lemma_boundary(h: Point)
    requires
        in_grid(h),
    ensures
        !in_grid(step_pos(h, Direction::Left)) <==> h.x == 1,
        !in_grid(step_pos(h, Direction::Right)) <==> h.x == GAME_LENGTH,
        !in_grid(step_pos(h, Direction::Up)) <==> h.y == 1,
        !in_grid(step_pos(h, Direction::Down)) <==> h.y == GAME_HEIGHT,
{
}

/// A single-segment snake cannot collide with itself: its only cell is the
/// tail, vacated as the head moves, so only leaving the grid kills it.
pub proof fn lemma_single_segment_no_self_collision(snake: Seq<Point>, nh: Point)
    requires
        snake.len() == 1,
    ensures
        move_kills(snake, nh, false) == !in_grid(nh),
{
    assert(snake.drop_last().len() == 0);
}

} // verus!
