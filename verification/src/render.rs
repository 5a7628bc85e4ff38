//! The render projection: turns the game state into a 2-D glyph grid, one
//! character per cell, for an external display collaborator to draw. The
//! projection is pure; drawing, borders and the score line are out of scope.

use vstd::prelude::*;
use crate::GAME_HEIGHT;
use crate::GAME_LENGTH;
use crate::geometry::Point;
use crate::geometry::in_grid;
use crate::geometry::is_in_vec;
use crate::geometry::occupied;
use crate::sim::GameState;

verus! {

/// Glyph of a cell nothing sits on.
pub const EMPTY_GLYPH: char = '~';

/// Glyph of a non-head snake segment.
pub const BODY_GLYPH: char = '@';

/// Glyph of the snake's head.
pub const HEAD_GLYPH: char = '&';

/// Glyph of the food cell.
pub const FOOD_GLYPH: char = '$';

/// A glyph grid of the field's dimensions: `GAME_HEIGHT` rows of
/// `GAME_LENGTH` cells, indexed `[row][col]` with row `y - 1` and column
/// `x - 1` of the cell at `(x, y)`.
pub open spec fn grid_dims(g: Seq<Vec<char>>) -> bool {
    &&& g.len() == GAME_HEIGHT
    &&& forall|r: int| 0 <= r < g.len() ==> (#[trigger] g[r])@.len() == GAME_LENGTH
}

/// The glyph a full frame shows at column `col`, row `row` (0-indexed): the
/// head wins over everything, body segments win over food, and food is shown
/// only on a cell free of the snake.
pub open spec fn frame_glyph(snake: Seq<Point>, food: Point, col: int, row: int) -> char {
    let p = Point { x: (col + 1) as u8, y: (row + 1) as u8 };
    if snake.len() > 0 && p == snake[0] {
        HEAD_GLYPH
    } else if occupied(p, snake) {
        BODY_GLYPH
    } else if p == food {
        FOOD_GLYPH
    } else {
        EMPTY_GLYPH
    }
}

/// Draws the snake over a background grid: the head cell becomes
/// `HEAD_GLYPH`, every other body cell `BODY_GLYPH`, and all remaining cells
/// keep the background's glyph.
pub fn snake_to_display(display_arr: &Vec<Vec<char>>, snake_vec: &Vec<Point>) -> (r: Vec<
    Vec<char>,
>)
    requires
        grid_dims(display_arr@),
        snake_vec@.len() >= 1,
        forall|i: int| 0 <= i < snake_vec@.len() ==> in_grid(#[trigger] snake_vec@[i]),
    ensures
        grid_dims(r@),
        forall|row: int, col: int|
            0 <= row < GAME_HEIGHT && 0 <= col < GAME_LENGTH ==> #[trigger] r@[row]@[col] == ({
                let p = Point { x: (col + 1) as u8, y: (row + 1) as u8 };
                if p == snake_vec@[0] {
                    HEAD_GLYPH
                } else if occupied(p, snake_vec@) {
                    BODY_GLYPH
                } else {
                    display_arr@[row]@[col]
                }
            }),
{
    let head = snake_vec[0];
    let mut rows: Vec<Vec<char>> = Vec::new();
    let mut row: u8 = 0;
    while row < GAME_HEIGHT
        invariant
            grid_dims(display_arr@),
            snake_vec@.len() >= 1,
            head == snake_vec@[0],
            row <= GAME_HEIGHT,
            rows@.len() == row,
            forall|r: int| 0 <= r < rows@.len() ==> (#[trigger] rows@[r])@.len() == GAME_LENGTH,
            forall|r: int, c: int|
                0 <= r < rows@.len() && 0 <= c < GAME_LENGTH ==> #[trigger] rows@[r]@[c] == ({
                    let p = Point { x: (c + 1) as u8, y: (r + 1) as u8 };
                    if p == snake_vec@[0] {
                        HEAD_GLYPH
                    } else if occupied(p, snake_vec@) {
                        BODY_GLYPH
                    } else {
                        display_arr@[r]@[c]
                    }
                }),
        decreases GAME_HEIGHT - row,
    {
        let mut line: Vec<char> = Vec::new();
        let mut col: u8 = 0;
        while col < GAME_LENGTH
            invariant
                grid_dims(display_arr@),
                snake_vec@.len() >= 1,
                head == snake_vec@[0],
                row < GAME_HEIGHT,
                col <= GAME_LENGTH,
                line@.len() == col,
                forall|c: int|
                    0 <= c < line@.len() ==> #[trigger] line@[c] == ({
                        let p = Point { x: (c + 1) as u8, y: (row + 1) as u8 };
                        if p == snake_vec@[0] {
                            HEAD_GLYPH
                        } else if occupied(p, snake_vec@) {
                            BODY_GLYPH
                        } else {
                            display_arr@[row as int]@[c]
                        }
                    }),
            decreases GAME_LENGTH - col,
        {
            let p = Point { x: col + 1, y: row + 1 };
            let glyph = if p == head {
                HEAD_GLYPH
            } else if is_in_vec(&p, snake_vec) {
                BODY_GLYPH
            } else {
                display_arr[row as usize][col as usize]
            };
            line.push(glyph);
            col = col + 1;
        }
        rows.push(line);
        row = row + 1;
    }
    rows
}

/// Projects the whole state into a frame: an empty background with the food
/// glyph on its cell, overdrawn by the snake — so food is never drawn over a
/// body cell, and the head is always visible.
pub fn render_frame(state: &GameState) -> (r: Vec<Vec<char>>)
    requires
        state.snake_ok(),
        in_grid(state.food),
    ensures
        grid_dims(r@),
        forall|row: int, col: int|
            0 <= row < GAME_HEIGHT && 0 <= col < GAME_LENGTH ==> #[trigger] r@[row]@[col]
                == frame_glyph(state.snake@, state.food, col, row),
{
    let mut base: Vec<Vec<char>> = Vec::new();
    let mut row: u8 = 0;
    while row < GAME_HEIGHT
        invariant
            row <= GAME_HEIGHT,
            base@.len() == row,
            forall|r: int| 0 <= r < base@.len() ==> (#[trigger] base@[r])@.len() == GAME_LENGTH,
            forall|r: int, c: int|
                0 <= r < base@.len() && 0 <= c < GAME_LENGTH ==> #[trigger] base@[r]@[c] == ({
                    let p = Point { x: (c + 1) as u8, y: (r + 1) as u8 };
                    if p == state.food {
                        FOOD_GLYPH
                    } else {
                        EMPTY_GLYPH
                    }
                }),
        decreases GAME_HEIGHT - row,
    {
        let mut line: Vec<char> = Vec::new();
        let mut col: u8 = 0;
        while col < GAME_LENGTH
            invariant
                row < GAME_HEIGHT,
                col <= GAME_LENGTH,
                line@.len() == col,
                forall|c: int|
                    0 <= c < line@.len() ==> #[trigger] line@[c] == ({
                        let p = Point { x: (c + 1) as u8, y: (row + 1) as u8 };
                        if p == state.food {
                            FOOD_GLYPH
                        } else {
                            EMPTY_GLYPH
                        }
                    }),
            decreases GAME_LENGTH - col,
        {
            let p = Point { x: col + 1, y: row + 1 };
            let glyph = if p == state.food {
                FOOD_GLYPH
            } else {
                EMPTY_GLYPH
            };
            line.push(glyph);
            col = col + 1;
        }
        base.push(line);
        row = row + 1;
    }
    snake_to_display(&base, &state.snake)
}

} // verus!
