//! The playing field: its dimensions, the glyphs drawn on it and the cell the
//! frog starts from.

use vstd::prelude::*;

verus! {

/// Number of columns of the board.
pub const WIDTH: usize = 20;

/// Number of rows of the board.
pub const HEIGHT: usize = 10;

/// Column the frog starts in, and returns to after a crossing.
pub const START_X: usize = WIDTH / 2;

/// Row the frog starts in, and returns to after a crossing.
pub const START_Y: usize = HEIGHT - 1;

/// Glyph of the frog.
pub const FROG_CHAR: char = '@';

/// Glyph of a car.
pub const CAR_CHAR: char = '>';

/// Background glyph of the lower half of the board.
pub const ROAD_CHAR: char = '-';

/// Background glyph of the upper half of the board.
pub const WATER_CHAR: char = '~';

/// The four ways the frog can hop.
#[derive(Clone, Copy, Debug, PartialEq, Eq, Structural)]
pub enum Direction {
    Up,
    Down,
    Left,
    Right,
}

/// Whether `(x, y)` names a cell of the board.
pub open spec fn on_board(x: int, y: int) -> bool {
    0 <= x < WIDTH && 0 <= y < HEIGHT
}

/// Background glyph of row `y`: water in the upper half, road below it.
pub open spec fn background(y: int) -> char {
    if y < HEIGHT / 2 {
        WATER_CHAR
    } else {
        ROAD_CHAR
    }
}

} // verus!
