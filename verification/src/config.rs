//! Constants fixed at startup.

use vstd::prelude::*;

verus! {

// Window, in pixels
pub const WIDTH: i32 = 300;

pub const HEIGHT: i32 = 300;

pub const HALF_WIDTH: i32 = 150;

pub const HALF_HEIGHT: i32 = 150;

// Grid
pub const GRID_WIDTH: u16 = 10;

pub const GRID_HEIGHT: u16 = 10;

// Cell, in pixels
pub const CELL_WIDTH: i32 = 30;

pub const CELL_HEIGHT: i32 = 30;

// Player
pub const PLAYER_X: i32 = 0;

pub const PLAYER_Y: i32 = 0;

pub const PLAYER_Z: i32 = 1;

// Food
pub const MAX_FOOD_COUNT: usize = 10;

pub const FOOD_COLOR_FIRST: u16 = 240;

pub const FOOD_COLOR_END: u16 = 300;

/// The window is as wide as the grid's columns of cells and as high as its
/// rows, its halves are halves, and there is a hue to draw food with.
pub proof fn constants_agree()
    ensures
        CELL_WIDTH * GRID_WIDTH == WIDTH,
        CELL_HEIGHT * GRID_HEIGHT == HEIGHT,
        HALF_WIDTH * 2 == WIDTH,
        HALF_HEIGHT * 2 == HEIGHT,
        GRID_WIDTH > 0 && GRID_HEIGHT > 0,
        FOOD_COLOR_FIRST < FOOD_COLOR_END,
{
}

} // verus!
