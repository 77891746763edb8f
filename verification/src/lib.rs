//! The simulation core of a grid-based snake game: a snake that moves cell
//! by cell, eats the food it runs over and grows by it, on a grid where food
//! is placed at random on free cells.
//!
//! `ground` holds the cells and the grid, `player` the snake and its rules,
//! `food` the food and its placement, and `simulation` the game as one state
//! that goes from tick to tick. Windows, keys, clocks and drawing are left to
//! the program around this library: it hands in the keys that are held and
//! reads the cells back.

pub mod config;
pub mod food;
pub mod ground;
pub mod player;
pub mod simulation;

use vstd::prelude::*;

verus! {

/// A cap on how many entities of a kind may be alive at once.
pub trait MaxEntities {
    /// The cap.
    spec fn max() -> usize;

    /// The cap, as a number to compute with.
    fn count() -> (count: usize)
        ensures
            count == Self::max(),
    ;

    /// Whether the cap leaves room beside `current` entities.
    fn is_more_than(current: usize) -> (room: bool)
        ensures
            room == (Self::max() > current),
    {
        Self::count() > current
    }
}

} // verus!
