//! Grid cells and the mapping between the grid and render space.

use crate::config::{CELL_HEIGHT, CELL_WIDTH, HALF_HEIGHT, HALF_WIDTH};
use crate::player::Direction;
use vstd::prelude::*;

verus! {

/// A cell of the grid. `z` is a layer: it orders what is drawn and plays no
/// part in the simulation.
#[derive(Clone, Copy, Debug, PartialEq, Eq, Structural)]
pub struct Position {
    pub x: i32,
    pub y: i32,
    pub z: i32,
}

impl Position {
    pub fn new(x: i32, y: i32, z: i32) -> (position: Self)
        ensures
            position == (Position { x, y, z }),
    {
        Self { x, y, z }
    }

    /// The position one cell further along a heading, on the same layer.
    pub open spec fn stepped(self, direction: Direction) -> Position {
        Position {
            x: (self.x + direction.dx()) as i32,
            y: (self.y + direction.dy()) as i32,
            z: self.z,
        }
    }

    /// Two positions lie on the same cell when both axes agree exactly; the
    /// layer is not compared.
    pub open spec fn same_cell(self, other: Position) -> bool {
        self.x == other.x && self.y == other.y
    }
}

/// The extent of the grid, in cells: the cells `(x, y)` with `0 <= x < width`
/// and `0 <= y < height`. A grid has at least one cell.
#[derive(Clone, Copy, Debug, PartialEq, Eq, Structural)]
pub struct Grid {
    width: u16,
    height: u16,
}

impl Grid {
    #[verifier::type_invariant]
    pub open spec fn has_cells(self) -> bool {
        self.columns() > 0 && self.rows() > 0
    }

    /// How many cells the grid is wide.
    pub closed spec fn columns(&self) -> u16 {
        self.width
    }

    /// How many cells the grid is high.
    pub closed spec fn rows(&self) -> u16 {
        self.height
    }

    /// Whether a position lies on a cell of the grid.
    pub open spec fn holds(&self, position: &Position) -> bool {
        0 <= position.x < self.columns() && 0 <= position.y < self.rows()
    }

    /// The grid of the given extent. There is none without cells.
    pub fn new(width: u16, height: u16) -> (grid: Option<Grid>)
        ensures
            (width == 0 || height == 0) <==> grid is None,
            grid matches Some(grid) ==> grid.columns() == width && grid.rows() == height,
    {
        if width == 0 || height == 0 {
            None
        } else {
            Some(Grid { width, height })
        }
    }

    #[verifier::when_used_as_spec(columns)]
    pub fn width(&self) -> (width: u16)
        ensures
            width == self.columns(),
            width > 0,
    {
        proof {
            use_type_invariant(self);
        }
        self.width
    }

    #[verifier::when_used_as_spec(rows)]
    pub fn height(&self) -> (height: u16)
        ensures
            height == self.rows(),
            height > 0,
    {
        proof {
            use_type_invariant(self);
        }
        self.height
    }

    #[verifier::when_used_as_spec(holds)]
    pub fn contains(&self, position: &Position) -> (inside: bool)
        ensures
            inside == self.holds(position),
    {
        0 <= position.x && position.x < self.width as i32 && 0 <= position.y && position.y
            < self.height as i32
    }
}

/// The rules that tie cells to one another and to render space.
pub struct CoordSystem;

impl CoordSystem {
    /// Where on an axis of render space something lies that is `size` pixels
    /// long and sits on the cell `cell`. Render space has its origin in the
    /// middle of the window, the grid has its own in the lower left corner.
    pub open spec fn translation(cell: int, cell_size: int, half_extent: int, size: int) -> int {
        cell * cell_size - half_extent + size / 2
    }

    /// The product of two `i32` leaves room in an `i64`.
    proof fn product_fits(a: int, b: int)
        requires
            i32::MIN <= a <= i32::MAX,
            i32::MIN <= b <= i32::MAX,
        ensures
            -0x4000_0000_0000_0000 <= a * b <= 0x4000_0000_0000_0000,
    {
        assert(-0x4000_0000_0000_0000 <= a * b <= 0x4000_0000_0000_0000) by (nonlinear_arith)
            requires
                -0x8000_0000 <= a <= 0x7fff_ffff,
                -0x8000_0000 <= b <= 0x7fff_ffff,
        ;
    }

    /// Returns the translation of the coordinate system: the place in render
    /// space, in pixels, of something of the given size that sits on the cell
    /// of `position`.
    pub fn get_translate(position: &Position, size: (u32, u32)) -> (translate: (i64, i64))
        ensures
            translate.0 == Self::translation(
                position.x as int,
                CELL_WIDTH as int,
                HALF_WIDTH as int,
                size.0 as int,
            ),
            translate.1 == Self::translation(
                position.y as int,
                CELL_HEIGHT as int,
                HALF_HEIGHT as int,
                size.1 as int,
            ),
    {
        let half_scale_x: i64 = (size.0 / 2) as i64;
        let half_scale_y: i64 = (size.1 / 2) as i64;

        proof {
            Self::product_fits(position.x as int, CELL_WIDTH as int);
            Self::product_fits(position.y as int, CELL_HEIGHT as int);
        }
        let x: i64 = (position.x as i64 * CELL_WIDTH as i64) - HALF_WIDTH as i64 + half_scale_x;
        let y: i64 = (position.y as i64 * CELL_HEIGHT as i64) - HALF_HEIGHT as i64 + half_scale_y;

        (x, y)
    }

    pub fn in_one_position(first: &Position, other: &Position) -> (same: bool)
        ensures
            same == first.same_cell(*other),
    {
        first.x == other.x && first.y == other.y
    }
}

} // verus!
