//! The 64x32 monochrome display buffer: XOR drawing with collision
//! reporting, independent of any rendering backend.

use crate::util::Math2d;
use vstd::prelude::*;

verus! {

/// Pixels per display row.
pub const DISPLAY_WIDTH: u32 = 64;

/// Display rows.
pub const DISPLAY_HEIGHT: u32 = 32;

/// Index of the cell that the coordinate pair lands on, after wrapping
/// each axis by modulo.
pub open spec fn cell_index(x: u8, y: u8) -> int {
    64 * (y as int % 32) + (x as int % 64)
}

/// The grid after XOR-toggling the cell at (x, y), paired with the
/// collision answer: true iff that cell went from on to off.
pub open spec fn put_pixel_spec(d: Seq<u8>, x: u8, y: u8) -> (Seq<u8>, bool) {
    let idx = cell_index(x, y);
    (d.update(idx, if d[idx] == 0 { 1u8 } else { 0u8 }), d[idx] == 1)
}

/// An all-off grid.
pub open spec fn cleared_grid() -> Seq<u8> {
    Seq::new(2048, |j: int| 0u8)
}

/// 64x32 grid of one-byte cells, 0 = off, 1 = on, stored row-major.
pub struct DisplayBuffer {
    grid: [u8; 2048],
}

impl View for DisplayBuffer {
    type V = Seq<u8>;

    closed spec fn view(&self) -> Seq<u8> {
        self.grid@
    }
}

impl DisplayBuffer {
    /// An all-off display.
    pub fn new() -> (d: DisplayBuffer)
        ensures
            d@ =~= cleared_grid(),
    {
        DisplayBuffer { grid: [0; 2048] }
    }

    /// XOR-toggles the pixel at (x, y), wrapping both coordinates by
    /// modulo. Returns true iff the pixel went from on to off.
    pub fn put(&mut self, x: u8, y: u8) -> (collided: bool)
        ensures
            final(self)@ == put_pixel_spec(old(self)@, x, y).0,
            collided == put_pixel_spec(old(self)@, x, y).1,
    {
        let cx = Math2d::wrap_coord(x, DISPLAY_WIDTH);
        let cy = Math2d::wrap_coord(y, DISPLAY_HEIGHT);
        let idx = 64 * (cy as usize) + (cx as usize);
        let was_on = self.grid[idx] == 1;
        self.grid[idx] = if self.grid[idx] == 0 { 1 } else { 0 };
        proof {
            assert(final(self)@ =~= put_pixel_spec(old(self)@, x, y).0);
        }
        was_on
    }

    /// Turns every pixel off.
    pub fn clear(&mut self)
        ensures
            final(self)@ =~= cleared_grid(),
    {
        self.grid = [0; 2048];
    }

    /// Whether the pixel at (x, y) is on, wrapping both coordinates.
    pub fn is_pixel_on(&self, x: u8, y: u8) -> (r: bool)
        ensures
            r == (self@[cell_index(x, y)] == 1),
    {
        let cx = Math2d::wrap_coord(x, DISPLAY_WIDTH);
        let cy = Math2d::wrap_coord(y, DISPLAY_HEIGHT);
        self.grid[64 * (cy as usize) + (cx as usize)] == 1
    }

    /// A copy of the whole grid, for the rendering backend.
    pub fn get_grid(&self) -> (r: [u8; 2048])
        ensures
            r@ == self@,
    {
        self.grid
    }
}

} // verus!
