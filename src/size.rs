use vstd::prelude::*;

verus! {

/// Dimensions of a pseudo-terminal: a grid of character cells and,
/// optionally, the pixel extent of that grid.
#[derive(Clone, Copy, Debug, PartialEq, Eq, Structural)]
pub struct PtySize {
    pub rows: u16,
    pub cols: u16,
    pub pixel_width: u16,
    pub pixel_height: u16,
}

/// A cell coordinate in the console subsystem's signed 16-bit form.
#[derive(Clone, Copy, Debug, PartialEq, Eq, Structural)]
pub struct Coord {
    pub x: i16,
    pub y: i16,
}

/// The signed 16-bit value with the same bit pattern as `n`.
pub open spec fn as_i16(n: u16) -> int {
    if n <= 0x7fff { n as int } else { n as int - 0x10000 }
}

/// The console coordinate that describes a grid of `size`: columns on the
/// horizontal axis, rows on the vertical one.
pub open spec fn coord_of(size: PtySize) -> Coord {
    Coord { x: as_i16(size.cols) as i16, y: as_i16(size.rows) as i16 }
}

impl PtySize {
    pub fn new(rows: u16, cols: u16, pixel_width: u16, pixel_height: u16) -> (r: PtySize)
        ensures
            r.rows == rows,
            r.cols == cols,
            r.pixel_width == pixel_width,
            r.pixel_height == pixel_height,
    {
        PtySize { rows, cols, pixel_width, pixel_height }
    }

    /// The console coordinate for this grid.
    pub fn coord(&self) -> (r: Coord)
        ensures
            r == coord_of(*self),
            r.x as int == as_i16(self.cols),
            r.y as int == as_i16(self.rows),
    {
        Coord { x: to_i16(self.cols), y: to_i16(self.rows) }
    }
}

/// Reinterprets the bits of `n` as a signed value, as the console API reads them.
pub fn to_i16(n: u16) -> (r: i16)
    ensures
        r as int == as_i16(n),
{
    if n <= 0x7fff {
        n as i16
    } else {
        (n as i32 - 0x10000) as i16
    }
}

} // verus!
