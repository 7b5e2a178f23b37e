use vstd::prelude::*;

verus! {

/// A coordinate point. Each coordinate is carried as the bit pattern of its
/// IEEE-754 double, so the shape layer moves points without interpreting them.
#[derive(Clone, Copy, Debug, PartialEq, Eq, Structural)]
pub struct Point {
    pub x_bits: u64,
    pub y_bits: u64,
}

impl Point {
    /// Builds a point from the bit patterns of its two coordinates.
    pub fn new(x_bits: u64, y_bits: u64) -> (r: Point)
        ensures
            r.x_bits == x_bits,
            r.y_bits == y_bits,
    {
        Point { x_bits, y_bits }
    }
}

} // verus!
