//! The point type that gradient geometries are anchored on.

use vstd::prelude::*;

verus! {

/// A point in 2-D space; each coordinate is the bit pattern of an IEEE 754
/// binary64 value. The crate stores and compares coordinates and never
/// computes on them, so they stay exact bit patterns throughout.
#[derive(Clone, Copy, PartialEq, Eq, Debug, Structural)]
pub struct Point {
    /// Horizontal coordinate, binary64 bits.
    pub x: u64,
    /// Vertical coordinate, binary64 bits.
    pub y: u64,
}

impl Point {
    /// Builds the point with the given coordinate words.
    pub fn new(x: u64, y: u64) -> (r: Self)
        ensures
            r == (Point { x, y }),
    {
        Point { x, y }
    }
}

impl Default for Point {
    /// The default point is the origin; zero words encode zero.
    fn default() -> (r: Self)
        ensures
            r == (Point { x: 0, y: 0 }),
    {
        Point { x: 0, y: 0 }
    }
}

} // verus!
