//! Three-axis sensor samples in integer counts.

use vstd::prelude::*;

verus! {

/// One raw reading of a three-axis sensor, in the sensor's own counts and axes.
#[derive(Clone, Copy, Debug, PartialEq, Eq, Structural)]
pub struct I16x3 {
    pub x: i16,
    pub y: i16,
    pub z: i16,
}

/// A three-axis reading in counts, widened so that a difference of two raw
/// counts and the negation of any raw count are both representable.
#[derive(Clone, Copy, Debug, PartialEq, Eq, Structural)]
pub struct I32x3 {
    pub x: i32,
    pub y: i32,
    pub z: i32,
}

impl I32x3 {
    /// Whether the reading is the zero vector, which carries no direction.
    pub fn is_zero(&self) -> (zero: bool)
        ensures
            zero <==> (self.x == 0 && self.y == 0 && self.z == 0),
    {
        self.x == 0 && self.y == 0 && self.z == 0
    }
}

} // verus!
