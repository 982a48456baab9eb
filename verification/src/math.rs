//! The four-wide vector record that the camera and the uniform block carry.
//! Each lane holds the 32-bit pattern of one single-precision component as a
//! plain integer, so layout and bookkeeping are exact while the numeric work
//! on the components stays with the caller.

use vstd::prelude::*;

verus! {

/// A four-lane vector of 32-bit lane patterns. The fourth lane is reserved
/// padding for the 16-byte alignment of the uniform block and stays zero in
/// every vector this library builds.
#[derive(Clone, Copy, Debug, PartialEq, Eq, Structural)]
pub struct Vec4Bits {
    pub x: u32,
    pub y: u32,
    pub z: u32,
    pub w: u32,
}

impl Vec4Bits {
    /// A vector from three lane patterns, with the reserved lane zero.
    pub fn new(x: u32, y: u32, z: u32) -> (v: Vec4Bits)
        ensures
            v == (Vec4Bits { x, y, z, w: 0 }),
    {
        Vec4Bits { x, y, z, w: 0 }
    }

    /// The all-zero vector; the zero pattern encodes the value zero.
    pub fn zero() -> (v: Vec4Bits)
        ensures
            v == (Vec4Bits { x: 0, y: 0, z: 0, w: 0 }),
    {
        Vec4Bits { x: 0, y: 0, z: 0, w: 0 }
    }
}

} // verus!
