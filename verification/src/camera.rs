//! Camera-facing core: the camera's uniform snapshot (origin and orthonormal
//! basis, one 32-bit lane pattern per component), the pitch clamp that keeps
//! the basis away from the poles, and the decision of how a movement key
//! displaces the origin.

use vstd::prelude::*;

use crate::math::Vec4Bits;

verus! {

/// The camera state that one frame's uniform block snapshots: the origin and
/// a right-handed orthonormal basis (`w` forward, `u` right, `v` up), each
/// component held as the 32-bit pattern of its single-precision value. The
/// numeric derivation of the basis is the caller's; this record fixes which
/// fields each camera operation may touch.
#[derive(Clone, Copy, Debug, PartialEq, Eq, Structural)]
pub struct CameraUniforms {
    pub origin: Vec4Bits,
    pub u: Vec4Bits,
    pub v: Vec4Bits,
    pub w: Vec4Bits,
}

impl CameraUniforms {
    /// The all-zero snapshot used before the first frame.
    pub open spec fn spec_zeroed() -> CameraUniforms {
        CameraUniforms {
            origin: Vec4Bits { x: 0, y: 0, z: 0, w: 0 },
            u: Vec4Bits { x: 0, y: 0, z: 0, w: 0 },
            v: Vec4Bits { x: 0, y: 0, z: 0, w: 0 },
            w: Vec4Bits { x: 0, y: 0, z: 0, w: 0 },
        }
    }

    pub fn zeroed() -> (c: CameraUniforms)
        ensures
            c == CameraUniforms::spec_zeroed(),
    {
        CameraUniforms {
            origin: Vec4Bits::zero(),
            u: Vec4Bits::zero(),
            v: Vec4Bits::zero(),
            w: Vec4Bits::zero(),
        }
    }

    pub fn new(origin: Vec4Bits, u: Vec4Bits, v: Vec4Bits, w: Vec4Bits) -> (c: CameraUniforms)
        ensures
            c == (CameraUniforms { origin, u, v, w }),
    {
        CameraUniforms { origin, u, v, w }
    }

    /// A dolly or strafe: the snapshot with the origin replaced and the basis
    /// untouched, every lane pattern of `u`, `v` and `w` identical to before.
    pub fn with_origin(self, origin: Vec4Bits) -> (c: CameraUniforms)
        ensures
            c.origin == origin,
            c.u == self.u,
            c.v == self.v,
            c.w == self.w,
    {
        CameraUniforms { origin, ..self }
    }

    /// A rotation: the snapshot with the basis replaced and the origin
    /// untouched.
    pub fn with_basis(self, u: Vec4Bits, v: Vec4Bits, w: Vec4Bits) -> (c: CameraUniforms)
        ensures
            c.origin == self.origin,
            c.u == u,
            c.v == v,
            c.w == w,
    {
        CameraUniforms { u, v, w, ..self }
    }
}

/// Lane pattern of the smallest admissible pitch, 0.0001 radians.
pub const PITCH_MIN_BITS: u32 = 0x38D1_B717;

/// Lane pattern of the largest admissible pitch, 179 degrees in radians.
pub const PITCH_MAX_BITS: u32 = 0x4047_F1E6;

/// The smallest lane pattern with the sign bit set; every pattern at or above
/// it encodes a negative value or a sign-set non-finite.
pub const F32_SIGN_BIT: u32 = 0x8000_0000;

/// A pitch pattern within the clamp bounds. Both bounds encode positive
/// values, and on patterns with a clear sign bit the unsigned order of the
/// patterns is the order of the values they encode, so this interval of
/// patterns is exactly the closed interval of pitch values.
pub open spec fn pitch_in_range(p: u32) -> bool {
    PITCH_MIN_BITS <= p <= PITCH_MAX_BITS
}

/// Clamps a pitch angle, given as the 32-bit pattern of its single-precision
/// value, into the closed interval from 0.0001 radians to 179 degrees, so the
/// derived basis never degenerates at the poles. A pattern with the sign bit
/// set encodes a value below zero and clamps to the lower bound; among the
/// rest, unsigned pattern order is value order, so the clamp is an integer
/// clamp of the pattern.
pub fn clamp_pitch(p: u32) -> (r: u32)
    ensures
        pitch_in_range(r),
        pitch_in_range(p) ==> r == p,
        p >= F32_SIGN_BIT ==> r == PITCH_MIN_BITS,
        p < PITCH_MIN_BITS ==> r == PITCH_MIN_BITS,
        PITCH_MAX_BITS < p < F32_SIGN_BIT ==> r == PITCH_MAX_BITS,
{
    if p >= F32_SIGN_BIT {
        PITCH_MIN_BITS
    } else if p < PITCH_MIN_BITS {
        PITCH_MIN_BITS
    } else if p > PITCH_MAX_BITS {
        PITCH_MAX_BITS
    } else {
        p
    }
}

/// A camera movement key, or any other key.
#[derive(Clone, Copy, Debug, PartialEq, Eq, Structural)]
pub enum MoveKey {
    Forward,
    Backward,
    Left,
    Right,
    Other,
}

/// What one key event asks of the camera origin, as integer coefficients of
/// the basis vectors: `along_w` steps along the view direction and `along_u`
/// steps along the right vector, one step being the fixed move speed.
#[derive(Clone, Copy, Debug, PartialEq, Eq, Structural)]
pub struct MoveStep {
    pub along_w: i32,
    pub along_u: i32,
}

/// The displacement each key decides: forward and backward one step along the
/// view direction, the strafe keys one step along the right vector, and any
/// other key none at all.
pub open spec fn spec_translation_step(key: MoveKey) -> MoveStep {
    match key {
        MoveKey::Forward => MoveStep { along_w: 1, along_u: 0 },
        MoveKey::Backward => MoveStep { along_w: -1i32, along_u: 0 },
        MoveKey::Left => MoveStep { along_w: 0, along_u: -1i32 },
        MoveKey::Right => MoveStep { along_w: 0, along_u: 1 },
        MoveKey::Other => MoveStep { along_w: 0, along_u: 0 },
    }
}

/// Decides the origin displacement for one key event. A key that is none of
/// the four movement keys moves the origin by nothing at all.
pub fn translation_step(key: MoveKey) -> (s: MoveStep)
    ensures
        s == spec_translation_step(key),
{
    match key {
        MoveKey::Forward => MoveStep { along_w: 1, along_u: 0 },
        MoveKey::Backward => MoveStep { along_w: -1, along_u: 0 },
        MoveKey::Left => MoveStep { along_w: 0, along_u: -1 },
        MoveKey::Right => MoveStep { along_w: 0, along_u: 1 },
        MoveKey::Other => MoveStep { along_w: 0, along_u: 0 },
    }
}

} // verus!
