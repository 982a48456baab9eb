//! The render dispatch state machine: the per-frame uniform block with its
//! exact byte layout, the frame counter that drives progressive accumulation,
//! the invalidation rule that restarts it, and the parity rule that selects
//! which of the two sample images is read as history and which is written as
//! the new accumulation target each frame.

use vstd::prelude::*;

use crate::camera::CameraUniforms;
use crate::math::Vec4Bits;

verus! {

/// Index of the image read as history for a given frame counter value
/// (the value after the per-frame increment, so the first frame is 1).
pub open spec fn spec_history_index(frame_count: u32) -> int {
    (frame_count + 1) % 2
}

/// Index of the image written as the new accumulation target.
pub open spec fn spec_target_index(frame_count: u32) -> int {
    (frame_count as int) % 2
}

/// The role assignment of the accumulation buffer pair for one frame, as an
/// explicit two-state enumeration rather than bare indexing.
#[derive(Clone, Copy, Debug, PartialEq, Eq, Structural)]
pub enum BufferRoles {
    /// Image 0 is read as history; image 1 is written.
    FirstIsHistory,
    /// Image 1 is read as history; image 0 is written.
    SecondIsHistory,
}

/// The roles that a given frame counter value assigns to the pair.
pub open spec fn spec_roles(frame_count: u32) -> BufferRoles {
    if frame_count % 2 == 1 {
        BufferRoles::FirstIsHistory
    } else {
        BufferRoles::SecondIsHistory
    }
}

impl BufferRoles {
    /// Index of the history image under this role assignment.
    pub open spec fn spec_history_index(self) -> int {
        match self {
            BufferRoles::FirstIsHistory => 0,
            BufferRoles::SecondIsHistory => 1,
        }
    }

    /// Index of the target image under this role assignment.
    pub open spec fn spec_target_index(self) -> int {
        match self {
            BufferRoles::FirstIsHistory => 1,
            BufferRoles::SecondIsHistory => 0,
        }
    }

    pub fn history_index(self) -> (i: usize)
        ensures
            i == self.spec_history_index(),
    {
        match self {
            BufferRoles::FirstIsHistory => 0,
            BufferRoles::SecondIsHistory => 1,
        }
    }

    pub fn target_index(self) -> (i: usize)
        ensures
            i == self.spec_target_index(),
    {
        match self {
            BufferRoles::FirstIsHistory => 1,
            BufferRoles::SecondIsHistory => 0,
        }
    }
}

/// Derives the buffer role assignment from the frame counter.
pub fn roles_for(frame_count: u32) -> (r: BufferRoles)
    ensures
        r == spec_roles(frame_count),
        r.spec_history_index() == spec_history_index(frame_count),
        r.spec_target_index() == spec_target_index(frame_count),
{
    if frame_count % 2 == 1 {
        BufferRoles::FirstIsHistory
    } else {
        BufferRoles::SecondIsHistory
    }
}

/// Within any one frame the history image and the target image differ, so the
/// rendering kernel never reads the image it is writing.
pub proof fn lemma_roles_distinct(frame_count: u32)
    ensures
        spec_roles(frame_count).spec_history_index() != spec_roles(frame_count).spec_target_index(),
{
}

/// The two images swap roles between any two consecutive frames: last frame's
/// target is this frame's history, and the other way around.
pub proof fn lemma_roles_alternate(frame_count: u32)
    requires
        frame_count < u32::MAX,
    ensures
        spec_roles((frame_count + 1) as u32).spec_history_index() == spec_roles(
            frame_count,
        ).spec_target_index(),
        spec_roles((frame_count + 1) as u32).spec_target_index() == spec_roles(
            frame_count,
        ).spec_history_index(),
{
}

/// The fixed-layout per-frame uniform record pushed to the rendering kernel
/// once per dispatch: the camera snapshot, the image extent, the frame
/// counter that doubles as the accumulation sample index, and a reserved
/// word. On the wire it is twenty 32-bit little-endian words, 80 bytes.
#[derive(Clone, Copy, Debug, PartialEq, Eq, Structural)]
pub struct Uniforms {
    pub camera: CameraUniforms,
    pub width: u32,
    pub height: u32,
    pub frame_count: u32,
    pub reserved: u32,
}

/// The four little-endian bytes of one 32-bit word.
pub open spec fn spec_u32_le(x: u32) -> Seq<u8> {
    seq![
        (x & 0xff) as u8,
        ((x >> 8) & 0xff) as u8,
        ((x >> 16) & 0xff) as u8,
        ((x >> 24) & 0xff) as u8,
    ]
}

/// The sixteen bytes of one vector: its four lanes in order, little-endian.
pub open spec fn spec_vec_bytes(v: Vec4Bits) -> Seq<u8> {
    spec_u32_le(v.x) + spec_u32_le(v.y) + spec_u32_le(v.z) + spec_u32_le(v.w)
}

/// The 80-byte wire form of the uniform block: origin, right, up and forward
/// vectors, then width, height, frame counter and the reserved word.
pub open spec fn spec_uniform_bytes(u: Uniforms) -> Seq<u8> {
    spec_vec_bytes(u.camera.origin) + spec_vec_bytes(u.camera.u) + spec_vec_bytes(u.camera.v)
        + spec_vec_bytes(u.camera.w) + spec_u32_le(u.width) + spec_u32_le(u.height)
        + spec_u32_le(u.frame_count) + spec_u32_le(u.reserved)
}

fn push_u32_le(out: &mut Vec<u8>, x: u32)
    ensures
        final(out)@ == old(out)@ + spec_u32_le(x),
{
    out.push((x & 0xff) as u8);
    out.push(((x >> 8) & 0xff) as u8);
    out.push(((x >> 16) & 0xff) as u8);
    out.push(((x >> 24) & 0xff) as u8);
    assert(out@ =~= old(out)@ + spec_u32_le(x));
}

fn push_vec_bytes(out: &mut Vec<u8>, v: Vec4Bits)
    ensures
        final(out)@ == old(out)@ + spec_vec_bytes(v),
{
    push_u32_le(out, v.x);
    push_u32_le(out, v.y);
    push_u32_le(out, v.z);
    push_u32_le(out, v.w);
    assert(out@ =~= old(out)@ + spec_vec_bytes(v));
}

impl Uniforms {
    /// Serializes the block into its 80-byte wire form, ready to be written
    /// into the kernel's uniform buffer.
    pub fn to_bytes(&self) -> (b: Vec<u8>)
        ensures
            b@ == spec_uniform_bytes(*self),
            b@.len() == 80,
    {
        let mut out: Vec<u8> = Vec::new();
        push_vec_bytes(&mut out, self.camera.origin);
        push_vec_bytes(&mut out, self.camera.u);
        push_vec_bytes(&mut out, self.camera.v);
        push_vec_bytes(&mut out, self.camera.w);
        push_u32_le(&mut out, self.width);
        push_u32_le(&mut out, self.height);
        push_u32_le(&mut out, self.frame_count);
        push_u32_le(&mut out, self.reserved);
        assert(out@ =~= spec_uniform_bytes(*self));
        out
    }
}

/// The uniform block after an invalidation: the accumulated series is
/// discarded by resetting the frame counter to zero; nothing else changes.
pub open spec fn spec_reset(u: Uniforms) -> Uniforms {
    Uniforms { frame_count: 0, ..u }
}

/// The uniform block one dispatch later: the counter advances by exactly one
/// and the camera snapshot is refreshed; the extent and reserved word keep
/// their values.
pub open spec fn spec_advance(u: Uniforms, camera: CameraUniforms) -> Uniforms {
    Uniforms { camera, frame_count: (u.frame_count + 1) as u32, ..u }
}

/// The uniform block after a camera change: the new snapshot is stored and
/// the accumulated series is invalidated in the same step.
pub open spec fn spec_camera_change(u: Uniforms, camera: CameraUniforms) -> Uniforms {
    Uniforms { camera, frame_count: 0, ..u }
}

/// Everything one dispatch needs from the state machine: the serialized
/// uniform block and the role assignment of the accumulation buffer pair for
/// this frame.
pub struct FramePlan {
    pub frame_count: u32,
    pub roles: BufferRoles,
    pub history_index: usize,
    pub target_index: usize,
    pub uniform_bytes: Vec<u8>,
}

/// The render dispatch state machine. It is the single owner and single
/// writer of the uniform block and its frame counter; the counter starts at
/// zero, advances by exactly one per dispatched frame, and is reset to zero
/// by every invalidation.
pub struct RenderState {
    uniforms: Uniforms,
}

impl RenderState {
    /// The uniform block as the next dispatch will find it.
    pub closed spec fn spec_uniforms(self) -> Uniforms {
        self.uniforms
    }

    /// A fresh state machine at the given image extent: the counter is zero,
    /// so the first dispatched frame carries counter one, which the kernel
    /// treats as "no history yet".
    pub fn new(width: u32, height: u32) -> (s: RenderState)
        ensures
            s.spec_uniforms() == (Uniforms {
                camera: CameraUniforms::spec_zeroed(),
                width,
                height,
                frame_count: 0,
                reserved: 0,
            }),
    {
        RenderState {
            uniforms: Uniforms {
                camera: CameraUniforms::zeroed(),
                width,
                height,
                frame_count: 0,
                reserved: 0,
            },
        }
    }

    pub fn frame_count(&self) -> (n: u32)
        ensures
            n == self.spec_uniforms().frame_count,
    {
        self.uniforms.frame_count
    }

    /// Invalidates the accumulated series. Every camera mutation (and any
    /// other change to what is rendered) must be followed by this call before
    /// the next dispatch, so that no stale sample is blended into the fresh
    /// configuration.
    pub fn reset_samples(&mut self)
        ensures
            final(self).spec_uniforms() == spec_reset(old(self).spec_uniforms()),
    {
        self.uniforms.frame_count = 0;
    }

    /// Applies a camera mutation and invalidates in one atomic step, so that
    /// no dispatch can ever observe the mutation without its reset. This is
    /// the call a camera-driving loop pairs with every rotation, dolly and
    /// strafe.
    pub fn apply_camera_change(&mut self, camera: CameraUniforms)
        ensures
            final(self).spec_uniforms() == spec_camera_change(old(self).spec_uniforms(), camera),
    {
        self.uniforms.camera = camera;
        self.uniforms.frame_count = 0;
    }

    /// Advances the state machine by one frame: bumps the counter, snapshots
    /// the camera into the uniform block, and returns the serialized block
    /// together with the buffer roles that this frame's parity selects.
    pub fn begin_frame(&mut self, camera: CameraUniforms) -> (p: FramePlan)
        requires
            old(self).spec_uniforms().frame_count < u32::MAX,
        ensures
            final(self).spec_uniforms() == spec_advance(old(self).spec_uniforms(), camera),
            p.frame_count == final(self).spec_uniforms().frame_count,
            p.roles == spec_roles(p.frame_count),
            p.history_index == spec_history_index(p.frame_count),
            p.target_index == spec_target_index(p.frame_count),
            p.uniform_bytes@ == spec_uniform_bytes(final(self).spec_uniforms()),
    {
        self.uniforms.frame_count = self.uniforms.frame_count + 1;
        self.uniforms.camera = camera;
        let roles = roles_for(self.uniforms.frame_count);
        let uniform_bytes = self.uniforms.to_bytes();
        FramePlan {
            frame_count: self.uniforms.frame_count,
            roles,
            history_index: roles.history_index(),
            target_index: roles.target_index(),
            uniform_bytes,
        }
    }
}

/// After any invalidating call — a bare reset or a camera change — whatever
/// the counter held before, the very next dispatched frame runs with frame
/// counter exactly one: the accumulation series restarts instead of resuming
/// from a stale value.
pub proof fn lemma_reset_restarts_series(u: Uniforms, camera: CameraUniforms, next: CameraUniforms)
    ensures
        spec_advance(spec_reset(u), next).frame_count == 1,
        spec_advance(spec_camera_change(u, camera), next).frame_count == 1,
{
}

} // verus!
