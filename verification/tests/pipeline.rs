use tracer_core::camera::CameraUniforms;
use tracer_core::math::Vec4Bits;
use tracer_core::render::{roles_for, BufferRoles, RenderState, Uniforms};

#[test]
fn roles_alternate_over_the_first_four_frames() {
    let expected: [(usize, usize); 4] = [(0, 1), (1, 0), (0, 1), (1, 0)];
    for (i, &(history, target)) in expected.iter().enumerate() {
        let roles = roles_for((i + 1) as u32);
        assert_eq!(roles.history_index(), history, "frame {}", i + 1);
        assert_eq!(roles.target_index(), target, "frame {}", i + 1);
        assert_ne!(roles.history_index(), roles.target_index());
    }
}

#[test]
fn role_enumeration_matches_parity() {
    assert_eq!(roles_for(1), BufferRoles::FirstIsHistory);
    assert_eq!(roles_for(2), BufferRoles::SecondIsHistory);
    assert_eq!(roles_for(3), BufferRoles::FirstIsHistory);
    assert_eq!(roles_for(4), BufferRoles::SecondIsHistory);
}

#[test]
fn the_frame_after_an_invalidation_is_frame_one() {
    let mut state = RenderState::new(800, 600);
    let camera = CameraUniforms::zeroed();
    for _ in 0..5 {
        state.begin_frame(camera);
    }
    assert_eq!(state.frame_count(), 5);
    state.reset_samples();
    assert_eq!(state.frame_count(), 0);
    let plan = state.begin_frame(camera);
    assert_eq!(plan.frame_count, 1);
    assert_eq!(state.frame_count(), 1);
}

#[test]
fn every_invalidating_event_restarts_the_series() {
    // Whatever the counter held, a reset followed by the next dispatch always
    // lands on frame one, never on a resumed value.
    let camera = CameraUniforms::zeroed();
    for warmup in [0u32, 1, 2, 7, 40] {
        let mut state = RenderState::new(64, 64);
        for _ in 0..warmup {
            state.begin_frame(camera);
        }
        state.reset_samples();
        let plan = state.begin_frame(camera);
        assert_eq!(plan.frame_count, 1, "after {warmup} warmup frames");
    }
}

#[test]
fn frame_counter_advances_by_exactly_one() {
    let mut state = RenderState::new(320, 200);
    let camera = CameraUniforms::zeroed();
    for expected in 1u32..=6 {
        let plan = state.begin_frame(camera);
        assert_eq!(plan.frame_count, expected);
    }
}

#[test]
fn plan_roles_follow_the_counter() {
    let mut state = RenderState::new(16, 16);
    let camera = CameraUniforms::zeroed();
    let expected: [(usize, usize); 4] = [(0, 1), (1, 0), (0, 1), (1, 0)];
    for &(history, target) in expected.iter() {
        let plan = state.begin_frame(camera);
        assert_eq!(plan.history_index, history);
        assert_eq!(plan.target_index, target);
    }
}

#[test]
fn uniform_block_serializes_to_its_exact_wire_form() {
    // Lane patterns chosen so each byte shows its position: the word
    // 0x04030201 must serialize to the bytes 01 02 03 04, and so on.
    let camera = CameraUniforms::new(
        Vec4Bits { x: 0x0403_0201, y: 0x0807_0605, z: 0x0C0B_0A09, w: 0x100F_0E0D },
        Vec4Bits { x: 0x1413_1211, y: 0x1817_1615, z: 0x1C1B_1A19, w: 0x201F_1E1D },
        Vec4Bits { x: 0x2423_2221, y: 0x2827_2625, z: 0x2C2B_2A29, w: 0x302F_2E2D },
        Vec4Bits { x: 0x3433_3231, y: 0x3837_3635, z: 0x3C3B_3A39, w: 0x403F_3E3D },
    );
    let uniforms = Uniforms {
        camera,
        width: 800,
        height: 600,
        frame_count: 3,
        reserved: 0,
    };
    let bytes = uniforms.to_bytes();
    assert_eq!(bytes.len(), 80);
    let mut expected: Vec<u8> = (1u8..=0x40).collect();
    expected.extend_from_slice(&[0x20, 0x03, 0, 0]); // width 800
    expected.extend_from_slice(&[0x58, 0x02, 0, 0]); // height 600
    expected.extend_from_slice(&[3, 0, 0, 0]); // frame counter
    expected.extend_from_slice(&[0, 0, 0, 0]); // reserved
    assert_eq!(bytes, expected);
}

#[test]
fn serialized_lane_patterns_round_trip_through_their_floats() {
    let origin = Vec4Bits::new(
        0.25f32.to_bits(),
        (-0.75f32).to_bits(),
        2.0f32.to_bits(),
    );
    let camera = CameraUniforms::new(origin, Vec4Bits::zero(), Vec4Bits::zero(), Vec4Bits::zero());
    let uniforms = Uniforms { camera, width: 1, height: 1, frame_count: 1, reserved: 0 };
    let bytes = uniforms.to_bytes();
    let x = f32::from_le_bytes([bytes[0], bytes[1], bytes[2], bytes[3]]);
    let y = f32::from_le_bytes([bytes[4], bytes[5], bytes[6], bytes[7]]);
    let z = f32::from_le_bytes([bytes[8], bytes[9], bytes[10], bytes[11]]);
    assert_eq!(x, 0.25);
    assert_eq!(y, -0.75);
    assert_eq!(z, 2.0);
}

#[test]
fn each_plan_carries_the_fresh_counter_and_camera() {
    let mut state = RenderState::new(800, 600);
    let camera = CameraUniforms::new(
        Vec4Bits::new(1, 2, 3),
        Vec4Bits::new(4, 5, 6),
        Vec4Bits::new(7, 8, 9),
        Vec4Bits::new(10, 11, 12),
    );
    let plan = state.begin_frame(camera);
    // Origin lanes at the front of the block.
    assert_eq!(&plan.uniform_bytes[0..4], &[1, 0, 0, 0]);
    assert_eq!(&plan.uniform_bytes[4..8], &[2, 0, 0, 0]);
    // The frame counter word sits after the four vectors and the extent.
    assert_eq!(&plan.uniform_bytes[72..76], &[1, 0, 0, 0]);
    let plan = state.begin_frame(camera);
    assert_eq!(&plan.uniform_bytes[72..76], &[2, 0, 0, 0]);
}

#[test]
fn a_camera_change_is_mutation_and_invalidation_in_one() {
    let mut state = RenderState::new(800, 600);
    let camera = CameraUniforms::zeroed();
    for _ in 0..3 {
        state.begin_frame(camera);
    }
    let moved = CameraUniforms::new(
        Vec4Bits::new(9, 8, 7),
        Vec4Bits::new(1, 0, 0),
        Vec4Bits::new(0, 1, 0),
        Vec4Bits::new(0, 0, 1),
    );
    state.apply_camera_change(moved);
    assert_eq!(state.frame_count(), 0);
    let plan = state.begin_frame(moved);
    assert_eq!(plan.frame_count, 1);
    assert_eq!(&plan.uniform_bytes[0..4], &[9, 0, 0, 0]);
    assert_eq!(&plan.uniform_bytes[72..76], &[1, 0, 0, 0]);
}

#[test]
fn a_fresh_state_machine_starts_at_frame_zero() {
    let state = RenderState::new(800, 600);
    assert_eq!(state.frame_count(), 0);
}
