use quantum_slam::driver::{
    build_uniforms, drive_frame, seed_demo_landmarks, FrameInputs, CAMERA_AMPLITUDE_BITS,
    CAMERA_RATE_X_BITS, CAMERA_RATE_Y_BITS, DECAY_FACTOR_BITS, FEEDBACK_STRENGTH_BITS,
    PHASE_AMPLITUDE_BITS, PHASE_RATE_BITS, WAVE_NUMBER_BITS,
};
use quantum_slam::params::uniforms_to_bytes;
use quantum_slam::store::QuantumSlamCore;

#[test]
fn fixed_constants_are_the_scripted_values() {
    assert_eq!(f32::from_bits(WAVE_NUMBER_BITS), 80.0);
    assert_eq!(f32::from_bits(DECAY_FACTOR_BITS), 5.0);
    assert_eq!(f32::from_bits(FEEDBACK_STRENGTH_BITS), 0.90);
    assert_eq!(f32::from_bits(CAMERA_AMPLITUDE_BITS), 0.5);
    assert_eq!(f32::from_bits(CAMERA_RATE_X_BITS), 0.5);
    assert_eq!(f32::from_bits(CAMERA_RATE_Y_BITS), 0.3);
    assert_eq!(f32::from_bits(PHASE_RATE_BITS), 2.0);
    assert_eq!(f32::from_bits(PHASE_AMPLITUDE_BITS), 0.5);
}

#[test]
fn build_uniforms_carries_inputs_and_constants() {
    let u = build_uniforms(
        800.0f32.to_bits(),
        600.0f32.to_bits(),
        2.5f32.to_bits(),
        7,
        0.125f32.to_bits(),
        (-0.25f32).to_bits(),
    );
    assert_eq!(f32::from_bits(u.resolution_x), 800.0);
    assert_eq!(f32::from_bits(u.resolution_y), 600.0);
    assert_eq!(f32::from_bits(u.time), 2.5);
    assert_eq!(f32::from_bits(u.wave_number), 80.0);
    assert_eq!(f32::from_bits(u.decay_factor), 5.0);
    assert_eq!(f32::from_bits(u.feedback_strength), 0.90);
    assert_eq!(u.num_landmarks, 7);
    assert_eq!(u.pad, 0);
    assert_eq!(f32::from_bits(u.camera_x), 0.125);
    assert_eq!(f32::from_bits(u.camera_y), -0.25);
}

#[test]
fn drive_frame_updates_store_and_parameter_block() {
    let mut core = QuantumSlamCore::new(80.0f64.to_bits());
    core.add_landmark(3.0f32.to_bits(), 4.0f32.to_bits());
    core.add_landmark(0.0f32.to_bits(), 0.5f32.to_bits());

    // The host layer's per-tick arithmetic for t = 2.0 and camera at the
    // scripted trajectory.
    let t = 2.0f64;
    let cam_x = (t * 0.5).sin() as f32 * 0.5;
    let cam_y = (t * 0.3).cos() as f32 * 0.5;
    let phase = (t as f32 * 2.0).sin() * 0.5;
    let mut dists: Vec<u32> = Vec::new();
    for lm in core.landmarks.iter() {
        let dx = f32::from_bits(lm.position_x) - cam_x;
        let dy = f32::from_bits(lm.position_y) - cam_y;
        dists.push((dx * dx + dy * dy).sqrt().to_bits());
    }
    let inputs = FrameInputs {
        time: (t as f32).to_bits(),
        camera_x: cam_x.to_bits(),
        camera_y: cam_y.to_bits(),
        phase: phase.to_bits(),
        dists: dists.clone(),
    };

    let u = drive_frame(&mut core, 800.0f32.to_bits(), 600.0f32.to_bits(), &inputs);

    assert_eq!(core.landmarks[0].observed_dist, dists[0]);
    assert_eq!(core.landmarks[1].observed_dist, dists[1]);
    assert_eq!(core.landmarks[0].phase_offset, phase.to_bits());
    assert_eq!(core.landmarks[1].phase_offset, phase.to_bits());
    assert_eq!(f32::from_bits(core.landmarks[0].position_x), 3.0);
    assert_eq!(f32::from_bits(core.landmarks[1].confidence), 1.0);

    assert_eq!(u.num_landmarks, 2);
    assert_eq!(u.time, (t as f32).to_bits());
    assert_eq!(u.camera_x, cam_x.to_bits());
    assert_eq!(u.camera_y, cam_y.to_bits());
    assert_eq!(f32::from_bits(u.wave_number), 80.0);
    assert_eq!(uniforms_to_bytes(&u).len(), 40);
}

#[test]
fn demo_scene_seeds_three_landmarks() {
    let mut core = QuantumSlamCore::new(80.0f64.to_bits());
    seed_demo_landmarks(&mut core);
    assert_eq!(core.len(), 3);
    let coords: Vec<(f32, f32)> = core
        .landmarks
        .iter()
        .map(|lm| (f32::from_bits(lm.position_x), f32::from_bits(lm.position_y)))
        .collect();
    assert_eq!(coords, vec![(0.0, 0.5), (0.5, -0.5), (-0.5, -0.5)]);
    for lm in core.landmarks.iter() {
        assert_eq!(f32::from_bits(lm.observed_dist), 0.0);
        assert_eq!(f32::from_bits(lm.confidence), 1.0);
        assert_eq!(f32::from_bits(lm.phase_offset), 0.0);
    }
}
