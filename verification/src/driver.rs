//! The frame state driver: per-tick mutation of the landmark store and
//! assembly of the parameter block.
//!
//! Each tick the host layer advances the virtual clock, evaluates the
//! scripted camera trajectory and the cosmetic phase oscillation (both
//! transcendental, so both computed outside the verified core), and hands
//! the resulting bit patterns in as `FrameInputs`. The driver then applies
//! the observation update, rewrites every phase offset, and packs the
//! frame's parameter block with the session's fixed field constants.

use vstd::prelude::*;
use crate::params::{Uniforms, MAX_LANDMARKS};
use crate::store::{Landmark, QuantumSlamCore};

verus! {

/// Bit pattern of the fixed interference wave number, `80.0`.
pub const WAVE_NUMBER_BITS: u32 = 0x42A0_0000;

/// Bit pattern of the fixed field decay factor, `5.0`.
pub const DECAY_FACTOR_BITS: u32 = 0x40A0_0000;

/// Bit pattern of the fixed feedback strength, `0.90`.
pub const FEEDBACK_STRENGTH_BITS: u32 = 0x3F66_6666;

/// Bit pattern of the scripted camera amplitude, `0.5`, on both axes.
pub const CAMERA_AMPLITUDE_BITS: u32 = 0x3F00_0000;

/// Bit pattern of the camera's angular rate on the x axis, `0.5`.
pub const CAMERA_RATE_X_BITS: u32 = 0x3F00_0000;

/// Bit pattern of the camera's angular rate on the y axis, `0.3`.
pub const CAMERA_RATE_Y_BITS: u32 = 0x3E99_999A;

/// Bit pattern of the phase oscillation's angular rate, `2.0`.
pub const PHASE_RATE_BITS: u32 = 0x4000_0000;

/// Bit pattern of the phase oscillation's amplitude, `0.5`.
pub const PHASE_AMPLITUDE_BITS: u32 = 0x3F00_0000;

/// Host-computed values for one tick, as single-precision bit patterns:
/// the elapsed time, the scripted camera position, the phase offset
/// `sin(2 * time) * 0.5`, and each landmark's Euclidean distance from the
/// camera, index for index with the store.
pub struct FrameInputs {
    pub time: u32,
    pub camera_x: u32,
    pub camera_y: u32,
    pub phase: u32,
    pub dists: Vec<u32>,
}

/// The parameter block a tick must produce: the given resolution, time,
/// camera and landmark count, the three fixed field constants, and a zero
/// padding word.
pub open spec fn frame_uniforms(
    resolution_x: u32,
    resolution_y: u32,
    time: u32,
    num_landmarks: u32,
    camera_x: u32,
    camera_y: u32,
) -> Uniforms {
    Uniforms {
        resolution_x,
        resolution_y,
        time,
        wave_number: WAVE_NUMBER_BITS,
        decay_factor: DECAY_FACTOR_BITS,
        feedback_strength: FEEDBACK_STRENGTH_BITS,
        num_landmarks,
        pad: 0,
        camera_x,
        camera_y,
    }
}

/// Builds one frame's parameter block.
pub fn build_uniforms(
    resolution_x: u32,
    resolution_y: u32,
    time: u32,
    num_landmarks: u32,
    camera_x: u32,
    camera_y: u32,
) -> (u: Uniforms)
    ensures
        u == frame_uniforms(resolution_x, resolution_y, time, num_landmarks, camera_x, camera_y),
{
    Uniforms {
        resolution_x,
        resolution_y,
        time,
        wave_number: WAVE_NUMBER_BITS,
        decay_factor: DECAY_FACTOR_BITS,
        feedback_strength: FEEDBACK_STRENGTH_BITS,
        num_landmarks,
        pad: 0,
        camera_x,
        camera_y,
    }
}

/// Runs one tick of the frame state driver over the store: every
/// landmark's `observed_dist` becomes its distance from this tick's
/// camera, every `phase_offset` becomes this tick's phase, positions and
/// confidences stay untouched, and the returned parameter block carries
/// the resolution, time, camera, landmark count and fixed constants.
///
/// The landmark count is bounded by the evaluator's buffer capacity; the
/// caller must keep it there, since the block and the packed store are
/// uploaded as-is.
pub fn drive_frame(
    core: &mut QuantumSlamCore,
    resolution_x: u32,
    resolution_y: u32,
    inputs: &FrameInputs,
) -> (u: Uniforms)
    requires
        inputs.dists@.len() == old(core).landmarks@.len(),
        old(core).landmarks@.len() <= MAX_LANDMARKS,
    ensures
        final(core).wave_number == old(core).wave_number,
        final(core).landmarks@.len() == old(core).landmarks@.len(),
        forall|i: int|
            0 <= i < old(core).landmarks@.len() ==> final(core).landmarks@[i] == (Landmark {
                observed_dist: inputs.dists@[i],
                phase_offset: inputs.phase,
                ..old(core).landmarks@[i]
            }),
        u == frame_uniforms(
            resolution_x,
            resolution_y,
            inputs.time,
            old(core).landmarks@.len() as u32,
            inputs.camera_x,
            inputs.camera_y,
        ),
{
    core.apply_observations(&inputs.dists);
    core.set_phase_offsets(inputs.phase);
    let n: usize = core.len();
    build_uniforms(resolution_x, resolution_y, inputs.time, n as u32, inputs.camera_x, inputs.camera_y)
}

/// Seeds the demonstration scene: three landmarks at `(0.0, 0.5)`,
/// `(0.5, -0.5)` and `(-0.5, -0.5)`, each with the default observation
/// state. Landmarks already in the store are kept unchanged in place.
pub fn seed_demo_landmarks(core: &mut QuantumSlamCore)
    ensures
        final(core).wave_number == old(core).wave_number,
        final(core).landmarks@ == old(core).landmarks@.push(
            Landmark::fresh(0x0000_0000, 0x3F00_0000),
        ).push(Landmark::fresh(0x3F00_0000, 0xBF00_0000)).push(
            Landmark::fresh(0xBF00_0000, 0xBF00_0000),
        ),
{
    core.add_landmark(0x0000_0000, 0x3F00_0000);
    core.add_landmark(0x3F00_0000, 0xBF00_0000);
    core.add_landmark(0xBF00_0000, 0xBF00_0000);
}

} // verus!
