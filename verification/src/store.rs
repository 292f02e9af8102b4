//! Landmark records and the append-only landmark store.
//!
//! A landmark's numeric fields hold IEEE 754 single-precision bit patterns
//! (`f32::to_bits` on the host side), and the session's wave number holds a
//! double-precision bit pattern. The store's logic never interprets the
//! patterns arithmetically, so everything stated here is exact.

use vstd::prelude::*;

verus! {

/// Bit pattern of the single-precision value `0.0`.
pub const F32_ZERO_BITS: u32 = 0x0000_0000;

/// Bit pattern of the single-precision value `1.0`.
pub const F32_ONE_BITS: u32 = 0x3F80_0000;

/// One fixed reference point with its simulated observation state.
///
/// * `position_x`, `position_y` — world coordinate, set at creation and
///   immutable thereafter.
/// * `observed_dist` — distance as currently perceived from some observer
///   position; mutated only by the observation updater; initially `0.0`.
/// * `confidence` — amplitude weight, default `1.0`, immutable in this core.
/// * `phase_offset` — cosmetic phase term rewritten each frame by the frame
///   state driver; not consumed by the reference field model.
#[derive(Copy, Clone, Debug, PartialEq, Eq, Structural)]
pub struct Landmark {
    pub position_x: u32,
    pub position_y: u32,
    pub observed_dist: u32,
    pub confidence: u32,
    pub phase_offset: u32,
}

impl Landmark {
    /// The record a fresh landmark at `(x, y)` starts from: observed
    /// distance `0.0`, confidence `1.0`, phase offset `0.0`.
    pub open spec fn fresh(x: u32, y: u32) -> Landmark {
        Landmark {
            position_x: x,
            position_y: y,
            observed_dist: F32_ZERO_BITS,
            confidence: F32_ONE_BITS,
            phase_offset: F32_ZERO_BITS,
        }
    }
}

/// The session state shared by the reference evaluator and the renderer:
/// an append-only sequence of landmarks and the interference wave number
/// (a double-precision bit pattern, fixed at session start).
pub struct QuantumSlamCore {
    pub landmarks: Vec<Landmark>,
    pub wave_number: u64,
}

impl QuantumSlamCore {
    /// Starts a session with no landmarks.
    pub fn new(wave_number: u64) -> (core: QuantumSlamCore)
        ensures
            core.landmarks@ == Seq::<Landmark>::empty(),
            core.wave_number == wave_number,
    {
        QuantumSlamCore { landmarks: Vec::new(), wave_number }
    }

    /// Number of landmarks added so far.
    pub fn len(&self) -> (n: usize)
        ensures
            n == self.landmarks@.len(),
    {
        self.landmarks.len()
    }

    /// Appends a landmark at `(x, y)` with the default observation state.
    ///
    /// Appending never alters a previously added landmark's stored fields:
    /// every earlier index keeps exactly the record it held.
    pub fn add_landmark(&mut self, x: u32, y: u32)
        ensures
            final(self).landmarks@ == old(self).landmarks@.push(Landmark::fresh(x, y)),
            final(self).wave_number == old(self).wave_number,
            forall|i: int|
                0 <= i < old(self).landmarks@.len() ==> final(self).landmarks@[i] == old(
                    self,
                ).landmarks@[i],
    {
        self.landmarks.push(
            Landmark {
                position_x: x,
                position_y: y,
                observed_dist: F32_ZERO_BITS,
                confidence: F32_ONE_BITS,
                phase_offset: F32_ZERO_BITS,
            },
        );
    }

    /// Writes one perceived distance into each landmark, index for index:
    /// landmark `i` takes `dists[i]` as its new `observed_dist`, and no
    /// other field of any landmark changes. The host layer supplies
    /// `dists[i]` as the bit pattern of the Euclidean distance from the
    /// observer to landmark `i`'s position, which makes this the
    /// observation updater's store-side half.
    pub fn apply_observations(&mut self, dists: &Vec<u32>)
        requires
            dists@.len() == old(self).landmarks@.len(),
        ensures
            final(self).wave_number == old(self).wave_number,
            final(self).landmarks@.len() == old(self).landmarks@.len(),
            forall|i: int|
                0 <= i < old(self).landmarks@.len() ==> final(self).landmarks@[i] == (Landmark {
                    observed_dist: dists@[i],
                    ..old(self).landmarks@[i]
                }),
    {
        let n: usize = self.landmarks.len();
        let mut i: usize = 0;
        while i < n
            invariant
                n == old(self).landmarks@.len(),
                dists@.len() == n,
                i <= n,
                self.wave_number == old(self).wave_number,
                self.landmarks@.len() == n,
                forall|j: int|
                    0 <= j < i ==> self.landmarks@[j] == (Landmark {
                        observed_dist: dists@[j],
                        ..old(self).landmarks@[j]
                    }),
                forall|j: int| i <= j < n ==> self.landmarks@[j] == old(self).landmarks@[j],
            decreases n - i,
        {
            let lm = self.landmarks[i];
            self.landmarks[i] = Landmark { observed_dist: dists[i], ..lm };
            i = i + 1;
        }
    }

    /// Rewrites every landmark's `phase_offset` to `phase`, leaving all
    /// other fields untouched. The frame state driver calls this once per
    /// tick with the bit pattern of its global cosmetic oscillation.
    pub fn set_phase_offsets(&mut self, phase: u32)
        ensures
            final(self).wave_number == old(self).wave_number,
            final(self).landmarks@.len() == old(self).landmarks@.len(),
            forall|i: int|
                0 <= i < old(self).landmarks@.len() ==> final(self).landmarks@[i] == (Landmark {
                    phase_offset: phase,
                    ..old(self).landmarks@[i]
                }),
    {
        let n: usize = self.landmarks.len();
        let mut i: usize = 0;
        while i < n
            invariant
                n == old(self).landmarks@.len(),
                i <= n,
                self.wave_number == old(self).wave_number,
                self.landmarks@.len() == n,
                forall|j: int|
                    0 <= j < i ==> self.landmarks@[j] == (Landmark {
                        phase_offset: phase,
                        ..old(self).landmarks@[j]
                    }),
                forall|j: int| i <= j < n ==> self.landmarks@[j] == old(self).landmarks@[j],
            decreases n - i,
        {
            let lm = self.landmarks[i];
            self.landmarks[i] = Landmark { phase_offset: phase, ..lm };
            i = i + 1;
        }
    }
}

} // verus!
