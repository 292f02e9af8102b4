//! The per-frame parameter block and the fixed byte layouts shared with
//! the accelerated per-pixel evaluator.
//!
//! The evaluator consumes raw bytes, so the layouts are part of the
//! compatibility surface: field order, little-endian encoding, and the
//! explicit padding word that keeps the trailing camera vector on an
//! 8-byte boundary. Every field is a 32-bit word (IEEE 754 bit patterns
//! for the real-valued fields, a plain count for `num_landmarks`), and the
//! encoders below are proved byte-exact against the spec-level layouts.

use vstd::bytes::{spec_u32_to_le_bytes, u32_to_le_bytes};
use vstd::prelude::*;
use crate::store::Landmark;

verus! {

/// Size in bytes of the encoded parameter block: ten 32-bit words.
pub const UNIFORM_BLOCK_SIZE: usize = 40;

/// Byte stride of one encoded landmark record: five 32-bit words.
pub const LANDMARK_STRIDE: usize = 20;

/// Fixed capacity of the evaluator's landmark buffer, in records.
pub const MAX_LANDMARKS: usize = 100;

/// Size in bytes of the evaluator's landmark buffer at full capacity.
pub const LANDMARK_BUFFER_SIZE: usize = 2000;

/// Per-frame snapshot handed to the accelerated evaluator. All fields are
/// 32-bit words; the real-valued ones hold single-precision bit patterns.
/// `pad` is the explicit alignment word and is always zero.
#[derive(Copy, Clone, Debug, PartialEq, Eq, Structural)]
pub struct Uniforms {
    pub resolution_x: u32,
    pub resolution_y: u32,
    pub time: u32,
    pub wave_number: u32,
    pub decay_factor: u32,
    pub feedback_strength: u32,
    pub num_landmarks: u32,
    pub pad: u32,
    pub camera_x: u32,
    pub camera_y: u32,
}

/// The declared byte layout of a parameter block: the ten words in field
/// order, each little-endian.
pub open spec fn uniform_bytes(u: Uniforms) -> Seq<u8> {
    spec_u32_to_le_bytes(u.resolution_x) + spec_u32_to_le_bytes(u.resolution_y)
        + spec_u32_to_le_bytes(u.time) + spec_u32_to_le_bytes(u.wave_number)
        + spec_u32_to_le_bytes(u.decay_factor) + spec_u32_to_le_bytes(u.feedback_strength)
        + spec_u32_to_le_bytes(u.num_landmarks) + spec_u32_to_le_bytes(u.pad)
        + spec_u32_to_le_bytes(u.camera_x) + spec_u32_to_le_bytes(u.camera_y)
}

/// The declared byte layout of one landmark record: position, observed
/// distance, confidence, phase offset, each word little-endian.
pub open spec fn landmark_bytes(lm: Landmark) -> Seq<u8> {
    spec_u32_to_le_bytes(lm.position_x) + spec_u32_to_le_bytes(lm.position_y)
        + spec_u32_to_le_bytes(lm.observed_dist) + spec_u32_to_le_bytes(lm.confidence)
        + spec_u32_to_le_bytes(lm.phase_offset)
}

/// The declared byte layout of a landmark buffer: the records tightly
/// packed in store order, `LANDMARK_STRIDE` bytes each.
pub open spec fn landmark_seq_bytes(s: Seq<Landmark>) -> Seq<u8>
    decreases s.len(),
{
    if s.len() == 0 {
        Seq::<u8>::empty()
    } else {
        landmark_seq_bytes(s.drop_last()) + landmark_bytes(s.last())
    }
}

/// Per-field offsets of the parameter block: each word stands at its own
/// fixed offset, the explicit padding word at offset 28 carries `pad`,
/// and the trailing camera vector starts at offset 32 — a multiple of 8,
/// the alignment boundary the accelerated evaluator demands for it.
pub proof fn lemma_uniform_layout(u: Uniforms)
    ensures
        uniform_bytes(u).len() == UNIFORM_BLOCK_SIZE,
        uniform_bytes(u).subrange(0, 4) == spec_u32_to_le_bytes(u.resolution_x),
        uniform_bytes(u).subrange(4, 8) == spec_u32_to_le_bytes(u.resolution_y),
        uniform_bytes(u).subrange(8, 12) == spec_u32_to_le_bytes(u.time),
        uniform_bytes(u).subrange(12, 16) == spec_u32_to_le_bytes(u.wave_number),
        uniform_bytes(u).subrange(16, 20) == spec_u32_to_le_bytes(u.decay_factor),
        uniform_bytes(u).subrange(20, 24) == spec_u32_to_le_bytes(u.feedback_strength),
        uniform_bytes(u).subrange(24, 28) == spec_u32_to_le_bytes(u.num_landmarks),
        uniform_bytes(u).subrange(28, 32) == spec_u32_to_le_bytes(u.pad),
        uniform_bytes(u).subrange(32, 36) == spec_u32_to_le_bytes(u.camera_x),
        uniform_bytes(u).subrange(36, 40) == spec_u32_to_le_bytes(u.camera_y),
{
    vstd::bytes::lemma_auto_spec_u32_to_from_le_bytes();
    assert(uniform_bytes(u).subrange(0, 4) =~= spec_u32_to_le_bytes(u.resolution_x));
    assert(uniform_bytes(u).subrange(4, 8) =~= spec_u32_to_le_bytes(u.resolution_y));
    assert(uniform_bytes(u).subrange(8, 12) =~= spec_u32_to_le_bytes(u.time));
    assert(uniform_bytes(u).subrange(12, 16) =~= spec_u32_to_le_bytes(u.wave_number));
    assert(uniform_bytes(u).subrange(16, 20) =~= spec_u32_to_le_bytes(u.decay_factor));
    assert(uniform_bytes(u).subrange(20, 24) =~= spec_u32_to_le_bytes(u.feedback_strength));
    assert(uniform_bytes(u).subrange(24, 28) =~= spec_u32_to_le_bytes(u.num_landmarks));
    assert(uniform_bytes(u).subrange(28, 32) =~= spec_u32_to_le_bytes(u.pad));
    assert(uniform_bytes(u).subrange(32, 36) =~= spec_u32_to_le_bytes(u.camera_x));
    assert(uniform_bytes(u).subrange(36, 40) =~= spec_u32_to_le_bytes(u.camera_y));
}

/// One encoded landmark record occupies exactly `LANDMARK_STRIDE` bytes.
pub proof fn lemma_landmark_bytes_len(lm: Landmark)
    ensures
        landmark_bytes(lm).len() == LANDMARK_STRIDE,
{
    vstd::bytes::lemma_auto_spec_u32_to_from_le_bytes();
}

/// A packed landmark buffer is `LANDMARK_STRIDE` bytes per record.
pub proof fn lemma_landmark_seq_bytes_len(s: Seq<Landmark>)
    ensures
        landmark_seq_bytes(s).len() == LANDMARK_STRIDE * s.len(),
    decreases s.len(),
{
    if s.len() > 0 {
        lemma_landmark_seq_bytes_len(s.drop_last());
        lemma_landmark_bytes_len(s.last());
    }
}

/// Stride identity of the packed layout: record `k`'s bytes stand exactly
/// at offset `LANDMARK_STRIDE * k`, so an index into the store is also an
/// index into the evaluator's buffer.
pub proof fn lemma_landmark_seq_bytes_index(s: Seq<Landmark>, k: int)
    requires
        0 <= k < s.len(),
    ensures
        landmark_seq_bytes(s).subrange(
            LANDMARK_STRIDE * k,
            LANDMARK_STRIDE * (k + 1),
        ) == landmark_bytes(s[k]),
    decreases s.len(),
{
    lemma_landmark_seq_bytes_len(s);
    lemma_landmark_bytes_len(s.last());
    if k == s.len() - 1 {
        lemma_landmark_seq_bytes_len(s.drop_last());
        assert(landmark_seq_bytes(s).subrange(
            LANDMARK_STRIDE * k,
            LANDMARK_STRIDE * (k + 1),
        ) =~= landmark_bytes(s[k]));
    } else {
        lemma_landmark_seq_bytes_index(s.drop_last(), k);
        lemma_landmark_seq_bytes_len(s.drop_last());
        assert(landmark_seq_bytes(s).subrange(
            LANDMARK_STRIDE * k,
            LANDMARK_STRIDE * (k + 1),
        ) =~= landmark_seq_bytes(s.drop_last()).subrange(
            LANDMARK_STRIDE * k,
            LANDMARK_STRIDE * (k + 1),
        ));
    }
}

/// Encodes a parameter block for upload, byte-exact to `uniform_bytes`:
/// ten little-endian words at their declared offsets (see
/// `lemma_uniform_layout`), with the camera vector's padding word in
/// place.
pub fn uniforms_to_bytes(u: &Uniforms) -> (r: Vec<u8>)
    ensures
        r@ == uniform_bytes(*u),
        r@.len() == UNIFORM_BLOCK_SIZE,
        r@.subrange(28, 32) == spec_u32_to_le_bytes(u.pad),
        r@.subrange(32, 36) == spec_u32_to_le_bytes(u.camera_x),
        r@.subrange(36, 40) == spec_u32_to_le_bytes(u.camera_y),
{
    proof {
        vstd::bytes::lemma_auto_spec_u32_to_from_le_bytes();
        lemma_uniform_layout(*u);
    }
    let mut r: Vec<u8> = Vec::new();
    let mut w: Vec<u8> = u32_to_le_bytes(u.resolution_x);
    r.append(&mut w);
    let mut w: Vec<u8> = u32_to_le_bytes(u.resolution_y);
    r.append(&mut w);
    let mut w: Vec<u8> = u32_to_le_bytes(u.time);
    r.append(&mut w);
    let mut w: Vec<u8> = u32_to_le_bytes(u.wave_number);
    r.append(&mut w);
    let mut w: Vec<u8> = u32_to_le_bytes(u.decay_factor);
    r.append(&mut w);
    let mut w: Vec<u8> = u32_to_le_bytes(u.feedback_strength);
    r.append(&mut w);
    let mut w: Vec<u8> = u32_to_le_bytes(u.num_landmarks);
    r.append(&mut w);
    let mut w: Vec<u8> = u32_to_le_bytes(u.pad);
    r.append(&mut w);
    let mut w: Vec<u8> = u32_to_le_bytes(u.camera_x);
    r.append(&mut w);
    let mut w: Vec<u8> = u32_to_le_bytes(u.camera_y);
    r.append(&mut w);
    r
}

/// Encodes the landmark store for upload, byte-exact to
/// `landmark_seq_bytes`: the records tightly packed in store order, each
/// standing at its own stride offset, so a store within the evaluator's
/// capacity fits its fixed buffer.
pub fn landmarks_to_bytes(lms: &Vec<Landmark>) -> (r: Vec<u8>)
    ensures
        r@ == landmark_seq_bytes(lms@),
        r@.len() == LANDMARK_STRIDE * lms@.len(),
        forall|k: int|
            0 <= k < lms@.len() ==> r@.subrange(LANDMARK_STRIDE * k, LANDMARK_STRIDE * (k + 1))
                == landmark_bytes(lms@[k]),
        lms@.len() <= MAX_LANDMARKS ==> r@.len() <= LANDMARK_BUFFER_SIZE,
{
    proof {
        vstd::bytes::lemma_auto_spec_u32_to_from_le_bytes();
    }
    let n: usize = lms.len();
    let mut r: Vec<u8> = Vec::new();
    let mut i: usize = 0;
    while i < n
        invariant
            n == lms@.len(),
            i <= n,
            r@ == landmark_seq_bytes(lms@.take(i as int)),
            r@.len() == LANDMARK_STRIDE * i,
        decreases n - i,
    {
        let lm = lms[i];
        let mut w: Vec<u8> = u32_to_le_bytes(lm.position_x);
        r.append(&mut w);
        let mut w: Vec<u8> = u32_to_le_bytes(lm.position_y);
        r.append(&mut w);
        let mut w: Vec<u8> = u32_to_le_bytes(lm.observed_dist);
        r.append(&mut w);
        let mut w: Vec<u8> = u32_to_le_bytes(lm.confidence);
        r.append(&mut w);
        let mut w: Vec<u8> = u32_to_le_bytes(lm.phase_offset);
        r.append(&mut w);
        proof {
            vstd::bytes::lemma_auto_spec_u32_to_from_le_bytes();
            assert(lms@.take(i + 1).drop_last() =~= lms@.take(i as int));
            assert(lms@.take(i + 1).last() == lms@[i as int]);
        }
        i = i + 1;
    }
    proof {
        assert(lms@.take(n as int) =~= lms@);
        assert forall|k: int| 0 <= k < lms@.len() implies r@.subrange(
            LANDMARK_STRIDE * k,
            LANDMARK_STRIDE * (k + 1),
        ) == landmark_bytes(lms@[k]) by {
            lemma_landmark_seq_bytes_index(lms@, k);
        }
    }
    r
}

} // verus!
