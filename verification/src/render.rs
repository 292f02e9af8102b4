//! The feedback render loop's verified decision core: ping-pong buffer
//! roles, dispatch tiling, and the surface-loss recovery plan.
//!
//! The loop owns two field buffers, A and B. Frame-count parity alone
//! decides which one the accelerated evaluator reads (the previous output)
//! and which one it writes (the new output, also the buffer presented this
//! tick); swapping is a pure index flip driven by advancing the counter.
//! The GPU submission itself happens in the unverified host layer, which
//! follows the roles and counts computed here.

use vstd::prelude::*;

verus! {

/// Side length in pixels of one dispatch tile of the accelerated
/// evaluator.
pub const TILE_SIZE: u32 = 16;

/// One of the two field buffers of the ping-pong pair.
#[derive(Copy, Clone, Debug, PartialEq, Eq, Structural)]
pub enum BufferSlot {
    A,
    B,
}

/// Outcome of trying to acquire the presentable surface's current frame.
#[derive(Copy, Clone, Debug, PartialEq, Eq, Structural)]
pub enum SurfaceStatus {
    /// The frame was acquired and can take this tick's output.
    Acquired,
    /// The surface reports itself lost and must be reconfigured.
    Lost,
    /// Acquisition failed some other way; nothing to reconfigure.
    Unavailable,
}

/// What the host layer does with the surface this tick. In every case the
/// evaluator's write into the ping-pong pair has already landed and the
/// frame counter still advances.
#[derive(Copy, Clone, Debug, PartialEq, Eq, Structural)]
pub enum SurfacePlan {
    /// Copy the new output buffer into the acquired frame and present it.
    CopyAndPresent,
    /// Reconfigure the surface, skip presentation this tick.
    ReconfigureAndSkip,
    /// Skip presentation this tick.
    Skip,
}

/// The buffer the evaluator reads during the tick with this frame count.
pub open spec fn input_slot_of(frame: u64) -> BufferSlot {
    if frame % 2 == 0 {
        BufferSlot::A
    } else {
        BufferSlot::B
    }
}

/// The buffer the evaluator writes during the tick with this frame count;
/// it is also the buffer copied to the surface that tick.
pub open spec fn output_slot_of(frame: u64) -> BufferSlot {
    if frame % 2 == 0 {
        BufferSlot::B
    } else {
        BufferSlot::A
    }
}

/// Render loop state: the monotonic frame counter and the fixed output
/// resolution chosen at session start.
pub struct RenderState {
    pub frame_count: u64,
    pub width: u32,
    pub height: u32,
}

impl RenderState {
    /// Starts at frame zero with the surface's reported resolution.
    pub fn new(width: u32, height: u32) -> (s: RenderState)
        ensures
            s.frame_count == 0,
            s.width == width,
            s.height == height,
    {
        RenderState { frame_count: 0, width, height }
    }

    /// The buffer the evaluator reads this tick.
    pub fn input_slot(&self) -> (r: BufferSlot)
        ensures
            r == input_slot_of(self.frame_count),
    {
        if self.frame_count % 2 == 0 {
            BufferSlot::A
        } else {
            BufferSlot::B
        }
    }

    /// The buffer the evaluator writes this tick; the same buffer is the
    /// one presented this tick.
    pub fn output_slot(&self) -> (r: BufferSlot)
        ensures
            r == output_slot_of(self.frame_count),
    {
        if self.frame_count % 2 == 0 {
            BufferSlot::B
        } else {
            BufferSlot::A
        }
    }

    /// Advances the frame counter, exactly once per tick, whether or not
    /// presentation happened. This flip is the only way the buffer roles
    /// swap: the buffer just written becomes next tick's input, and next
    /// tick writes the other one.
    pub fn advance_frame(&mut self)
        requires
            old(self).frame_count < u64::MAX,
        ensures
            final(self).frame_count == old(self).frame_count + 1,
            final(self).width == old(self).width,
            final(self).height == old(self).height,
            input_slot_of(final(self).frame_count) == output_slot_of(old(self).frame_count),
            output_slot_of(final(self).frame_count) == input_slot_of(old(self).frame_count),
    {
        self.frame_count = self.frame_count + 1;
    }

    /// Tile counts of the dispatch grid covering the full resolution.
    pub fn dispatch_workgroups(&self) -> (r: (u32, u32))
        requires
            self.width <= u32::MAX - 15,
            self.height <= u32::MAX - 15,
        ensures
            r.0 == workgroups_for(self.width),
            r.1 == workgroups_for(self.height),
    {
        (workgroup_count(self.width), workgroup_count(self.height))
    }
}

/// Tiles needed along one axis: ceiling division of the pixel extent by
/// `TILE_SIZE`, so the last tile covers any remainder.
pub open spec fn workgroups_for(pixels: u32) -> int {
    (pixels + (TILE_SIZE - 1)) / (TILE_SIZE as int)
}

/// The grid is exactly large enough: `workgroups_for` covers every pixel,
/// and with one tile fewer some pixels would be left uncovered.
pub proof fn lemma_workgroups_cover(pixels: u32)
    ensures
        TILE_SIZE * workgroups_for(pixels) >= pixels,
        pixels > 0 ==> TILE_SIZE * (workgroups_for(pixels) - 1) < pixels,
        pixels == 0 ==> workgroups_for(pixels) == 0,
{
    let t = TILE_SIZE as int;
    let p = pixels as int;
    assert(t * ((p + (t - 1)) / t) >= p && (p > 0 ==> t * ((p + (t - 1)) / t - 1) < p) && (p == 0
        ==> (p + (t - 1)) / t == 0)) by (nonlinear_arith)
        requires
            t == 16,
            0 <= p,
    ;
}

/// Tiles needed along one axis of the dispatch grid: enough to cover
/// every pixel, and no more than that.
pub fn workgroup_count(pixels: u32) -> (r: u32)
    requires
        pixels <= u32::MAX - 15,
    ensures
        r == workgroups_for(pixels),
        TILE_SIZE * r >= pixels,
        pixels > 0 ==> TILE_SIZE * (r - 1) < pixels,
        pixels == 0 ==> r == 0,
{
    proof {
        lemma_workgroups_cover(pixels);
    }
    (pixels + (TILE_SIZE - 1)) / TILE_SIZE
}

/// The recovery rule for the presentation step: present on success,
/// reconfigure and skip when the surface is lost, plainly skip otherwise.
/// Simulation state is untouched in every case.
pub fn present_plan(status: SurfaceStatus) -> (r: SurfacePlan)
    ensures
        status == SurfaceStatus::Acquired ==> r == SurfacePlan::CopyAndPresent,
        status == SurfaceStatus::Lost ==> r == SurfacePlan::ReconfigureAndSkip,
        status == SurfaceStatus::Unavailable ==> r == SurfacePlan::Skip,
{
    match status {
        SurfaceStatus::Acquired => SurfacePlan::CopyAndPresent,
        SurfaceStatus::Lost => SurfacePlan::ReconfigureAndSkip,
        SurfaceStatus::Unavailable => SurfacePlan::Skip,
    }
}

/// Ping-pong parity: starting from a fresh state, after `n` completed
/// ticks the buffer holding the most recent output is B when `n` is odd
/// and A when `n` is even — the roles alternate every tick with no skips,
/// since the counter is the tick count and parity alone picks the slot.
pub proof fn lemma_pingpong_parity(n: u64)
    requires
        n >= 1,
    ensures
        n % 2 == 1 ==> output_slot_of((n - 1) as u64) == BufferSlot::B,
        n % 2 == 0 ==> output_slot_of((n - 1) as u64) == BufferSlot::A,
{
}

/// Feedback continuity: for any two consecutive ticks, the buffer written
/// by the first is exactly the buffer read by the second, and the two
/// ticks write different buffers.
pub proof fn lemma_feedback_roles(frame: u64)
    requires
        frame < u64::MAX,
    ensures
        input_slot_of((frame + 1) as u64) == output_slot_of(frame),
        output_slot_of((frame + 1) as u64) != output_slot_of(frame),
        input_slot_of(frame) != output_slot_of(frame),
{
}

} // verus!

