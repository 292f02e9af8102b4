use quantum_slam::render::{
    present_plan, workgroup_count, BufferSlot, RenderState, SurfacePlan, SurfaceStatus, TILE_SIZE,
};

#[test]
fn fresh_state_reads_a_and_writes_b() {
    let s = RenderState::new(800, 600);
    assert_eq!(s.frame_count, 0);
    assert_eq!(s.input_slot(), BufferSlot::A);
    assert_eq!(s.output_slot(), BufferSlot::B);
}

#[test]
fn roles_alternate_every_tick_with_no_skips() {
    // After n ticks the most recent output lives in B when n is odd and
    // in A when n is even, and consecutive ticks never write the same
    // buffer.
    let mut s = RenderState::new(320, 240);
    let mut last_output: Option<BufferSlot> = None;
    for n in 1u64..=12 {
        let written = s.output_slot();
        s.advance_frame();
        if let Some(prev) = last_output {
            assert_ne!(written, prev);
        }
        let expected = if n % 2 == 1 { BufferSlot::B } else { BufferSlot::A };
        assert_eq!(written, expected);
        assert_eq!(s.frame_count, n);
        last_output = Some(written);
    }
}

#[test]
fn each_tick_reads_what_the_previous_tick_wrote() {
    let mut s = RenderState::new(64, 64);
    for _ in 0..5 {
        let written = s.output_slot();
        s.advance_frame();
        assert_eq!(s.input_slot(), written);
        assert_ne!(s.output_slot(), written);
    }
}

#[test]
fn advance_frame_keeps_the_resolution() {
    let mut s = RenderState::new(1024, 768);
    s.advance_frame();
    assert_eq!((s.width, s.height), (1024, 768));
}

#[test]
fn workgroup_counts_cover_the_grid_by_ceiling_division() {
    assert_eq!(TILE_SIZE, 16);
    assert_eq!(workgroup_count(0), 0);
    assert_eq!(workgroup_count(1), 1);
    assert_eq!(workgroup_count(16), 1);
    assert_eq!(workgroup_count(17), 2);
    assert_eq!(workgroup_count(800), 50);
    assert_eq!(workgroup_count(600), 38);
    let s = RenderState::new(800, 600);
    assert_eq!(s.dispatch_workgroups(), (50, 38));
}

#[test]
fn surface_recovery_plan_matches_each_status() {
    assert_eq!(present_plan(SurfaceStatus::Acquired), SurfacePlan::CopyAndPresent);
    assert_eq!(present_plan(SurfaceStatus::Lost), SurfacePlan::ReconfigureAndSkip);
    assert_eq!(present_plan(SurfaceStatus::Unavailable), SurfacePlan::Skip);
}

#[test]
fn frame_counter_advances_even_when_presentation_is_skipped() {
    let mut s = RenderState::new(100, 100);
    let plan = present_plan(SurfaceStatus::Lost);
    assert_eq!(plan, SurfacePlan::ReconfigureAndSkip);
    s.advance_frame();
    assert_eq!(s.frame_count, 1);
}
