use boids::frame::{
    bind_group_pairs, workgroups_for, AcquireOutcome, BufferId, State, SurfaceFault,
};
use boids::layout::Boid;
use boids::mirror::BufferMirror;

#[test]
fn workgroup_counts_cover_every_population() {
    let cases: [(u32, u32); 6] = [(0, 0), (1, 1), (63, 1), (64, 1), (65, 2), (4000, 63)];
    for (population, expected) in cases {
        let groups = workgroups_for(population);
        assert_eq!(groups, expected);
        assert!(64 * groups as u64 >= population as u64);
        if population > 0 {
            assert!(64 * (groups as u64 - 1) < population as u64);
        }
    }
}

#[test]
fn prebuilt_pairs_are_exactly_a_b_and_b_a() {
    let pairs = bind_group_pairs();
    assert_eq!(pairs, vec![(BufferId::A, BufferId::B), (BufferId::B, BufferId::A)]);
}

#[test]
fn four_frames_alternate_read_write_pairs() {
    let mut s = State::new(800, 600, 100, 0);
    let expected = [
        (BufferId::A, BufferId::B),
        (BufferId::B, BufferId::A),
        (BufferId::A, BufferId::B),
        (BufferId::B, BufferId::A),
    ];
    for (frame, (read, write)) in expected.iter().enumerate() {
        let out = s.render(AcquireOutcome::Acquired, 0).unwrap();
        assert_eq!(out.plan.compute_read, *read);
        assert_eq!(out.plan.compute_write, *write);
        assert_eq!(out.plan.render_source, out.plan.compute_read);
        assert_ne!(out.plan.render_source, out.plan.compute_write);
        assert_eq!(out.plan.pair_index, frame % 2);
        assert_eq!(out.plan.instances, 100);
        assert_eq!(out.plan.vertices, 3);
        assert_eq!(out.plan.workgroups, 2);
    }
    assert_eq!(s.fps.frame_num, 4);
}

#[test]
fn failed_acquisition_reports_fault_and_changes_nothing() {
    let cases = [
        (AcquireOutcome::Lost, SurfaceFault::Lost, true),
        (AcquireOutcome::Outdated, SurfaceFault::Outdated, true),
        (AcquireOutcome::OutOfMemory, SurfaceFault::OutOfMemory, false),
        (AcquireOutcome::Other, SurfaceFault::Other, false),
    ];
    for (outcome, fault, recoverable) in cases {
        let mut s = State::new(320, 200, 64, 7);
        let before = s;
        let r = s.render(outcome, 7);
        assert_eq!(r.unwrap_err(), fault);
        assert_eq!(fault.recoverable(), recoverable);
        assert_eq!(s, before);
    }
}

#[test]
fn resize_is_idempotent() {
    let mut s = State::new(800, 600, 100, 0);
    assert!(s.resize(1024, 768));
    let once = s;
    assert!(s.resize(1024, 768));
    assert_eq!(s, once);
}

#[test]
fn degenerate_resize_is_a_no_op() {
    let mut s = State::new(800, 600, 100, 0);
    let before = s;
    assert!(!s.resize(0, 600));
    assert_eq!(s, before);
    assert!(!s.resize(800, 0));
    assert_eq!(s, before);
    assert!(!s.resize(0, 0));
    assert_eq!(s, before);
}

#[test]
fn input_and_update_leave_state_unchanged() {
    let mut s = State::new(800, 600, 100, 0);
    let before = s;
    assert!(!s.input());
    s.update();
    assert_eq!(s, before);
}

#[test]
fn throughput_reports_once_per_interval() {
    let mut s = State::new(800, 600, 100, 0);
    let out = s.render(AcquireOutcome::Acquired, 100).unwrap();
    assert!(out.report.is_none());
    let out = s.render(AcquireOutcome::Acquired, 1000).unwrap();
    let report = out.report.unwrap();
    assert_eq!(report.frames, 2);
    assert_eq!(report.elapsed_ms, 1000);
    let out = s.render(AcquireOutcome::Acquired, 1500).unwrap();
    assert!(out.report.is_none());
    let out = s.render(AcquireOutcome::Acquired, 2100).unwrap();
    let report = out.report.unwrap();
    assert_eq!(report.frames, 2);
    assert_eq!(report.elapsed_ms, 1100);
    assert_eq!(s.fps.frame_num, 4);
    assert_eq!(s.fps.last_frame_num, 4);
    assert_eq!(s.fps.last_report_ms, 2100);
}

#[test]
fn identity_frame_keeps_two_agent_array_intact() {
    let first = Boid { pos_x: 0x3F000000, pos_y: 0xBF000000, vel_x: 0x3C23D70A, vel_y: 0 };
    let second = Boid { pos_x: 0, pos_y: 0x3E800000, vel_x: 0xBC23D70A, vel_y: 0x3D000000 };
    let initial = vec![first, second];
    let mut mirror = BufferMirror::new(&initial);
    let mut s = State::new(640, 480, 2, 0);
    let out = s.render(AcquireOutcome::Acquired, 0).unwrap();
    mirror.run_identity_frame(0);
    let rendered = match out.plan.render_source {
        BufferId::A => &mirror.buf_a,
        BufferId::B => &mirror.buf_b,
    };
    assert_eq!(*rendered, initial);
    assert_eq!(mirror.buf_a, initial);
    assert_eq!(mirror.buf_b, initial);
}
