use lib::capture::{
    bytes_equal, is_blank, CaptureAction, CaptureRun, FrameInput, FrameWatch, Phase,
};

fn input(paused: bool) -> FrameInput {
    FrameInput {
        elapsed_ns: 1_000_000,
        stable_frames: 2,
        age_frames: 2,
        resize: None,
        has_fixture: false,
        fixture_aged: true,
        keep_vsync: false,
        capturing: false,
        saved: true,
        clock_paused: paused,
    }
}

#[test]
fn a_settled_scene_ages_then_shoots_then_exits_on_the_file() {
    let mut run = CaptureRun::new(0, Some(300));
    let mut watch = FrameWatch::new();
    let frame = [9u8, 9, 9, 255];

    let a = run.step(&mut watch, input(false));
    assert_eq!(a, vec![CaptureAction::RequestStabilityShot, CaptureAction::PauseClock]);
    assert_eq!(run.phase, Phase::Building(1));
    watch.observe(Some(&frame));
    assert_eq!(watch.stable, 0);

    let a = run.step(&mut watch, input(true));
    assert_eq!(a, vec![CaptureAction::RequestStabilityShot]);
    watch.observe(Some(&frame));
    assert_eq!(watch.stable, 1);

    let a = run.step(&mut watch, input(true));
    assert_eq!(a, vec![CaptureAction::RequestStabilityShot]);
    watch.observe(Some(&frame));
    assert_eq!(watch.stable, 2);

    let a = run.step(&mut watch, input(true));
    assert_eq!(
        a,
        vec![
            CaptureAction::RequestStabilityShot,
            CaptureAction::Settled { frames: 4 },
            CaptureAction::UnpauseClock,
        ]
    );
    assert_eq!(run.phase, Phase::Aging(0));

    assert_eq!(run.step(&mut watch, input(false)), vec![]);
    assert_eq!(run.phase, Phase::Aging(1));
    assert_eq!(
        run.step(&mut watch, input(false)),
        vec![CaptureAction::Shoot, CaptureAction::PauseClock]
    );
    assert_eq!(run.phase, Phase::Saving { frames: 0, seen: false });

    let mut saving = input(true);
    saving.capturing = true;
    assert_eq!(run.step(&mut watch, saving), vec![]);
    assert_eq!(run.phase, Phase::Saving { frames: 1, seen: true });
    assert_eq!(run.step(&mut watch, input(true)), vec![]);
    assert_eq!(run.phase, Phase::Done(0));
    assert_eq!(run.step(&mut watch, input(true)), vec![]);
    assert_eq!(run.step(&mut watch, input(true)), vec![]);
    assert_eq!(run.step(&mut watch, input(true)), vec![CaptureAction::ExitSuccess]);
    assert_eq!(run.frames, 11);
}

#[test]
fn no_file_after_the_save_window_exits_with_failure() {
    let mut run = CaptureRun::new(0, None);
    run.phase = Phase::Done(2);
    let mut watch = FrameWatch::new();
    let mut i = input(true);
    i.saved = false;
    assert_eq!(run.step(&mut watch, i), vec![CaptureAction::ExitFailure]);
}

#[test]
fn the_deadline_bails_once_and_then_nothing_advances() {
    let mut run = CaptureRun::new(0, Some(1));
    let mut watch = FrameWatch::new();
    let mut late = input(false);
    late.elapsed_ns = 1_000_000_001;
    assert_eq!(run.step(&mut watch, late), vec![CaptureAction::Deadline]);
    assert!(run.bailed);
    assert_eq!(run.phase, Phase::Building(0));
    assert_eq!(run.step(&mut watch, late), vec![]);
    assert_eq!(run.frames, 1);
}

#[test]
fn exactly_at_the_deadline_is_not_past_it() {
    let mut run = CaptureRun::new(0, Some(1));
    let mut watch = FrameWatch::new();
    let mut edge = input(false);
    edge.elapsed_ns = 1_000_000_000;
    assert_eq!(
        run.step(&mut watch, edge),
        vec![CaptureAction::RequestStabilityShot, CaptureAction::PauseClock]
    );
}

#[test]
fn a_pending_resize_resettles_before_aging() {
    let mut run = CaptureRun::new(0, None);
    let mut watch = FrameWatch::new();
    watch.stable = 5;
    let mut i = input(true);
    i.resize = Some((640, 480));
    let a = run.step(&mut watch, i);
    assert_eq!(
        a,
        vec![
            CaptureAction::RequestStabilityShot,
            CaptureAction::Resize { width: 640, height: 480 },
        ]
    );
    assert_eq!(run.phase, Phase::Building(0));
    assert!(run.resized);
    assert_eq!(watch.stable, 0);
}

#[test]
fn a_fixture_run_arms_and_waits_for_its_age() {
    let mut run = CaptureRun::new(0, None);
    let mut watch = FrameWatch::new();
    watch.stable = 2;
    watch.in_flight = true;
    let mut i = input(true);
    i.has_fixture = true;
    i.fixture_aged = false;
    assert_eq!(
        run.step(&mut watch, i),
        vec![CaptureAction::ArmFixture, CaptureAction::UnpauseClock]
    );
    assert_eq!(run.phase, Phase::FxAging);
    i.clock_paused = false;
    assert_eq!(run.step(&mut watch, i), vec![]);
    i.fixture_aged = true;
    assert_eq!(run.step(&mut watch, i), vec![CaptureAction::Shoot, CaptureAction::PauseClock]);
}

#[test]
fn a_perf_probe_releases_the_clock_and_samples_its_frames() {
    let mut run = CaptureRun::new(2, None);
    run.phase = Phase::Aging(1);
    let mut watch = FrameWatch::new();
    let a = run.step(&mut watch, input(false));
    assert_eq!(a, vec![CaptureAction::ReleaseClockForProbe { uncap: true }]);
    assert!(!run.frozen_clock);
    assert_eq!(run.phase, Phase::ProbeWarmup(0));
    run.phase = Phase::ProbeWarmup(59);
    assert_eq!(run.step(&mut watch, input(false)), vec![CaptureAction::RecordCpuBaseline]);
    assert_eq!(run.step(&mut watch, input(false)), vec![CaptureAction::SampleFrame]);
    assert_eq!(
        run.step(&mut watch, input(false)),
        vec![
            CaptureAction::SampleFrame,
            CaptureAction::ReportProbe,
            CaptureAction::ExitSuccess,
        ]
    );
}

#[test]
fn an_unsettled_image_is_reported_at_the_cap() {
    let mut run = CaptureRun::new(0, None);
    run.phase = Phase::Building(1799);
    let mut watch = FrameWatch::new();
    watch.in_flight = true;
    let a = run.step(&mut watch, input(true));
    assert_eq!(
        a,
        vec![
            CaptureAction::Unsettled { frames: 1800, stable: 0 },
            CaptureAction::Settled { frames: 1800 },
            CaptureAction::UnpauseClock,
        ]
    );
}

#[test]
fn an_all_black_frame_is_reported_empty() {
    let mut run = CaptureRun::new(0, None);
    let mut watch = FrameWatch::new();
    watch.observe(Some(&[0, 0, 0, 255, 0, 0, 0, 255]));
    watch.observe(Some(&[0, 0, 0, 255, 0, 0, 0, 255]));
    watch.observe(Some(&[0, 0, 0, 255, 0, 0, 0, 255]));
    assert!(watch.prev_is_blank());
    assert_eq!(watch.stable, 2);
    let a = run.step(&mut watch, input(true));
    assert_eq!(
        a,
        vec![
            CaptureAction::RequestStabilityShot,
            CaptureAction::EmptyImage,
            CaptureAction::Settled { frames: 1 },
            CaptureAction::UnpauseClock,
        ]
    );
}

#[test]
fn frame_comparison_is_byte_exact() {
    assert!(bytes_equal(&[1, 2, 3], &[1, 2, 3]));
    assert!(!bytes_equal(&[1, 2, 3], &[1, 2, 4]));
    assert!(!bytes_equal(&[1, 2], &[1, 2, 3]));
    assert!(is_blank(&[0, 0, 0, 7]));
    assert!(!is_blank(&[0, 1, 0, 7]));
    let mut w = FrameWatch::new();
    w.observe(None);
    assert_eq!(w.stable, 0);
    assert!(w.prev.is_none());
}
