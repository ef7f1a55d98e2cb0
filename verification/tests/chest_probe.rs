use lib::chest::{
    find_chest, window_report, ChestEffect, ChestFailure, ChestObs, ChestProbe, ChestRoute,
    ObjectSighting, Phase,
};

fn obs(anim: u16) -> ChestObs {
    ChestObs { anim: Some(anim), objects: vec![], window_open: false, latch: None, kneel: false }
}

fn chest(guid: u64) -> ObjectSighting {
    ObjectSighting { guid, is_game_object: true, type_id: 3, in_range: true }
}

#[test]
fn three_full_windows_stand_kneel_stand() {
    let mut p = ChestProbe::new();
    let mut o = obs(0);
    assert_eq!(p.step(0, &o), vec![ChestEffect::GoToChest]);
    assert_eq!(p.step(4999, &o), vec![]);
    o.objects = vec![ObjectSighting { guid: 1, is_game_object: true, type_id: 5, in_range: true }, chest(9)];
    assert_eq!(p.step(5000, &o), vec![]);
    assert_eq!(p.chest, Some(9));
    assert_eq!(p.phase, Phase::Before);
    for t in 0..59 {
        assert_eq!(p.step(5001 + t, &o), vec![]);
    }
    assert_eq!(p.step(5100, &o), vec![ChestEffect::ResolveRoute(9)]);
    assert_eq!(p.before.len(), 60);
    assert_eq!(p.route_resolved(5100, ChestRoute::OpenLock(6477)), vec![ChestEffect::CastOpen { spell_id: 6477, guid: 9 }]);
    assert_eq!(p.step(5200, &o), vec![]);
    o.window_open = true;
    o.anim = Some(50);
    o.latch = Some(9);
    o.kneel = true;
    assert_eq!(p.step(5300, &o), vec![]);
    assert_eq!(p.phase, Phase::Open);
    for t in 0..59 {
        assert_eq!(p.step(5301 + t, &o), vec![]);
    }
    assert_eq!(p.step(5400, &o), vec![ChestEffect::CloseLoot]);
    assert_eq!((p.latch_open, p.kneel_open), (Some(9), true));
    o.window_open = false;
    o.anim = Some(0);
    assert_eq!(p.step(5500, &o), vec![]);
    for t in 0..60 {
        assert_eq!(p.step(5501 + t, &o), vec![]);
    }
    assert_eq!(p.phase, Phase::Done);
    assert_eq!(p.step(6000, &o), vec![ChestEffect::Finished]);
    assert_eq!(p.step(6001, &o), vec![]);
    let s = p.summary();
    assert!(s.before.pass && s.open.pass && s.after.pass);
    assert_eq!(s.fails, 0);
    assert_eq!((s.open.held, s.open.frames), (60, 60));
}

#[test]
fn a_standing_open_window_fails_and_names_what_it_held() {
    let mut p = ChestProbe::new();
    p.phase = Phase::Done;
    p.exited = true;
    p.before = vec![Some(0); 60];
    p.open = vec![Some(50), None, Some(0), None, Some(50), Some(4)];
    p.after = vec![];
    let s = p.summary();
    assert!(s.before.pass);
    assert!(!s.open.pass);
    assert_eq!(s.open.held, 2);
    assert_eq!(s.open.others, vec![None, Some(0), Some(4)]);
    assert!(!s.after.pass);
    assert_eq!(s.fails, 2);
}

#[test]
fn a_refused_lock_fails_before_any_kneel() {
    let mut p = ChestProbe::new();
    p.phase = Phase::Before;
    p.chest = Some(3);
    p.before = vec![Some(0); 59];
    assert_eq!(p.step(1, &obs(0)), vec![ChestEffect::ResolveRoute(3)]);
    assert_eq!(
        p.route_resolved(1, ChestRoute::Refused),
        vec![ChestEffect::Failure(ChestFailure::LockRefused)]
    );
    assert_eq!((p.phase, p.fails), (Phase::Done, 1));
}

#[test]
fn a_lockless_chest_is_simply_used() {
    let mut p = ChestProbe::new();
    p.phase = Phase::Before;
    p.chest = Some(3);
    p.before = vec![Some(0); 59];
    p.step(1, &obs(0));
    assert_eq!(p.route_resolved(2, ChestRoute::Use), vec![ChestEffect::UseChest(3)]);
    assert_eq!(p.phase, Phase::WaitLoot { since: 2 });
}

#[test]
fn no_chest_in_range_fails_the_scan() {
    let mut p = ChestProbe::new();
    p.phase = Phase::Settling { sent_at: 0 };
    let mut o = obs(0);
    o.objects = vec![ObjectSighting { guid: 1, is_game_object: true, type_id: 3, in_range: false }];
    assert_eq!(p.step(25000, &o), vec![]);
    assert_eq!(p.step(25001, &o), vec![ChestEffect::Failure(ChestFailure::NoChest)]);
    assert_eq!(p.phase, Phase::Done);
}

#[test]
fn a_window_that_never_opens_or_closes_fails() {
    let mut p = ChestProbe::new();
    p.phase = Phase::WaitLoot { since: 0 };
    assert_eq!(p.step(15001, &obs(0)), vec![ChestEffect::Failure(ChestFailure::NoLootWindow)]);
    let mut p = ChestProbe::new();
    p.phase = Phase::WaitClosed { since: 0 };
    let mut o = obs(50);
    o.window_open = true;
    assert_eq!(p.step(10001, &o), vec![ChestEffect::Failure(ChestFailure::NeverClosed)]);
}

#[test]
fn window_reports_count_exactly() {
    let r = window_report(0, &vec![]);
    assert!(!r.pass);
    assert_eq!((r.held, r.frames), (0, 0));
    let r = window_report(7, &vec![Some(7), Some(7)]);
    assert!(r.pass);
    assert!(r.others.is_empty());
    assert_eq!(find_chest(&vec![chest(4), chest(5)]), Some(0));
    assert_eq!(find_chest(&vec![]), None);
}
