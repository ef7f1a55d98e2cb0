use lib::bg_queue::{
    find_battlemaster, find_queued, Phase, QueueEffect, QueueFailure, QueueObs, QueueProbe,
    QueueStatus,
};
use lib::castcancel::{BarTimeline, CastCancel, CastEffect, Stage, UseAnswer};
use lib::probe_clock::UnitSighting;

fn master(guid: u64) -> UnitSighting {
    UnitSighting { guid, is_unit: true, entry: Some(14981), npc_flags: 0x800 | 0x1, in_range: true }
}

fn quiet(level: u32) -> QueueObs {
    QueueObs { level, units: vec![], list_from: None, slots: vec![None, None, None] }
}

#[test]
fn the_body_is_levelled_hopped_greeted_and_queued() {
    let mut p = QueueProbe::new();
    let mut o = quiet(12);
    assert_eq!(
        p.step(0, &o),
        vec![QueueEffect::Revive, QueueEffect::LevelUp(13), QueueEffect::GoToBattlemaster]
    );
    assert_eq!(p.step(2999, &o), vec![]);
    o.units = vec![master(0xB1)];
    assert_eq!(p.step(3000, &o), vec![QueueEffect::Hello(0xB1)]);
    o.list_from = Some(0xB2);
    assert_eq!(p.step(3100, &o), vec![]);
    o.list_from = Some(0xB1);
    assert_eq!(
        p.step(3200, &o),
        vec![QueueEffect::Join { battlemaster: 0xB1, map_id: 489 }]
    );
    let status = QueueStatus { map_id: 489, status: 1, instance_id: 0 };
    o.slots[1] = Some(status);
    assert_eq!(p.step(3300, &o), vec![QueueEffect::Queued { slot: 1, status }]);
    assert_eq!(p.phase, Phase::Done);
    assert_eq!(p.step(3400, &o), vec![]);
}

#[test]
fn a_body_at_the_floor_is_not_levelled() {
    let mut p = QueueProbe::new();
    assert_eq!(
        p.step(0, &quiet(25)),
        vec![QueueEffect::Revive, QueueEffect::GoToBattlemaster]
    );
}

#[test]
fn each_missing_answer_is_a_named_failure() {
    let mut p = QueueProbe::new();
    p.phase = Phase::Hopped { sent_at: 0 };
    assert_eq!(p.step(15001, &quiet(30)), vec![QueueEffect::Failure(QueueFailure::NoBattlemaster)]);
    let mut p = QueueProbe::new();
    p.phase = Phase::Greeted { master: 1, sent_at: 0 };
    assert_eq!(p.step(8001, &quiet(30)), vec![QueueEffect::Failure(QueueFailure::NoList)]);
    let mut p = QueueProbe::new();
    p.phase = Phase::Joined { sent_at: 0 };
    assert_eq!(p.step(15000, &quiet(30)), vec![]);
    assert_eq!(p.step(15001, &quiet(30)), vec![QueueEffect::Failure(QueueFailure::NotQueued)]);
}

#[test]
fn the_battlemaster_is_known_by_his_flag() {
    let mut vendor = master(1);
    vendor.npc_flags = 0x80;
    assert_eq!(find_battlemaster(&vec![vendor, master(2)]), Some(1));
    assert_eq!(find_queued(&vec![None, None]), None);
}

#[test]
fn the_hearth_is_used_then_w_pressed_and_released() {
    let mut c = CastCancel::new();
    assert_eq!(c.step(1000, true), vec![]);
    assert_eq!(c.entered, Some(1000));
    assert_eq!(c.step(3999, true), vec![]);
    assert_eq!(c.step(4000, true), vec![CastEffect::UseHearthstone]);
    c.used(4000, UseAnswer::NotYet);
    assert_eq!(c.stage, Stage::Start);
    assert_eq!(c.step(4500, true), vec![CastEffect::UseHearthstone]);
    c.used(4500, UseAnswer::Used);
    assert_eq!((c.stage, c.used_at), (Stage::Used, Some(3500)));
    assert_eq!(c.step(6499, true), vec![]);
    assert_eq!(c.step(6500, true), vec![CastEffect::PressW]);
    assert_eq!(c.step(6799, true), vec![]);
    assert_eq!(c.step(6800, true), vec![CastEffect::ReleaseW]);
    assert_eq!(c.step(9000, true), vec![]);
    assert_eq!(c.stage, Stage::Released);
}

#[test]
fn no_vm_or_no_link_abandons_the_probe() {
    let mut c = CastCancel::new();
    c.step(0, false);
    assert_eq!(c.step(3000, false), vec![CastEffect::NoVm]);
    assert_eq!(c.stage, Stage::Abandoned);
    let mut c = CastCancel::new();
    c.step(0, true);
    c.used(10000, UseAnswer::NotYet);
    assert_eq!(c.stage, Stage::Abandoned);
    let mut c = CastCancel::new();
    c.step(0, true);
    c.used(3000, UseAnswer::Error);
    assert_eq!(c.stage, Stage::Abandoned);
}

#[test]
fn the_bar_logs_transitions_only() {
    let mut b = BarTimeline::new();
    assert!(b.observe("hidden"));
    assert!(!b.observe("hidden"));
    assert!(b.observe("casting|Hearthstone"));
    assert!(b.observe("hold|Interrupted"));
    assert_eq!(b.last, "hold|Interrupted");
}
