use lib::bg::{
    arena, census_samples, count_runs, read_drain, testing_reading, world_state, BgEntity,
    DrainRead, EntityKind,
};
use lib::bg_queue::QueueStatus;
use lib::bg_run::{BgEffect, BgFailure, BgObs, BgRun, Gm, Phase, TestingNote};

fn quiet() -> BgObs {
    BgObs {
        player_flags: 0,
        level: Some(10),
        has_vm: true,
        drain: None,
        entities: vec![],
        list_from: None,
        slots: vec![None, None, None],
        map: Some(0),
        dead: false,
    }
}

fn unit(guid: u64, entry: u32, npc_flags: u32) -> BgEntity {
    BgEntity {
        guid,
        kind: EntityKind::Unit,
        entry: Some(entry),
        npc_flags,
        near: true,
        in_reach: true,
    }
}

#[test]
fn arenas_are_picked_by_key_ignoring_case() {
    assert_eq!(arena("wsg"), 0);
    assert_eq!(arena("AB"), 1);
    assert_eq!(arena("av"), 2);
    assert_eq!(arena("Av"), 2);
    assert_eq!(arena("nagrand"), 0);
    assert_eq!(arena(""), 0);
}

#[test]
fn census_samples_default_parse_and_clamp() {
    assert_eq!(census_samples(None), 12);
    assert_eq!(census_samples(Some("36")), 36);
    assert_eq!(census_samples(Some("0")), 1);
    assert_eq!(census_samples(Some("lots")), 12);
    assert_eq!(census_samples(Some("-3")), 1);
    assert_eq!(census_samples(Some("-0")), 1);
    assert_eq!(census_samples(Some("+7")), 7);
    assert_eq!(census_samples(Some("99999999999")), 12);
    assert_eq!(census_samples(Some("4294967295")), u32::MAX);
    assert_eq!(census_samples(Some("4294967296")), 12);
    assert_eq!(census_samples(Some("")), 12);
    assert_eq!(census_samples(Some("-")), 12);
    assert_eq!(census_samples(Some("3x")), 12);
}

#[test]
fn the_drain_reads_events_the_tap_gone_and_a_raise() {
    assert_eq!(
        read_drain(&DrainRead::Text("  UPDATE_WORLD_STATES(nil)".to_string())),
        ("  UPDATE_WORLD_STATES(nil)".to_string(), false)
    );
    let (text, gone) = read_drain(&DrainRead::Text(" <tap-gone> ".to_string()));
    assert!(gone);
    assert_eq!(text, "  <tap-gone> — the VM was replaced under the tap; re-installing");
    assert_eq!(
        read_drain(&DrainRead::Raised("boom".to_string())),
        ("  <drain raised: boom>".to_string(), false)
    );
}

#[test]
fn the_lever_reading_goes_by_the_last_marker() {
    assert_eq!(testing_reading("Battlegrounds are set to 1v0 for debugging."), Some(true));
    assert_eq!(testing_reading("Battlegrounds are set to normal playercount."), Some(false));
    assert_eq!(
        testing_reading("set to 1v0 for debugging. then set to normal playercount."),
        Some(false)
    );
    assert_eq!(
        testing_reading("set to normal playercount. then set to 1v0 for debugging."),
        Some(true)
    );
    assert_eq!(testing_reading("CHAT_MSG_SYSTEM(nil)"), None);
}

#[test]
fn game_object_entries_are_counted_in_runs() {
    assert_eq!(
        count_runs(&vec![179830, 179830, 179831, 180000, 180000, 180000]),
        vec![(179830, 2), (179831, 1), (180000, 3)]
    );
    assert_eq!(count_runs(&vec![]), vec![]);
}

#[test]
fn world_states_tell_absent_from_zero() {
    let pairs = vec![(1581, 0), (1582, 3), (1581, 9)];
    assert_eq!(world_state(&pairs, 1581), Some(0));
    assert_eq!(world_state(&pairs, 1582), Some(3));
    assert_eq!(world_state(&pairs, 2000), None);
}

#[test]
fn a_full_arathi_run_restores_the_lever_on_the_first_census() {
    let mut p = BgRun::new(1, 1);
    let mut o = quiet();
    assert_eq!(
        p.step(1000, &o),
        vec![
            BgEffect::Gm(Gm::Revive),
            BgEffect::Gm(Gm::LevelUp(50)),
            BgEffect::Gm(Gm::ClearDeserter),
            BgEffect::Gm(Gm::GoToBattlemaster),
        ]
    );
    assert_eq!(p.phase, Phase::Hopped { sent_at: 1000 });
    assert_eq!(p.step(3999, &o), vec![]);
    assert_eq!(p.step(4000, &o), vec![BgEffect::Gm(Gm::DebugBg)]);
    assert_eq!(p.toggles_sent, 1);
    o.drain = Some(DrainRead::Text("CHAT_MSG_SYSTEM(set to 1v0 for debugging)".to_string()));
    assert_eq!(p.step(4100, &o), vec![BgEffect::Testing(TestingNote::Confirmed)]);
    assert!(p.testing_confirmed);
    o.drain = None;
    // The alcove holds all three battlemasters: the one with Arathi's entry is greeted.
    o.entities = vec![unit(0xA1, 14981, 0x800), unit(0xA2, 15008, 0x801)];
    assert_eq!(p.step(4200, &o), vec![BgEffect::Hello(0xA2)]);
    o.list_from = Some(0xA2);
    assert_eq!(
        p.step(4300, &o),
        vec![BgEffect::Join { battlemaster: 0xA2, map_id: 529 }]
    );
    o.slots[1] = Some(QueueStatus { map_id: 529, status: 2, instance_id: 7 });
    assert_eq!(p.step(4400, &o), vec![BgEffect::AcceptPort(2)]);
    assert_eq!(p.port_taken(4500, true), vec![]);
    assert_eq!(p.phase, Phase::Ported { sent_at: 4500 });
    o.map = Some(529);
    assert_eq!(p.step(4600, &o), vec![BgEffect::Entered]);
    assert_eq!(p.step(16599, &o), vec![]);
    o.drain = Some(DrainRead::Text("  UPDATE_WORLD_STATES(nil)".to_string()));
    assert_eq!(
        p.step(16600, &o),
        vec![
            BgEffect::Census { t: 12000, sample: 1 },
            BgEffect::Testing(TestingNote::Restoring(1)),
            BgEffect::Gm(Gm::DebugBg),
            BgEffect::Gm(Gm::Die),
        ]
    );
    assert_eq!(p.toggles_sent, 2);
    assert_eq!(p.events, "CHAT_MSG_SYSTEM(set to 1v0 for debugging)  UPDATE_WORLD_STATES(nil)");
    o.dead = true;
    assert_eq!(p.step(17000, &o), vec![BgEffect::Repop]);
    let mut now = 17000;
    for k in 1..11 {
        now += 4000;
        assert_eq!(p.step(now, &o), vec![BgEffect::GhostSample { t: 4000 * k }]);
    }
    now += 4000;
    assert_eq!(
        p.step(now, &o),
        vec![
            BgEffect::GhostSample { t: 44000 },
            BgEffect::AcceptSpiritHeal,
            BgEffect::Report,
            BgEffect::Gm(Gm::GoHome),
            BgEffect::Testing(TestingNote::AsFound(2)),
        ]
    );
    assert_eq!(p.phase, Phase::Done);
    assert_eq!(p.toggles_sent % 2, 0);
    assert_eq!(p.step(now + 1, &o), vec![]);
    // The leave has not landed: wait out the grace, then exit stranded.
    assert_eq!(p.exit_step(now + 10, Some(529)), vec![]);
    assert_eq!(p.exit_step(now + 5011, Some(529)), vec![BgEffect::Exit { stranded: true }]);
    assert_eq!(p.exit_step(now + 6000, Some(0)), vec![]);
}

#[test]
fn a_lever_that_stays_off_ends_the_run_with_it_as_found() {
    let mut p = BgRun::new(0, 12);
    let mut o = quiet();
    o.level = Some(60);
    assert_eq!(
        p.step(0, &o),
        vec![
            BgEffect::Gm(Gm::Revive),
            BgEffect::Gm(Gm::ClearDeserter),
            BgEffect::Gm(Gm::GoToBattlemaster),
        ]
    );
    assert_eq!(p.step(3000, &o), vec![BgEffect::Gm(Gm::DebugBg)]);
    o.drain = Some(DrainRead::Text("set to normal playercount".to_string()));
    assert_eq!(
        p.step(3100, &o),
        vec![BgEffect::Testing(TestingNote::TurnedOff), BgEffect::Gm(Gm::DebugBg)]
    );
    assert_eq!(p.phase, Phase::Toggled { sent_at: 3100, corrected: true });
    assert_eq!(
        p.step(3200, &o),
        vec![
            BgEffect::Failure(BgFailure::TestingStaysOff),
            BgEffect::Testing(TestingNote::AsFound(2)),
        ]
    );
    assert_eq!(p.phase, Phase::Done);
    assert_eq!(p.toggles_sent, 2);
    // Off the arena's map already: the exit is at once, not stranded.
    assert_eq!(p.exit_step(3300, Some(0)), vec![BgEffect::Exit { stranded: false }]);
}

#[test]
fn an_unread_reply_moves_on_and_a_raised_port_puts_the_lever_back() {
    let mut p = BgRun::new(0, 12);
    let mut o = quiet();
    o.level = Some(60);
    p.step(0, &o);
    assert_eq!(p.step(3000, &o), vec![BgEffect::Gm(Gm::DebugBg)]);
    assert_eq!(p.step(9000, &o), vec![]);
    assert_eq!(p.step(9001, &o), vec![BgEffect::Testing(TestingNote::Unread)]);
    assert!(!p.testing_confirmed);
    o.entities = vec![unit(0xB1, 14981, 0x800)];
    assert_eq!(p.step(9100, &o), vec![BgEffect::Hello(0xB1)]);
    o.list_from = Some(0xB1);
    assert_eq!(
        p.step(9200, &o),
        vec![BgEffect::Join { battlemaster: 0xB1, map_id: 489 }]
    );
    // A ready slot for another map is not ours.
    o.slots[0] = Some(QueueStatus { map_id: 529, status: 2, instance_id: 1 });
    assert_eq!(p.step(9300, &o), vec![]);
    o.slots[2] = Some(QueueStatus { map_id: 489, status: 2, instance_id: 4 });
    assert_eq!(p.step(9400, &o), vec![BgEffect::AcceptPort(3)]);
    assert_eq!(
        p.port_taken(9500, false),
        vec![
            BgEffect::Failure(BgFailure::PortRaised),
            BgEffect::Testing(TestingNote::Restoring(1)),
            BgEffect::Gm(Gm::DebugBg),
        ]
    );
    assert_eq!(p.phase, Phase::Done);
    assert_eq!(p.toggles_sent, 2);
}

#[test]
fn gm_mode_that_never_drops_refuses_the_run() {
    let mut p = BgRun::new(2, 12);
    let mut o = quiet();
    o.player_flags = 0x8;
    assert_eq!(p.step(100, &o), vec![]);
    assert_eq!(p.step(20099, &o), vec![]);
    assert_eq!(
        p.step(20100, &o),
        vec![
            BgEffect::Failure(BgFailure::GmStillOn),
            BgEffect::Testing(TestingNote::AsFound(0)),
        ]
    );
    assert_eq!(p.phase, Phase::Done);
}

#[test]
fn the_queue_is_dropped_and_retaken_when_no_slot_gets_ready() {
    let mut p = BgRun::new(2, 12);
    let mut o = quiet();
    o.level = Some(60);
    p.step(0, &o);
    p.step(3000, &o);
    o.drain = Some(DrainRead::Text("for debugging".to_string()));
    p.step(3100, &o);
    o.drain = None;
    o.entities = vec![unit(0xC1, 7410, 0x800)];
    assert_eq!(p.step(3200, &o), vec![BgEffect::Hello(0xC1)]);
    o.list_from = Some(0xC1);
    assert_eq!(p.step(3300, &o), vec![BgEffect::Join { battlemaster: 0xC1, map_id: 30 }]);
    o.slots[1] = Some(QueueStatus { map_id: 30, status: 1, instance_id: 0 });
    assert_eq!(p.step(15300, &o), vec![]);
    assert_eq!(
        p.step(15301, &o),
        vec![BgEffect::Rejoin(1), BgEffect::DeclinePort(2)]
    );
    assert_eq!(p.step(17000, &o), vec![]);
    assert_eq!(p.step(17302, &o), vec![BgEffect::Join { battlemaster: 0xC1, map_id: 30 }]);
}
