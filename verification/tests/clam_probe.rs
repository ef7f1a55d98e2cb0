use lib::clam::{
    find_in_backpack, is_gone, target_entry, ClamEffect, ClamFailure, ClamObs, ClamProbe,
    PackSlot, Phase, RoundReport, WindowVerdict, CLAM_ENTRY,
};

fn pack_with(guid: u64, entry: u32, at: usize) -> Vec<PackSlot> {
    let mut p = vec![PackSlot { guid: 0, entry: None }; 16];
    p[0] = PackSlot { guid: 11, entry: Some(2589) };
    p[at] = PackSlot { guid, entry: Some(entry) };
    p
}

fn obs() -> ClamObs {
    ClamObs {
        pack: pack_with(0x77, CLAM_ENTRY, 3),
        template_lootable: true,
        window_open: false,
        source: None,
        grey: false,
        latch: None,
    }
}

#[test]
fn the_clam_opens_twice_and_is_taken_back() {
    let mut p = ClamProbe::new(CLAM_ENTRY);
    let mut o = obs();
    assert_eq!(p.step(0, &o), vec![ClamEffect::AutoLootOff, ClamEffect::Stock(7973)]);
    assert_eq!(p.step(10, &o), vec![]);
    assert_eq!((p.clam, p.slot, p.phase), (Some(0x77), 4, Phase::Before));
    for t in 0..59 {
        assert_eq!(p.step(20 + t, &o), vec![]);
    }
    assert_eq!(p.step(100, &o), vec![ClamEffect::Click(4)]);
    assert_eq!(p.resume(true), vec![]);
    o.window_open = true;
    o.source = Some(0x77);
    o.grey = true;
    o.latch = Some(0x77);
    assert_eq!(p.step(200, &o), vec![ClamEffect::CloseLoot]);
    o.window_open = false;
    o.latch = None;
    assert_eq!(p.step(300, &o), vec![]);
    assert_eq!(p.phase, Phase::Settling { since: 300, round: 1 });
    assert_eq!(p.step(1299, &o), vec![]);
    assert_eq!(p.step(1300, &o), vec![ClamEffect::Click(4)]);
    p.resume(true);
    o.window_open = true;
    assert_eq!(p.step(1400, &o), vec![ClamEffect::CloseLoot]);
    o.window_open = false;
    assert_eq!(p.step(1500, &o), vec![ClamEffect::Unstock(7973)]);
    assert_eq!(p.step(1600, &o), vec![]);
    o.pack = pack_with(0, CLAM_ENTRY, 3);
    assert_eq!(p.step(1700, &o), vec![]);
    assert_eq!(p.phase, Phase::Done);
    assert_eq!(p.step(1800, &o), vec![ClamEffect::Finished]);
    let s = p.summary();
    assert!(s.before_pass);
    assert_eq!((s.stray, s.control_frames), (0, 60));
    assert_eq!(
        s.rounds,
        vec![
            RoundReport { window: WindowVerdict::OnItem(0x77), grey: true, cleared: Some(true) },
            RoundReport { window: WindowVerdict::OnItem(0x77), grey: true, cleared: Some(true) },
        ]
    );
    assert_eq!(s.fails, 0);
}

#[test]
fn a_grey_slot_with_no_window_fails_and_still_cleans_up() {
    let mut p = ClamProbe::new(CLAM_ENTRY);
    p.phase = Phase::WaitOpen { since: 0, round: 0 };
    p.clam = Some(0x77);
    let mut o = obs();
    o.grey = true;
    assert_eq!(
        p.step(10001, &o),
        vec![ClamEffect::Failure(ClamFailure::NoWindow(0)), ClamEffect::Unstock(7973)]
    );
    assert_eq!(p.phase, Phase::Cleanup { since: 10001 });
    assert_eq!(p.step(18002, &o), vec![ClamEffect::Leftover(7973)]);
    let s = p.summary();
    assert!(!s.before_pass);
    assert_eq!(s.rounds[0], RoundReport { window: WindowVerdict::NoWindow, grey: true, cleared: None });
    assert_eq!(s.rounds[1], RoundReport { window: WindowVerdict::NoWindow, grey: false, cleared: None });
    assert_eq!(s.fails, 4);
}

#[test]
fn a_window_on_something_else_and_a_stuck_latch_each_fail() {
    let mut p = ClamProbe::new(CLAM_ENTRY);
    p.clam = Some(0x77);
    p.control = vec![false, true];
    p.opened = vec![Some(0x99), Some(0x77)];
    p.greyed = vec![false, true];
    p.cleared = vec![false, true];
    let s = p.summary();
    assert_eq!(s.stray, 1);
    assert!(!s.before_pass);
    assert_eq!(s.rounds[0].window, WindowVerdict::OnOther(0x99));
    assert_eq!(s.rounds[0].cleared, Some(false));
    assert_eq!(s.fails, 3);
}

#[test]
fn a_refused_click_fails_but_the_wait_goes_on() {
    let mut p = ClamProbe::new(CLAM_ENTRY);
    p.phase = Phase::Before;
    p.control = vec![false; 59];
    assert_eq!(p.step(5, &obs()), vec![ClamEffect::Click(0)]);
    assert_eq!(p.resume(false), vec![ClamEffect::Failure(ClamFailure::ClickRefused)]);
    assert_eq!(p.fails, 1);
    assert_eq!(p.phase, Phase::WaitOpen { since: 5, round: 0 });
}

#[test]
fn an_unstocked_item_fails_without_a_cleanup() {
    let mut p = ClamProbe::new(1234);
    p.phase = Phase::Stocking { sent_at: 0 };
    let mut o = obs();
    assert_eq!(p.step(20000, &o), vec![]);
    o.template_lootable = false;
    o.pack = pack_with(0x5, 1234, 2);
    assert_eq!(p.step(20001, &o), vec![ClamEffect::Failure(ClamFailure::NotStocked)]);
    assert_eq!(p.phase, Phase::Done);
}

#[test]
fn a_window_that_never_closes_fails_and_cleans_up() {
    let mut p = ClamProbe::new(CLAM_ENTRY);
    p.phase = Phase::WaitClosed { since: 0, round: 0 };
    p.opened = vec![Some(0x77)];
    p.greyed = vec![true];
    let mut o = obs();
    o.window_open = true;
    assert_eq!(
        p.step(10001, &o),
        vec![ClamEffect::Failure(ClamFailure::NeverClosed), ClamEffect::Unstock(7973)]
    );
}

#[test]
fn the_target_entry_reads_the_variable() {
    assert_eq!(target_entry(None), 7973);
    assert_eq!(target_entry(Some("1")), 7973);
    assert_eq!(target_entry(Some("0")), 7973);
    assert_eq!(target_entry(Some(" 5523 ")), 5523);
    assert_eq!(target_entry(Some("clam")), 7973);
}

#[test]
fn the_copy_is_found_and_its_absence_seen() {
    let pack = pack_with(0x77, CLAM_ENTRY, 3);
    assert_eq!(find_in_backpack(&pack, CLAM_ENTRY), Some(3));
    assert_eq!(find_in_backpack(&pack, 1), None);
    assert!(!is_gone(&pack, 0x77));
    assert!(is_gone(&pack, 0x78));
}
