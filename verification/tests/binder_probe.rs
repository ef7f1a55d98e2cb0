use lib::binder::{
    bound_line, find_bind_row, find_innkeeper, any_line_is, BinderCheck, BinderEffect, BinderObs,
    BinderProbe, GossipOption, IconFault, Phase,
};
use lib::probe_clock::{Outcome, UnitSighting};

fn quiet() -> BinderObs {
    BinderObs {
        units: vec![],
        gossip_npc: None,
        options: vec![],
        vm_gossip_values: 0,
        vm_icon_types: vec![],
        vm_binder_texture: String::new(),
        binder_npc: None,
        events: 0,
        last_event: String::new(),
        home_area: None,
        bind_name: String::new(),
        vm_bind_location: String::new(),
        system_lines: vec![],
    }
}

fn pass(c: BinderCheck) -> BinderEffect {
    BinderEffect::Verdict(c, Outcome::Pass)
}

fn menu() -> Vec<GossipOption> {
    vec![
        GossipOption { index: 0, icon: 0, message: "Tell me about the festival (GM mode is ON)".to_string() },
        GossipOption { index: 1, icon: 5, message: "Make this inn your HOME.".to_string() },
        GossipOption { index: 2, icon: 1, message: "Let me browse your goods.".to_string() },
    ]
}

fn keldamyr() -> UnitSighting {
    UnitSighting { guid: 0x46, is_unit: true, entry: Some(6736), npc_flags: 0x87, in_range: true }
}

#[test]
fn the_whole_bind_arc_passes_every_step() {
    let mut p = BinderProbe::new();
    let mut o = quiet();
    assert_eq!(p.step(0, &o), vec![BinderEffect::InstallHook, BinderEffect::GoToInnkeeper]);
    o.units = vec![keldamyr()];
    assert_eq!(p.step(3000, &o), vec![pass(BinderCheck::Hop), BinderEffect::GossipHello(0x46)]);
    o.gossip_npc = Some(0x46);
    o.options = menu();
    o.vm_gossip_values = 4;
    assert_eq!(p.step(3100, &o), vec![]);
    o.vm_gossip_values = 6;
    o.vm_icon_types = vec!["gossip".to_string(), "binder".to_string(), "vendor".to_string()];
    o.vm_binder_texture = "Interface\\GossipFrame\\BinderGossipIcon".to_string();
    o.events = 2;
    assert_eq!(
        p.step(3200, &o),
        vec![
            pass(BinderCheck::Menu),
            pass(BinderCheck::Icon),
            BinderEffect::SelectOption { guid: 0x46, option: 1 },
        ]
    );
    assert_eq!(p.bind_index, Some(1));
    assert_eq!(p.phase, Phase::Confirm { since: 3200, events_baseline: 2 });
    o.binder_npc = Some(0x46);
    o.events = 3;
    assert_eq!(p.step(3300, &o), vec![]);
    o.last_event = "Dolanaar".to_string();
    assert_eq!(p.step(3400, &o), vec![pass(BinderCheck::Confirm)]);
    o.home_area = Some(186);
    assert_eq!(
        p.step(3500, &o),
        vec![BinderEffect::ClearHomeBind, BinderEffect::RunConfirmBinder]
    );
    assert_eq!(p.baseline_area, Some(186));
    assert_eq!(p.resume(3500, true), vec![]);
    assert_eq!(p.step(3600, &o), vec![]);
    o.bind_name = "Dolanaar".to_string();
    o.vm_bind_location = "Dolanaar".to_string();
    assert_eq!(p.step(3700, &o), vec![pass(BinderCheck::Bind)]);
    assert_eq!(p.bound_name, "Dolanaar");
    o.system_lines = vec!["Welcome".to_string(), "Dolanaar is now your home.".to_string()];
    assert_eq!(p.step(3800, &o), vec![pass(BinderCheck::Line)]);
    assert_eq!(p.step(3900, &o), vec![BinderEffect::Finished { passes: 6, fails: 0 }]);
}

fn at_menu(o: &mut BinderObs) -> BinderProbe {
    let mut p = BinderProbe::new();
    p.phase = Phase::Menu { sent_at: 0 };
    p.innkeeper = Some(0x46);
    o.gossip_npc = Some(0x46);
    o.options = menu();
    o.vm_gossip_values = 6;
    o.vm_binder_texture = "tex".to_string();
    p
}

#[test]
fn the_chat_bubble_is_the_regression() {
    let mut o = quiet();
    let mut p = at_menu(&mut o);
    o.vm_icon_types = vec!["gossip".to_string(), "gossip".to_string()];
    assert_eq!(
        p.step(1, &o),
        vec![
            pass(BinderCheck::Menu),
            BinderEffect::IconFault(IconFault::Regression),
            BinderEffect::Verdict(BinderCheck::Icon, Outcome::Fail),
        ]
    );
    assert_eq!((p.passes, p.fails, p.phase), (1, 1, Phase::Done));
}

#[test]
fn other_icon_faults_are_named() {
    let mut o = quiet();
    let mut p = at_menu(&mut o);
    o.vm_icon_types = vec!["gossip".to_string(), "trainer".to_string()];
    assert_eq!(p.step(1, &o)[1], BinderEffect::IconFault(IconFault::WrongType));

    let mut o = quiet();
    let mut p = at_menu(&mut o);
    o.vm_icon_types = vec!["gossip".to_string()];
    assert_eq!(p.step(1, &o)[1], BinderEffect::IconFault(IconFault::WrongType));

    let mut o = quiet();
    let mut p = at_menu(&mut o);
    o.vm_icon_types = vec!["gossip".to_string(), "binder".to_string()];
    o.vm_binder_texture = String::new();
    assert_eq!(p.step(1, &o)[1], BinderEffect::IconFault(IconFault::NoTexture));

    let mut o = quiet();
    let mut p = at_menu(&mut o);
    o.options.remove(1);
    o.vm_gossip_values = 4;
    assert_eq!(p.step(1, &o)[1], BinderEffect::IconFault(IconFault::NoRow));
}

#[test]
fn a_row_that_does_not_name_home_is_not_selected() {
    let mut o = quiet();
    let mut p = at_menu(&mut o);
    o.options[1].message = "Tell me a story.".to_string();
    o.vm_icon_types = vec!["gossip".to_string(), "binder".to_string()];
    assert_eq!(
        p.step(1, &o),
        vec![
            pass(BinderCheck::Menu),
            pass(BinderCheck::Icon),
            BinderEffect::Verdict(BinderCheck::Select, Outcome::Skip),
        ]
    );
    assert_eq!(p.phase, Phase::Done);
}

#[test]
fn a_missing_innkeeper_is_a_skip_not_a_fail() {
    let mut p = BinderProbe::new();
    p.phase = Phase::Settling { sent_at: 0 };
    assert_eq!(
        p.step(20001, &quiet()),
        vec![BinderEffect::Verdict(BinderCheck::Hop, Outcome::Skip)]
    );
    assert_eq!((p.passes, p.fails), (0, 0));
}

#[test]
fn a_refused_confirm_binder_skips() {
    let mut p = BinderProbe::new();
    p.phase = Phase::Accept { since: 0, sent: false };
    p.step(1, &quiet());
    assert!(p.confirming);
    assert_eq!(p.resume(2, false), vec![BinderEffect::Verdict(BinderCheck::Bind, Outcome::Skip)]);
    assert_eq!(p.phase, Phase::Done);
}

#[test]
fn a_bind_the_vm_disagrees_with_fails_after_its_wait() {
    let mut p = BinderProbe::new();
    p.phase = Phase::Accept { since: 0, sent: true };
    let mut o = quiet();
    o.bind_name = "Dolanaar".to_string();
    o.vm_bind_location = "Goldshire".to_string();
    assert_eq!(p.step(20000, &o), vec![]);
    assert_eq!(p.step(20001, &o), vec![BinderEffect::Verdict(BinderCheck::Bind, Outcome::Fail)]);
}

#[test]
fn the_bound_line_fills_the_area_in() {
    assert_eq!(bound_line("Dolanaar"), "Dolanaar is now your home.");
    assert_eq!(bound_line(""), " is now your home.");
    let want: Vec<char> = "a".chars().collect();
    assert!(any_line_is(&vec!["b".to_string(), "a".to_string()], &want));
    assert!(!any_line_is(&vec!["ab".to_string()], &want));
    assert_eq!(find_bind_row(&menu()), Some(1));
    let mut far = keldamyr();
    far.in_range = false;
    let mut by_flag = keldamyr();
    by_flag.entry = None;
    assert_eq!(find_innkeeper(&vec![far, by_flag]), Some(1));
}
