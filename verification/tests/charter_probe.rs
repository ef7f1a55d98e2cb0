use lib::binder::{GossipOption, IconFault};
use lib::charter::{
    lua_bag_pos, probe_guild_name, CharterCheck, CharterEffect, CharterObs, CharterProbe,
    CharterRun, Phase,
};
use lib::probe_clock::{Outcome, UnitSighting};

fn quiet() -> CharterObs {
    CharterObs {
        guild_id: 0,
        guild_rank: 3,
        wall_secs: 1_234_567_890,
        units: vec![],
        gossip_npc: None,
        options: vec![],
        vm_gossip_values: 0,
        vm_icon_types: vec![],
        vm_petition_texture: String::new(),
        registrar_npc: None,
        registrar_visible: false,
        charter_cost: -1,
        npc_token: String::new(),
        charter_item: None,
        charter_flags: None,
        petition_visible: false,
        petition_type: String::new(),
        petition_title: String::new(),
        petition_max: -1,
        is_originator: 0,
        num_names: -1,
        tooltip: vec![],
    }
}

fn pass(c: CharterCheck) -> CharterEffect {
    CharterEffect::Verdict(c, Outcome::Pass)
}

fn menu() -> Vec<GossipOption> {
    vec![
        GossipOption { index: 0, icon: 7, message: "How do I form a Guild?".to_string() },
        GossipOption { index: 1, icon: 8, message: "I want to create a guild crest.".to_string() },
    ]
}

#[test]
fn the_whole_charter_arc_passes_and_cleans_up() {
    let mut p = CharterProbe::new();
    let mut o = quiet();
    assert_eq!(p.step(0, &o), vec![CharterEffect::InstallHook, CharterEffect::Fund]);
    o.guild_id = 42;
    o.guild_rank = 0;
    assert_eq!(p.step(10, &o), vec![CharterEffect::Run(CharterRun::Unguild { disband: true })]);
    assert_eq!(p.resume(10, true), vec![]);
    assert_eq!(p.step(20, &o), vec![]);
    o.guild_id = 0;
    assert_eq!(p.step(30, &o), vec![pass(CharterCheck::Precheck), CharterEffect::GoToRegistrar]);
    o.units = vec![UnitSighting { guid: 0xA1, is_unit: true, entry: Some(4974), npc_flags: 0x601, in_range: true }];
    assert_eq!(p.step(3030, &o), vec![pass(CharterCheck::Hop), CharterEffect::GossipHello(0xA1)]);
    o.gossip_npc = Some(0xA1);
    o.options = menu();
    o.vm_gossip_values = 4;
    o.vm_icon_types = vec!["petition".to_string(), "tabard".to_string()];
    o.vm_petition_texture = "tex".to_string();
    assert_eq!(
        p.step(3100, &o),
        vec![
            pass(CharterCheck::Menu),
            pass(CharterCheck::Icon),
            CharterEffect::SelectOption { guid: 0xA1, option: 0 },
        ]
    );
    o.registrar_npc = Some(0xA1);
    o.registrar_visible = true;
    o.charter_cost = 1000;
    assert_eq!(p.step(3200, &o), vec![]);
    assert_eq!(p.step(4200, &o), vec![pass(CharterCheck::Registrar)]);
    assert_eq!(p.step(4300, &o), vec![CharterEffect::Run(CharterRun::Purchase)]);
    assert_eq!(p.bought, "Probe Charter 34567890");
    p.resume(4300, true);
    o.charter_item = Some((255, 25, 0xC0));
    assert_eq!(p.step(4400, &o), vec![]);
    o.charter_flags = Some(0x2000);
    assert_eq!(p.step(4500, &o), vec![pass(CharterCheck::Buy)]);
    assert_eq!(
        p.step(4600, &o),
        vec![CharterEffect::Run(CharterRun::Click { container: 0, slot: 3 })]
    );
    p.resume(4600, true);
    o.petition_visible = true;
    o.petition_type = "guild".to_string();
    o.is_originator = 1;
    o.num_names = 0;
    assert_eq!(p.step(4700, &o), vec![pass(CharterCheck::Open)]);
    assert_eq!(p.title_at_open, "");
    o.petition_title = "Probe Charter 34567890".to_string();
    o.petition_max = 9;
    assert_eq!(p.step(4800, &o), vec![pass(CharterCheck::Record)]);
    o.wall_secs = 1_234_567_899;
    assert_eq!(p.step(4900, &o), vec![CharterEffect::Run(CharterRun::Rename)]);
    assert_eq!(p.renamed, "Probe Renamed 34567899");
    p.resume(4900, true);
    o.petition_title = "Probe Renamed 34567899".to_string();
    assert_eq!(p.step(5000, &o), vec![]);
    o.tooltip = vec!["Guild Charter".to_string(), "<Probe Renamed 34567899> Probezero".to_string()];
    assert_eq!(p.step(5100, &o), vec![pass(CharterCheck::Rename)]);
    o.charter_item = Some((255, 26, 0xC0));
    assert_eq!(p.step(5200, &o), vec![CharterEffect::Destroy { bag_index: 255, slot: 26 }]);
    o.charter_item = None;
    assert_eq!(p.step(5300, &o), vec![pass(CharterCheck::Cleanup)]);
    assert_eq!(p.step(5400, &o), vec![CharterEffect::Finished { passes: 10, fails: 0 }]);
}

#[test]
fn a_wrong_price_is_a_value_failure() {
    let mut p = CharterProbe::new();
    p.phase = Phase::Registrar { since: 0 };
    p.registrar = Some(1);
    let mut o = quiet();
    o.registrar_npc = Some(1);
    o.registrar_visible = true;
    o.charter_cost = 10;
    assert_eq!(
        p.step(1, &o),
        vec![CharterEffect::Verdict(CharterCheck::Registrar, Outcome::Fail)]
    );
    assert_eq!(p.phase, Phase::Done);
}

#[test]
fn a_charter_without_its_flag_fails_and_is_destroyed() {
    let mut p = CharterProbe::new();
    p.phase = Phase::Buying { since: 0, sent: true };
    let mut o = quiet();
    o.charter_item = Some((19, 2, 5));
    o.charter_flags = Some(0);
    assert_eq!(p.step(1, &o), vec![CharterEffect::Verdict(CharterCheck::Buy, Outcome::Fail)]);
    assert_eq!(p.phase, Phase::Destroying { since: 1, sent: false });
    assert_eq!(p.charter, Some((19, 2, 5)));
}

#[test]
fn a_buy_that_never_lands_ends_without_a_charter() {
    let mut p = CharterProbe::new();
    p.phase = Phase::Buying { since: 0, sent: true };
    assert_eq!(p.step(25001, &quiet()), vec![CharterEffect::Verdict(CharterCheck::Buy, Outcome::Fail)]);
    assert_eq!(p.phase, Phase::Done);
}

#[test]
fn the_bubble_icon_is_the_regression_one_row_over() {
    let mut p = CharterProbe::new();
    p.phase = Phase::Menu { sent_at: 0 };
    p.registrar = Some(1);
    let mut o = quiet();
    o.gossip_npc = Some(1);
    o.options = menu();
    o.vm_gossip_values = 4;
    o.vm_icon_types = vec!["gossip".to_string()];
    assert_eq!(
        p.step(1, &o),
        vec![
            pass(CharterCheck::Menu),
            CharterEffect::IconFault(IconFault::Regression),
            CharterEffect::Verdict(CharterCheck::Icon, Outcome::Fail),
        ]
    );
}

#[test]
fn a_window_already_open_fails_the_control() {
    let mut p = CharterProbe::new();
    p.phase = Phase::Opening { since: 0, sent: false };
    p.charter = Some((255, 23, 9));
    let mut o = quiet();
    o.petition_visible = true;
    assert_eq!(p.step(1, &o), vec![CharterEffect::Verdict(CharterCheck::Open, Outcome::Fail)]);
    assert_eq!(p.phase, Phase::Destroying { since: 1, sent: false });
}

#[test]
fn a_title_from_elsewhere_fails_the_record() {
    let mut p = CharterProbe::new();
    p.phase = Phase::Record { since: 0 };
    p.bought = "Probe Charter 1".to_string();
    p.title_at_open = "Other".to_string();
    let mut o = quiet();
    o.petition_title = "Probe Charter 1".to_string();
    o.petition_max = 9;
    assert_eq!(p.step(1, &o), vec![CharterEffect::Verdict(CharterCheck::Record, Outcome::Fail)]);
    assert!(matches!(p.phase, Phase::Renaming { .. }));
}

#[test]
fn a_refused_rename_skips_to_the_cleanup() {
    let mut p = CharterProbe::new();
    p.phase = Phase::Renaming { since: 0, sent: false };
    p.charter = Some((255, 23, 9));
    p.step(1, &quiet());
    assert_eq!(p.resume(1, false), vec![CharterEffect::Verdict(CharterCheck::Rename, Outcome::Skip)]);
    assert_eq!(p.phase, Phase::Destroying { since: 1, sent: false });
}

#[test]
fn a_charter_gone_before_the_destroy_passes_the_cleanup() {
    let mut p = CharterProbe::new();
    p.phase = Phase::Destroying { since: 0, sent: false };
    p.charter = Some((255, 23, 9));
    assert_eq!(p.step(1, &quiet()), vec![pass(CharterCheck::Cleanup)]);
}

#[test]
fn bag_positions_map_to_lua_containers() {
    assert_eq!(lua_bag_pos(255, 23), Some((0, 1)));
    assert_eq!(lua_bag_pos(255, 38), Some((0, 16)));
    assert_eq!(lua_bag_pos(255, 39), None);
    assert_eq!(lua_bag_pos(255, 5), None);
    assert_eq!(lua_bag_pos(19, 0), Some((1, 1)));
    assert_eq!(lua_bag_pos(22, 35), Some((4, 36)));
    assert_eq!(lua_bag_pos(22, 36), None);
    assert_eq!(lua_bag_pos(23, 0), None);
    assert_eq!(lua_bag_pos(3, 0), None);
}

#[test]
fn guild_names_carry_eight_clock_digits() {
    assert_eq!(probe_guild_name("Probe Charter", 7), "Probe Charter 00000007");
    assert_eq!(probe_guild_name("X", 123_456_789_012), "X 56789012");
}
