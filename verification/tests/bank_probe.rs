use lib::probe_clock::UnitSighting;
use lib::bank::{
    find_bank_slot, find_banker, find_pack_item, names_banker, next_cost, BankCheck, BankEffect,
    BankObs, BankProbe, Phase,
};
use lib::probe_clock::Outcome;

fn quiet() -> BankObs {
    BankObs {
        units: vec![],
        bank_open: false,
        pack: vec![0; 16],
        bank: vec![0; 24],
        purchased: 0,
        money: 100000,
        dbc_price: None,
        events: 0,
        last_event: String::new(),
    }
}

fn pass(c: BankCheck) -> BankEffect {
    BankEffect::Verdict(c, Outcome::Pass)
}

fn banker(guid: u64) -> UnitSighting {
    UnitSighting { guid, is_unit: true, entry: Some(5099), npc_flags: 0x100, in_range: true }
}

#[test]
fn the_whole_bank_arc_passes_every_step() {
    let mut p = BankProbe::new();
    let mut o = quiet();
    assert_eq!(p.step(0, &o), vec![BankEffect::InstallHook, BankEffect::GoToBanker]);
    assert_eq!(p.step(2999, &o), vec![]);
    o.units = vec![
        UnitSighting { guid: 1, is_unit: true, entry: Some(3), npc_flags: 0, in_range: true },
        banker(77),
    ];
    assert_eq!(p.step(3000, &o), vec![pass(BankCheck::Teleport), BankEffect::Activate(77)]);
    o.bank_open = true;
    assert_eq!(p.step(3100, &o), vec![pass(BankCheck::Activate)]);
    assert_eq!(p.step(3200, &o), vec![BankEffect::AddItem]);
    o.pack[4] = 0xABC;
    assert_eq!(p.step(3300, &o), vec![BankEffect::AutoBank { slot: 27 }]);
    assert_eq!(p.item_guid, Some(0xABC));
    o.pack[4] = 0;
    o.bank[2] = 0xABC;
    assert_eq!(
        p.step(3400, &o),
        vec![pass(BankCheck::Deposit), BankEffect::AutoStore { slot: 41 }]
    );
    assert_eq!(p.bank_idx, Some(2));
    o.bank[2] = 0;
    o.pack[0] = 0xABC;
    assert_eq!(p.step(3500, &o), vec![pass(BankCheck::Withdraw)]);
    assert_eq!(p.step(3600, &o), vec![BankEffect::BuySlot(77)]);
    assert_eq!(p.next_cost, 1000);
    o.purchased = 1;
    o.money = 99000;
    o.events = 2;
    assert_eq!(p.step(3700, &o), vec![pass(BankCheck::BuySlot)]);
    assert_eq!(p.step(3800, &o), vec![BankEffect::LeaveRange]);
    assert_eq!(p.step(6799, &o), vec![]);
    assert_eq!(p.step(6800, &o), vec![BankEffect::BuySlot(77)]);
    o.events = 3;
    o.last_event = "You are too far away from the BANKER.".to_string();
    assert_eq!(p.step(6900, &o), vec![pass(BankCheck::Refusal)]);
    assert_eq!(p.step(7000, &o), vec![BankEffect::Finished { passes: 6, fails: 0 }]);
    assert_eq!(p.step(7100, &o), vec![]);
}

#[test]
fn a_short_purse_is_funded_once_then_bought() {
    let mut p = BankProbe::new();
    p.banker = Some(5);
    p.phase = Phase::BuySlot { since: 0, sent: false, funded: false };
    let mut o = quiet();
    o.purchased = 2;
    o.money = 40000;
    assert_eq!(p.step(1, &o), vec![BankEffect::GrantMoney(70000)]);
    assert_eq!(p.phase, Phase::BuySlot { since: 1, sent: false, funded: true });
    assert_eq!(
        p.step(2, &o),
        vec![BankEffect::Verdict(BankCheck::BuySlot, Outcome::Fail)]
    );
    assert!(matches!(p.phase, Phase::Refusal { .. }));
}

#[test]
fn the_dbc_price_wins_over_the_ladder() {
    assert_eq!(next_cost(Some(1234), 0), 1234);
    assert_eq!(next_cost(None, 0), 1000);
    assert_eq!(next_cost(None, 3), 250000);
    assert_eq!(next_cost(None, 5), 1000000);
    assert_eq!(next_cost(None, 6), 0);
}

#[test]
fn a_full_vault_skips_the_purchase() {
    let mut p = BankProbe::new();
    p.banker = Some(5);
    p.phase = Phase::BuySlot { since: 0, sent: false, funded: false };
    let mut o = quiet();
    o.purchased = 6;
    o.events = 4;
    assert_eq!(
        p.step(1, &o),
        vec![BankEffect::Verdict(BankCheck::BuySlot, Outcome::Skip)]
    );
    assert_eq!(
        p.phase,
        Phase::Refusal { since: 1, teleported: false, bought: false, events_baseline: 4 }
    );
    assert_eq!((p.passes, p.fails), (0, 0));
}

#[test]
fn an_unrelated_error_text_skips_the_refusal() {
    let mut p = BankProbe::new();
    p.banker = Some(5);
    p.phase = Phase::Refusal { since: 0, teleported: true, bought: true, events_baseline: 0 };
    let mut o = quiet();
    o.events = 1;
    o.last_event = "Interrupted".to_string();
    assert_eq!(
        p.step(1, &o),
        vec![BankEffect::Verdict(BankCheck::Refusal, Outcome::Skip)]
    );
    assert_eq!(p.phase, Phase::Done);
}

#[test]
fn a_silent_refusal_skips_after_its_grace() {
    let mut p = BankProbe::new();
    p.banker = Some(5);
    p.phase = Phase::Refusal { since: 0, teleported: true, bought: true, events_baseline: 0 };
    let o = quiet();
    assert_eq!(p.step(6000, &o), vec![]);
    assert_eq!(
        p.step(6001, &o),
        vec![BankEffect::Verdict(BankCheck::Refusal, Outcome::Skip)]
    );
}

#[test]
fn a_withdraw_that_never_lands_fails_and_moves_on_to_the_purchase() {
    let mut p = BankProbe::new();
    p.item_guid = Some(9);
    p.bank_idx = Some(3);
    p.phase = Phase::Withdraw { since: 0 };
    let mut o = quiet();
    o.bank[3] = 9;
    assert_eq!(p.step(8001, &o), vec![BankEffect::Verdict(BankCheck::Withdraw, Outcome::Fail)]);
    assert_eq!(p.phase, Phase::BuySlot { since: 8001, sent: false, funded: false });
}

#[test]
fn the_banker_is_known_by_entry_or_flag_within_range() {
    let mut by_flag = banker(2);
    by_flag.entry = Some(1);
    let mut far = banker(3);
    far.in_range = false;
    let mut object = banker(4);
    object.is_unit = false;
    let mut by_entry = banker(5);
    by_entry.npc_flags = 0;
    assert_eq!(find_banker(&vec![far, object, by_flag]), Some(2));
    assert_eq!(find_banker(&vec![by_entry]), Some(0));
    assert_eq!(find_banker(&vec![far, object]), None);
}

#[test]
fn slots_are_found_by_their_contents() {
    assert_eq!(find_pack_item(&vec![0, 0, 5, 6]), Some(2));
    assert_eq!(find_pack_item(&vec![0, 0]), None);
    assert_eq!(find_bank_slot(&vec![1, 2, 3, 2], 2), Some(1));
    assert_eq!(find_bank_slot(&vec![1, 2], 7), None);
}

#[test]
fn the_refusal_text_is_matched_in_lower_case() {
    assert!(names_banker("You are too far away from the BANKER."));
    assert!(names_banker("banker"));
    assert!(!names_banker("bank"));
    assert!(!names_banker(""));
}
