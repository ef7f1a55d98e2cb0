use lib::auction::{
    action_name, error_name, is_auctioneer, owner_index_of, AuctionCheck, AuctionEffect,
    AuctionObs, AuctionProbe, LuaRun, OwnerEntry, Phase, Sighting,
};
use lib::probe_clock::Outcome;

fn quiet() -> AuctionObs {
    AuctionObs {
        money: 10000,
        nearest: None,
        session_auctioneer: None,
        house_id: 0,
        list_results: 0,
        browse_sent: 0,
        last_command: None,
        owner_entries: vec![],
        show_events: 0,
        list_events: 0,
        owned_events: 0,
        can_query: None,
        bag_item: -1,
        sell_named: false,
        sell_price: 0,
        quoted_deposit: -1,
        sell_slot_occupied: false,
        owner_row_min_bid: 0,
        owner_row_buyout: 0,
        owner_coins: None,
        chat_said: 0,
        chat_reds: 0,
    }
}

fn pass(c: AuctionCheck) -> AuctionEffect {
    AuctionEffect::Verdict(c, Outcome::Pass)
}

fn fail(c: AuctionCheck) -> AuctionEffect {
    AuctionEffect::Verdict(c, Outcome::Fail)
}

fn ours() -> OwnerEntry {
    OwnerEntry { auction_id: 555, item_entry: 2589, start_bid: 100, buyout: 200 }
}

fn other() -> OwnerEntry {
    OwnerEntry { auction_id: 9, item_entry: 1, start_bid: 1, buyout: 0 }
}

#[test]
fn the_whole_arc_passes_every_step_and_reports_done_once() {
    let mut p = AuctionProbe::new();
    let mut o = quiet();

    assert_eq!(p.step(0, &o), vec![AuctionEffect::Run(LuaRun::InstallHook)]);
    assert_eq!(p.resume(0, true), vec![AuctionEffect::GoToAuctioneer]);
    assert_eq!(p.phase, Phase::Settling { sent_at: 0 });
    assert_eq!(p.step(1000, &o), vec![]);

    o.nearest = Some(Sighting { guid: 42, entry: 8719, npc_flags: 0x1000, in_reach: true });
    assert_eq!(p.step(3500, &o), vec![pass(AuctionCheck::Reach), AuctionEffect::Hello(42)]);
    assert_eq!(p.auctioneer, Some(42));

    o.session_auctioneer = Some(42);
    o.house_id = 1;
    o.show_events = 1;
    assert_eq!(p.step(4000, &o), vec![pass(AuctionCheck::Greet)]);

    assert_eq!(p.step(4100, &o), vec![AuctionEffect::Run(LuaRun::Query)]);
    assert_eq!(p.resume(4100, true), vec![]);
    o.list_results = 1;
    o.browse_sent = 1;
    assert_eq!(p.step(4500, &o), vec![pass(AuctionCheck::Browse)]);
    o.list_events = 1;
    assert_eq!(p.step(4600, &o), vec![pass(AuctionCheck::ListEvent)]);

    o.can_query = Some(false);
    assert_eq!(p.step(4700, &o), vec![AuctionEffect::Run(LuaRun::Query)]);
    assert_eq!(p.resume(4700, true), vec![]);
    assert_eq!(p.step(6700, &o), vec![]);
    assert_eq!(p.step(6800, &o), vec![pass(AuctionCheck::Throttle)]);

    o.can_query = Some(true);
    assert_eq!(p.step(7000, &o), vec![AuctionEffect::Run(LuaRun::Query)]);
    assert_eq!(p.resume(7000, true), vec![]);
    o.browse_sent = 2;
    assert_eq!(p.step(7100, &o), vec![pass(AuctionCheck::ThrottleRecovers)]);

    assert_eq!(p.step(7200, &o), vec![AuctionEffect::AddItem]);
    o.bag_item = 203;
    assert_eq!(
        p.step(7300, &o),
        vec![AuctionEffect::Run(LuaRun::AttachItem { bag: 2, slot: 3 })]
    );
    assert_eq!(p.resume(7300, true), vec![]);

    o.sell_named = true;
    o.sell_price = 10;
    o.quoted_deposit = 30;
    o.sell_slot_occupied = true;
    assert_eq!(
        p.step(7400, &o),
        vec![AuctionEffect::Run(LuaRun::StartAuction { min_bid: 100, buyout: 200 })]
    );
    assert_eq!((p.min_bid, p.buyout, p.deposit, p.baseline_money), (100, 200, 30, 10000));
    assert_eq!(p.resume(7400, true), vec![]);

    o.last_command = Some((555, 0, 0));
    assert_eq!(p.step(7500, &o), vec![pass(AuctionCheck::Sell)]);
    assert_eq!(p.auction_id, Some(555));

    o.money = 9970;
    o.sell_slot_occupied = false;
    assert_eq!(
        p.step(7600, &o),
        vec![pass(AuctionCheck::Deposit), pass(AuctionCheck::SellSlot)]
    );

    assert_eq!(p.step(7700, &o), vec![AuctionEffect::AskOwnerList]);
    assert_eq!(p.step(7800, &o), vec![]);

    o.owner_entries = vec![other(), ours()];
    o.owner_row_min_bid = 100;
    o.owner_row_buyout = 200;
    o.owner_coins = Some((false, String::new(), true, "1".to_string(), true, "0".to_string()));
    o.chat_said = 1;
    assert_eq!(
        p.step(7900, &o),
        vec![
            pass(AuctionCheck::Owner),
            pass(AuctionCheck::OwnerMoney),
            pass(AuctionCheck::OwnerChat),
        ]
    );
    o.owned_events = 1;
    assert_eq!(p.step(8000, &o), vec![pass(AuctionCheck::OwnedEvent)]);

    assert_eq!(
        p.step(8100, &o),
        vec![AuctionEffect::Run(LuaRun::CancelRow { index: 2 })]
    );
    assert_eq!(p.resume(8100, true), vec![]);
    o.last_command = Some((555, 1, 0));
    assert_eq!(
        p.step(8200, &o),
        vec![pass(AuctionCheck::Cancel), AuctionEffect::AskOwnerList]
    );
    o.owner_entries = vec![other()];
    assert_eq!(p.step(8300, &o), vec![pass(AuctionCheck::CancelList)]);
    assert_eq!(p.phase, Phase::Done);
    assert_eq!(p.step(8400, &o), vec![AuctionEffect::Finished { passes: 15, fails: 0 }]);
    assert_eq!(p.step(8500, &o), vec![]);
}

#[test]
fn a_missing_auctioneer_fails_reach_and_ends() {
    let mut p = AuctionProbe::new();
    let o = quiet();
    p.step(0, &o);
    p.resume(0, true);
    assert_eq!(p.step(15000, &o), vec![]);
    assert_eq!(p.step(15001, &o), vec![fail(AuctionCheck::Reach)]);
    assert_eq!(p.step(15002, &o), vec![AuctionEffect::Finished { passes: 0, fails: 1 }]);
}

#[test]
fn a_failed_hook_fails_setup() {
    let mut p = AuctionProbe::new();
    p.step(0, &quiet());
    assert_eq!(p.resume(0, false), vec![fail(AuctionCheck::Setup)]);
    assert_eq!(p.phase, Phase::Done);
}

#[test]
fn a_session_for_another_auctioneer_fails_the_greeting_but_browses_on() {
    let mut p = AuctionProbe::new();
    p.phase = Phase::Greet { sent_at: 0, show_baseline: 0 };
    p.auctioneer = Some(42);
    let mut o = quiet();
    o.session_auctioneer = Some(43);
    o.house_id = 1;
    o.show_events = 1;
    assert_eq!(p.step(100, &o), vec![fail(AuctionCheck::Greet)]);
    assert!(matches!(p.phase, Phase::Browse { .. }));
}

#[test]
fn an_open_throttle_skips_the_refusal() {
    let mut p = AuctionProbe::new();
    p.phase = Phase::Refuse { since: 0, sent: false, sent_baseline: 0, results_baseline: 0 };
    let o = quiet();
    assert_eq!(
        p.step(5, &o),
        vec![AuctionEffect::Verdict(AuctionCheck::Throttle, Outcome::Skip)]
    );
    assert_eq!(p.phase, Phase::EnsureItem { since: 5, sent: false });
}

#[test]
fn a_query_the_throttle_let_through_fails_the_refusal() {
    let mut p = AuctionProbe::new();
    p.phase = Phase::Refuse { since: 0, sent: true, sent_baseline: 3, results_baseline: 0 };
    let mut o = quiet();
    o.browse_sent = 4;
    assert_eq!(p.step(10, &o), vec![fail(AuctionCheck::Throttle)]);
    assert_eq!(p.phase, Phase::Recover { since: 10, sent: false, sent_baseline: 4 });
}

#[test]
fn a_big_stack_opens_at_half_again_its_value() {
    let mut p = AuctionProbe::new();
    p.phase = Phase::Attach { since: 0 };
    let mut o = quiet();
    o.sell_named = true;
    o.sell_price = 1001;
    assert_eq!(
        p.step(1, &o),
        vec![AuctionEffect::Run(LuaRun::StartAuction { min_bid: 1501, buyout: 3002 })]
    );
}

#[test]
fn a_refused_listing_fails_sell_and_never_learns_an_id() {
    let mut p = AuctionProbe::new();
    p.phase = Phase::Sell { since: 0 };
    let mut o = quiet();
    o.last_command = Some((77, 0, 3));
    assert_eq!(p.step(1, &o), vec![fail(AuctionCheck::Sell)]);
    assert_eq!(p.auction_id, None);
    assert_eq!(p.phase, Phase::Done);
}

#[test]
fn a_free_listing_skips_the_deposit_check() {
    let mut p = AuctionProbe::new();
    p.phase = Phase::SellMoney { since: 0, money_done: false, slot_done: true };
    p.deposit = 0;
    let o = quiet();
    assert_eq!(p.step(10000, &o), vec![]);
    assert_eq!(
        p.step(10001, &o),
        vec![AuctionEffect::Verdict(AuctionCheck::Deposit, Outcome::Skip)]
    );
}

#[test]
fn a_lone_silver_coin_fails_the_money_frame() {
    let mut p = AuctionProbe::new();
    p.phase = Phase::OwnerList { since: 0, last_ask: 0, event_baseline: 0 };
    p.auction_id = Some(555);
    p.min_bid = 100;
    p.buyout = 200;
    let mut o = quiet();
    o.owner_entries = vec![ours()];
    o.owner_row_min_bid = 100;
    o.owner_row_buyout = 200;
    o.owner_coins = Some((false, String::new(), true, "1".to_string(), false, String::new()));
    o.chat_said = 1;
    o.chat_reds = 2;
    assert_eq!(
        p.step(1, &o),
        vec![
            pass(AuctionCheck::Owner),
            fail(AuctionCheck::OwnerMoney),
            fail(AuctionCheck::OwnerChat),
        ]
    );
    assert_eq!((p.passes, p.fails), (1, 2));
}

#[test]
fn a_listing_that_never_shows_is_still_cancelled() {
    let mut p = AuctionProbe::new();
    p.phase = Phase::OwnerList { since: 0, last_ask: 10, event_baseline: 0 };
    p.auction_id = Some(555);
    let o = quiet();
    assert_eq!(p.step(20001, &o), vec![fail(AuctionCheck::Owner)]);
    assert_eq!(
        p.phase,
        Phase::Cancel { since: 20001, sent: false, removed: false, last_ask: 0 }
    );
}

#[test]
fn a_refused_cancel_fails_and_ends() {
    let mut p = AuctionProbe::new();
    p.phase = Phase::Cancel { since: 0, sent: true, removed: false, last_ask: 0 };
    p.auction_id = Some(555);
    let mut o = quiet();
    o.last_command = Some((555, 1, 2));
    assert_eq!(p.step(1, &o), vec![fail(AuctionCheck::Cancel)]);
    assert_eq!(p.phase, Phase::Done);
}

#[test]
fn the_owner_page_is_searched_by_auction_id() {
    let page = vec![other(), ours(), ours()];
    assert_eq!(owner_index_of(&page, 555), Some(2));
    assert_eq!(owner_index_of(&page, 9), Some(1));
    assert_eq!(owner_index_of(&page, 1), None);
    assert_eq!(owner_index_of(&vec![], 555), None);
}

#[test]
fn command_results_are_named_for_the_trace() {
    assert_eq!(action_name(0), "STARTED");
    assert_eq!(action_name(1), "REMOVED");
    assert_eq!(action_name(2), "BID_PLACED");
    assert_eq!(action_name(9), "UNKNOWN");
    assert_eq!(error_name(0), "OK");
    assert_eq!(error_name(3), "NOT_ENOUGH_MONEY");
    assert_eq!(error_name(10), "BID_OWN");
    assert_eq!(error_name(13), "RESTRICTED_ACCOUNT");
    assert_eq!(error_name(6), "unnamed");
}

#[test]
fn the_auctioneer_is_known_by_its_flag() {
    assert!(is_auctioneer(0x1000));
    assert!(is_auctioneer(0x1003));
    assert!(!is_auctioneer(0x0800));
}

#[test]
fn a_listing_whose_snapshot_never_catches_up_is_still_cancelled() {
    let mut p = AuctionProbe::new();
    p.phase = Phase::OwnerList { since: 0, last_ask: 0, event_baseline: 0 };
    p.auction_id = Some(555);
    p.min_bid = 100;
    p.buyout = 200;
    let mut o = quiet();
    o.owner_entries = vec![ours()];
    o.owner_row_min_bid = 0;
    o.owner_row_buyout = 0;
    assert_eq!(p.step(100, &o), vec![]);
    assert_eq!(p.step(20001, &o), vec![fail(AuctionCheck::Owner)]);
    assert_eq!(
        p.phase,
        Phase::Cancel { since: 20001, sent: false, removed: false, last_ask: 0 }
    );
    assert_eq!(p.auction_id, Some(555));
}
