//! The auction-arc live probe (`WOW_PROBE_AUCTION=1`) — decision 1511's end-to-end instrument:
//! GM-hop to a real Stormwind auctioneer, greet it on the wire, and drive browse / throttle /
//! sell / owner-list / cancel through the live Lua VM exactly as a click would, reporting a
//! PASS/FAIL/SKIP verdict per step and a final `DONE pass=<n> fail=<m>` summary.
//!
//! The one assertion no unit test can make is step (2): **the window is opened by the server, not
//! by the click** — the hello *reply* opens the session. And the row-identity rule: the auction
//! created in step (5) is remembered by the **auction id the server's own `STARTED` result
//! carried**, once, and every later step tracks that id, never a predicate over the rows.
//!
//! The frame loop is the caller's. Each frame, in-world and with a UI VM, it reads an
//! [`AuctionObs`], calls [`AuctionProbe::step`], and performs the returned [`AuctionEffect`]s in
//! order; a [`AuctionEffect::Run`] chunk is run at once and its outcome handed straight back to
//! [`AuctionProbe::resume`], in the same frame.
use crate::probe_clock::{is_decimal_of, waited, waited_exec, within, within_exec, Outcome};
use crate::text::decimal;
use vstd::prelude::*;

verus! {

/// Auctioneer Fitch's creature template entry — reported, not required (the flag is the identity).
pub const AUCTIONEER_ENTRY: u32 = 8719;
/// `UNIT_NPC_FLAG_AUCTIONEER` (bit 12).
pub const NPC_FLAG_AUCTIONEER: u32 = 0x1000;
/// The fixture listed in step (5): Linen Cloth.
pub const ITEM_ENTRY: u32 = 2589;
pub const ITEM_COUNT: u32 = 5;
/// The listing length in minutes: the one duration where the client's deposit arithmetic and the
/// server's agree exactly.
pub const DURATION_MINUTES: u32 = 120;
/// `AUCTION_STARTED`, `AUCTION_REMOVED`, `AUCTION_BID_PLACED` — the command-result actions.
pub const ACTION_STARTED: u32 = 0;
pub const ACTION_REMOVED: u32 = 1;
pub const ACTION_BID_PLACED: u32 = 2;
/// The command-result error codes the trace names.
pub const ERR_OK: u32 = 0;
pub const ERR_INVENTORY: u32 = 1;
pub const ERR_DATABASE: u32 = 2;
pub const ERR_NOT_ENOUGH_MONEY: u32 = 3;
pub const ERR_ITEM_NOT_FOUND: u32 = 4;
pub const ERR_HIGHER_BID: u32 = 5;
pub const ERR_BID_INCREMENT: u32 = 7;
pub const ERR_BID_OWN: u32 = 10;
pub const ERR_RESTRICTED_ACCOUNT: u32 = 13;

/// Milliseconds of settling after the `.go` before the world is scanned.
pub const SETTLE_MS: u64 = 3000;
pub const SCAN_TIMEOUT_MS: u64 = 15000;
pub const HELLO_TIMEOUT_MS: u64 = 10000;
pub const LIST_TIMEOUT_MS: u64 = 15000;
pub const ACTION_TIMEOUT_MS: u64 = 10000;
pub const ITEM_TIMEOUT_MS: u64 = 10000;
/// How long the refusal is watched before it is believed: the throttle drops the query with no
/// event at all.
pub const REFUSAL_WATCH_MS: u64 = 2000;
/// The client throttle is 5 s; the recovery gets a generous but bounded window.
pub const RECOVER_TIMEOUT_MS: u64 = 12000;
/// The owner list is re-asked on this cadence (the server drops a second in-flight list request
/// silently).
pub const OWNER_REASK_MS: u64 = 3000;
pub const OWNER_TIMEOUT_MS: u64 = 20000;
/// How long a UI event is given to trail the state change it answers.
pub const EVENT_GRACE_MS: u64 = 1500;
/// How long the sell slot is given to empty itself after the listing is away.
pub const SELL_SLOT_GRACE_MS: u64 = 3000;

/// Whether a unit's npc flags carry the auctioneer bit.
pub fn is_auctioneer(npc_flags: u32) -> (r: bool)
    ensures
        r == (npc_flags & NPC_FLAG_AUCTIONEER != 0),
{
    npc_flags & NPC_FLAG_AUCTIONEER != 0
}

/// A command-result action, decoded for the trace.
pub fn action_name(action: u32) -> (r: &'static str)
    ensures
        action == ACTION_STARTED ==> r@ == "STARTED"@,
        action == ACTION_REMOVED ==> r@ == "REMOVED"@,
        action == ACTION_BID_PLACED ==> r@ == "BID_PLACED"@,
        action > ACTION_BID_PLACED ==> r@ == "UNKNOWN"@,
{
    if action == ACTION_STARTED {
        "STARTED"
    } else if action == ACTION_REMOVED {
        "REMOVED"
    } else if action == ACTION_BID_PLACED {
        "BID_PLACED"
    } else {
        "UNKNOWN"
    }
}

/// A command-result error, decoded for the trace.
pub fn error_name(error: u32) -> (r: &'static str)
    ensures
        error == ERR_OK ==> r@ == "OK"@,
        error == ERR_INVENTORY ==> r@ == "INVENTORY"@,
        error == ERR_DATABASE ==> r@ == "DATABASE"@,
        error == ERR_NOT_ENOUGH_MONEY ==> r@ == "NOT_ENOUGH_MONEY"@,
        error == ERR_ITEM_NOT_FOUND ==> r@ == "ITEM_NOT_FOUND"@,
        error == ERR_HIGHER_BID ==> r@ == "HIGHER_BID"@,
        error == ERR_BID_INCREMENT ==> r@ == "BID_INCREMENT"@,
        error == ERR_BID_OWN ==> r@ == "BID_OWN"@,
        error == ERR_RESTRICTED_ACCOUNT ==> r@ == "RESTRICTED_ACCOUNT"@,
        !(error <= 5 || error == 7 || error == 10 || error == 13) ==> r@ == "unnamed"@,
{
    if error == ERR_OK {
        "OK"
    } else if error == ERR_INVENTORY {
        "INVENTORY"
    } else if error == ERR_DATABASE {
        "DATABASE"
    } else if error == ERR_NOT_ENOUGH_MONEY {
        "NOT_ENOUGH_MONEY"
    } else if error == ERR_ITEM_NOT_FOUND {
        "ITEM_NOT_FOUND"
    } else if error == ERR_HIGHER_BID {
        "HIGHER_BID"
    } else if error == ERR_BID_INCREMENT {
        "BID_INCREMENT"
    } else if error == ERR_BID_OWN {
        "BID_OWN"
    } else if error == ERR_RESTRICTED_ACCOUNT {
        "RESTRICTED_ACCOUNT"
    } else {
        "unnamed"
    }
}

/// One row of the app-side `"owner"` page, in the order the window shows it.
#[derive(Clone, Copy, Debug, PartialEq, Eq, Structural)]
pub struct OwnerEntry {
    pub auction_id: u32,
    pub item_entry: u32,
    pub start_bid: u32,
    pub buyout: u32,
}

/// The index of the first row carrying `auction_id`.
pub open spec fn row_of(entries: Seq<OwnerEntry>, auction_id: u32) -> Option<int>
    decreases entries.len(),
{
    if entries.len() == 0 {
        None
    } else if entries[0].auction_id == auction_id {
        Some(0)
    } else {
        match row_of(entries.drop_first(), auction_id) {
            Some(i) => Some(i + 1),
            None => None,
        }
    }
}

/// The 1-based display index of `auction_id` on the owner page.
pub open spec fn owner_index(entries: Seq<OwnerEntry>, auction_id: u32) -> Option<u32> {
    match row_of(entries, auction_id) {
        Some(i) => Some((i + 1) as u32),
        None => None,
    }
}

pub proof fn lemma_row_of_bound(entries: Seq<OwnerEntry>, auction_id: u32)
    ensures
        row_of(entries, auction_id) matches Some(i) ==> 0 <= i < entries.len()
            && entries[i].auction_id == auction_id,
    decreases entries.len(),
{
    if entries.len() > 0 && entries[0].auction_id != auction_id {
        lemma_row_of_bound(entries.drop_first(), auction_id);
    }
}

/// The 1-based **display** index our auction currently sits at in the owner list, or `None` if it
/// is not on the page — read off the app-side page rather than by predicate, because
/// `CancelAuction(index)` is mapped back through the same view.
pub fn owner_index_of(entries: &Vec<OwnerEntry>, auction_id: u32) -> (r: Option<u32>)
    requires
        entries@.len() < u32::MAX,
    ensures
        r == owner_index(entries@, auction_id),
        r matches Some(k) ==> 1 <= k <= entries@.len() && entries@[k - 1].auction_id
            == auction_id,
{
    proof {
        lemma_row_of_bound(entries@, auction_id);
        assert(entries@.skip(0) =~= entries@);
    }
    let mut i = 0usize;
    while i < entries.len()
        invariant
            i <= entries@.len() < u32::MAX,
            row_of(entries@, auction_id) == match row_of(entries@.skip(i as int), auction_id) {
                Some(j) => Some(j + i),
                None => None,
            },
        decreases entries@.len() - i,
    {
        let ghost rest = entries@.skip(i as int);
        proof {
            assert(rest.drop_first() =~= entries@.skip(i + 1));
            assert(rest[0] == entries@[i as int]);
        }
        if entries[i].auction_id == auction_id {
            return Some(i as u32 + 1);
        }
        i += 1;
    }
    None
}

/// The probe's phases. Times are probe-clock milliseconds.
#[derive(Clone, Copy, Debug, PartialEq, Eq, Structural)]
pub enum Phase {
    Wait,
    /// `.go` issued; settling before the world streams the auctioneer in (step 1).
    Settling { sent_at: u64 },
    /// Hello sent; waiting for the **reply** to open the session (step 2).
    Greet { sent_at: u64, show_baseline: i64 },
    /// The browse query; waiting for the list result to land (step 3).
    Browse { since: u64, sent: bool, results_baseline: u32, event_baseline: i64 },
    /// The list result is in; waiting for the window's own list event (step 3b).
    BrowseEvent { since: u64, event_baseline: i64 },
    /// The second query, which the client throttle must refuse outright (step 4a).
    Refuse { since: u64, sent: bool, sent_baseline: u32, results_baseline: u32 },
    /// Waiting for the throttle to clear, then proving it with a third query that goes out (4b).
    Recover { since: u64, sent: bool, sent_baseline: u32 },
    /// Finding (or `.additem`-ing) the fixture in the bags (step 5 prep).
    EnsureItem { since: u64, sent: bool },
    /// Dropped in the sell slot; waiting for the slot to read back a priced item.
    Attach { since: u64 },
    /// `StartAuction` away; waiting for the command result (step 5).
    Sell { since: u64 },
    /// The money and sell-slot assertions, each latched (steps 5b, 5c).
    SellMoney { since: u64, money_done: bool, slot_done: bool },
    /// Waiting for our own auction id on the owner page (step 6).
    OwnerList { since: u64, last_ask: u64, event_baseline: i64 },
    /// Our row is on the owner page; waiting for the owned-list event (step 6b).
    OwnerEvent { since: u64, event_baseline: i64 },
    /// `CancelAuction`; waiting for `REMOVED` and for the row to leave the list (step 7).
    Cancel { since: u64, sent: bool, removed: bool, last_ask: u64 },
    Done,
}

/// The step a verdict is about.
#[derive(Clone, Copy, Debug, PartialEq, Eq, Structural)]
pub enum AuctionCheck {
    /// (0) installing the event hook.
    Setup,
    /// (1) an auctioneer streamed in within interaction distance.
    Reach,
    /// (2) the hello reply opened the session.
    Greet,
    /// (3) the browse result landed.
    Browse,
    /// (3b) the window's list event fired.
    ListEvent,
    /// (4a) the throttle refused the second query.
    Throttle,
    /// (4b) the throttle cleared and a third query went out.
    ThrottleRecovers,
    /// (5) the listing was started.
    Sell,
    /// (5b) the purse fell by exactly the quoted deposit.
    Deposit,
    /// (5c) the sell slot emptied.
    SellSlot,
    /// (6) our auction is on the owner page with the right numbers.
    Owner,
    /// (6c) the owner row's coins collapse only the leading zero denominations.
    OwnerMoney,
    /// (6d) the STARTED verdict was said in chat, and nothing was said in red.
    OwnerChat,
    /// (6b) the owned-list event fired.
    OwnedEvent,
    /// (7) the cancel was accepted.
    Cancel,
    /// (7b) the row left the owner page.
    CancelList,
}

/// A Lua chunk whose outcome decides where the probe goes next.
#[derive(Clone, Copy, Debug, PartialEq, Eq, Structural)]
pub enum LuaRun {
    /// The observation hook: one hidden frame counting every auction event, logging
    /// `UI_ERROR_MESSAGE` and `CHAT_MSG_SYSTEM` texts.
    InstallHook,
    /// `QueryAuctionItems` with every filter at its default, page 0.
    Query,
    /// `PickupContainerItem(bag, slot) ClickAuctionSellItemButton()`.
    AttachItem { bag: i64, slot: i64 },
    /// `StartAuction(min_bid, buyout, DURATION_MINUTES)`.
    StartAuction { min_bid: i64, buyout: i64 },
    /// `CancelAuction(index)` on the owner page.
    CancelRow { index: u32 },
}

/// What the frame loop does or reports, in order.
#[derive(Clone, Copy, Debug, PartialEq, Eq, Structural)]
pub enum AuctionEffect {
    /// A `PASS`/`FAIL`/`SKIP` line for a step.
    Verdict(AuctionCheck, Outcome),
    /// Say `.go xyz` to the auctioneer's spawn.
    GoToAuctioneer,
    /// Say `.additem ITEM_ENTRY ITEM_COUNT`.
    AddItem,
    /// Send the auction hello to this auctioneer.
    Hello(u64),
    /// Run a chunk and hand its outcome to [`AuctionProbe::resume`].
    Run(LuaRun),
    /// `GetOwnerAuctionItems()`; a failure only warns.
    AskOwnerList,
    /// `DONE pass=<n> fail=<m>`, then exit.
    Finished { passes: u32, fails: u32 },
}

/// The auctioneer the scan settled on: the nearest auctioneer-flagged unit inside the scan range.
#[derive(Clone, Copy, Debug)]
pub struct Sighting {
    pub guid: u64,
    pub entry: u32,
    pub npc_flags: u32,
    /// Inside the server's interaction distance.
    pub in_reach: bool,
}

/// What the frame loop read this frame. Lua reads default the way the trace reads them when the
/// eval fails (an event count of 0, an empty sell slot).
pub struct AuctionObs {
    /// The purse.
    pub money: u32,
    /// The nearest auctioneer in scan range, if any.
    pub nearest: Option<Sighting>,
    /// The open session's auctioneer (set by the hello *reply*) and its house id.
    pub session_auctioneer: Option<u64>,
    pub house_id: u32,
    /// Wire counters: list results landed on the `"list"` page, browse queries actually sent.
    pub list_results: u32,
    pub browse_sent: u32,
    /// The last `SMSG_AUCTION_COMMAND_RESULT`: `(auction id, action, error)`.
    pub last_command: Option<(u32, u32, u32)>,
    /// The app-side `"owner"` page.
    pub owner_entries: Vec<OwnerEntry>,
    /// Event tallies: `AUCTION_HOUSE_SHOW`, `AUCTION_ITEM_LIST_UPDATE`, `AUCTION_OWNED_LIST_UPDATE`.
    pub show_events: i64,
    pub list_events: i64,
    pub owned_events: i64,
    /// `CanSendAuctionQuery()`, `None` when the eval failed.
    pub can_query: Option<bool>,
    /// The bag scan: `bag * 100 + slot` of the fixture, `-1` when absent.
    pub bag_item: i64,
    /// `GetAuctionSellItemInfo()`: whether the slot names an item, and the stack's vendor value.
    pub sell_named: bool,
    pub sell_price: i64,
    /// `CalculateAuctionDeposit(DURATION_MINUTES)`, `-1` when the eval failed.
    pub quoted_deposit: i64,
    /// `GetAuctionSellItemInfo() ~= nil`.
    pub sell_slot_occupied: bool,
    /// `GetAuctionItemInfo("owner", index)`'s minimum bid and buyout for our row (0 when absent).
    pub owner_row_min_bid: i64,
    pub owner_row_buyout: i64,
    /// The owner row's money frame: `(gold shown, gold text, silver shown, silver text, copper
    /// shown, copper text)`, `None` when it did not read back.
    pub owner_coins: Option<(bool, String, bool, String, bool, String)>,
    /// Whether `ERR_AUCTION_STARTED` was said in chat (`1`, `0`, `-1` when the global is empty),
    /// and how many red lines were raised.
    pub chat_said: i64,
    pub chat_reds: i64,
}

/// The probe's state and the identities it discovers along the way.
#[derive(Clone, Copy, Debug)]
pub struct AuctionProbe {
    pub phase: Phase,
    /// The Lua chunk just handed out, whose outcome is owed to [`AuctionProbe::resume`].
    pub pending: Option<LuaRun>,
    pub auctioneer: Option<u64>,
    /// **The** handle: the auction id the server's own `STARTED` result carried.
    pub auction_id: Option<u32>,
    pub stack_value: i64,
    pub deposit: i64,
    pub min_bid: i64,
    pub buyout: i64,
    /// The purse immediately before `StartAuction` went in.
    pub baseline_money: u32,
    /// The owned-list event count immediately before `StartAuction` went in.
    pub owned_event_baseline: i64,
    pub passes: u32,
    pub fails: u32,
    /// `Done` has fired its exit.
    pub exited: bool,
}

/// Step (5)'s entry — the next phase every step-4 exit, pass or fail, funnels into.
pub open spec fn ensure_item(now: u64) -> Phase {
    Phase::EnsureItem { since: now, sent: false }
}

/// Step (7)'s entry: a listing we created is cancelled even when the assertion about it failed.
pub open spec fn cancel_at(now: u64) -> Phase {
    Phase::Cancel { since: now, sent: false, removed: false, last_ask: 0 }
}

/// `p` with one more pass.
pub open spec fn passed(p: AuctionProbe) -> AuctionProbe {
    AuctionProbe { passes: (p.passes + 1) as u32, ..p }
}

/// `p` with one more fail.
pub open spec fn failed(p: AuctionProbe) -> AuctionProbe {
    AuctionProbe { fails: (p.fails + 1) as u32, ..p }
}

/// `p` in `phase`.
pub open spec fn goto(p: AuctionProbe, phase: Phase) -> AuctionProbe {
    AuctionProbe { phase, ..p }
}

/// The verdict effect for `check`, and the count it bumps.
pub open spec fn judged(p: AuctionProbe, check: AuctionCheck, ok: bool) -> (
    AuctionProbe,
    Seq<AuctionEffect>,
) {
    if ok {
        (passed(p), seq![AuctionEffect::Verdict(check, Outcome::Pass)])
    } else {
        (failed(p), seq![AuctionEffect::Verdict(check, Outcome::Fail)])
    }
}

/// The coins a copper amount paints: `(gold, silver, copper)`.
pub open spec fn coins(copper: i64) -> (i64, i64, i64) {
    ((copper / 10000) as i64, ((copper % 10000) / 100) as i64, (copper % 100) as i64)
}

/// (6c) The law of the auction money frame: only the **leading** zero denominations collapse, so
/// a 1-silver bid reads `1s 0c`, not a lone silver coin.
pub open spec fn owner_coins_ok(
    min_bid: i64,
    read: Option<(bool, String, bool, String, bool, String)>,
) -> bool {
    let (g, s, c) = coins(min_bid);
    let want_gold = g > 0;
    let want_silver = want_gold || s > 0;
    match read {
        None => false,
        Some((gold_on, gold_text, silver_on, silver_text, copper_on, copper_text)) => {
            &&& gold_on == want_gold
            &&& silver_on == want_silver
            &&& copper_on
            &&& (!want_gold || gold_text@ == decimal(g as nat))
            &&& (!want_silver || silver_text@ == decimal(s as nat))
            &&& copper_text@ == decimal(c as nat)
        },
    }
}

/// The sell pane's own suggested opening price: half again the stack's vendor value, floored at
/// one silver.
pub open spec fn opening_bid(price: i64) -> i64 {
    if price * 3 / 2 >= 100 {
        (price * 3 / 2) as i64
    } else {
        100
    }
}

/// One frame of the probe (no Lua outcome owed).
pub open spec fn next(p: AuctionProbe, now: u64, obs: &AuctionObs) -> (
    AuctionProbe,
    Seq<AuctionEffect>,
) {
    match p.phase {
        Phase::Wait => (
            AuctionProbe { pending: Some(LuaRun::InstallHook), ..p },
            seq![AuctionEffect::Run(LuaRun::InstallHook)],
        ),
        Phase::Settling { sent_at } => if within(now, sent_at, SETTLE_MS) {
            (p, Seq::empty())
        } else if obs.nearest matches Some(n) && n.in_reach {
            let n = obs.nearest.unwrap();
            (
                AuctionProbe {
                    passes: (p.passes + 1) as u32,
                    auctioneer: Some(n.guid),
                    phase: Phase::Greet { sent_at: now, show_baseline: obs.show_events },
                    ..p
                },
                seq![
                    AuctionEffect::Verdict(AuctionCheck::Reach, Outcome::Pass),
                    AuctionEffect::Hello(n.guid),
                ],
            )
        } else if waited(now, sent_at, SCAN_TIMEOUT_MS) {
            (
                goto(failed(p), Phase::Done),
                seq![AuctionEffect::Verdict(AuctionCheck::Reach, Outcome::Fail)],
            )
        } else {
            (p, Seq::empty())
        },
        Phase::Greet { sent_at, show_baseline } => {
            let opened = obs.session_auctioneer is Some;
            let show_fired = obs.show_events > show_baseline;
            let browse = Phase::Browse {
                since: now,
                sent: false,
                results_baseline: obs.list_results,
                event_baseline: obs.list_events,
            };
            if opened && show_fired {
                let right = obs.session_auctioneer == p.auctioneer;
                let house_ok = 1 <= obs.house_id <= 7;
                let (q, e) = judged(p, AuctionCheck::Greet, right && house_ok);
                (goto(q, browse), e)
            } else if waited(now, sent_at, HELLO_TIMEOUT_MS) {
                let (q, e) = judged(p, AuctionCheck::Greet, false);
                (goto(q, if opened { browse } else { Phase::Done }), e)
            } else {
                (p, Seq::empty())
            }
        },
        Phase::Browse { since, sent, results_baseline, event_baseline } => if !sent {
            (
                AuctionProbe { pending: Some(LuaRun::Query), ..p },
                seq![AuctionEffect::Run(LuaRun::Query)],
            )
        } else if obs.list_results > results_baseline {
            let (q, e) = judged(p, AuctionCheck::Browse, true);
            (goto(q, Phase::BrowseEvent { since: now, event_baseline }), e)
        } else if waited(now, since, LIST_TIMEOUT_MS) {
            let (q, e) = judged(p, AuctionCheck::Browse, false);
            (goto(q, ensure_item(now)), e)
        } else {
            (p, Seq::empty())
        },
        Phase::BrowseEvent { since, event_baseline } => {
            let refuse = Phase::Refuse {
                since: now,
                sent: false,
                sent_baseline: obs.browse_sent,
                results_baseline: obs.list_results,
            };
            if obs.list_events > event_baseline {
                let (q, e) = judged(p, AuctionCheck::ListEvent, true);
                (goto(q, refuse), e)
            } else if waited(now, since, EVENT_GRACE_MS) {
                let (q, e) = judged(p, AuctionCheck::ListEvent, false);
                (goto(q, refuse), e)
            } else {
                (p, Seq::empty())
            }
        },
        Phase::Refuse { since, sent, sent_baseline, results_baseline } => if !sent {
            if obs.can_query.unwrap_or(true) {
                (
                    goto(p, ensure_item(now)),
                    seq![AuctionEffect::Verdict(AuctionCheck::Throttle, Outcome::Skip)],
                )
            } else {
                (
                    AuctionProbe { pending: Some(LuaRun::Query), ..p },
                    seq![AuctionEffect::Run(LuaRun::Query)],
                )
            }
        } else if obs.browse_sent > sent_baseline {
            let (q, e) = judged(p, AuctionCheck::Throttle, false);
            (
                goto(q, Phase::Recover { since: now, sent: false, sent_baseline: obs.browse_sent }),
                e,
            )
        } else if obs.list_results > results_baseline {
            let (q, e) = judged(p, AuctionCheck::Throttle, false);
            (goto(q, Phase::Recover { since: now, sent: false, sent_baseline }), e)
        } else if waited(now, since, REFUSAL_WATCH_MS) {
            let (q, e) = judged(p, AuctionCheck::Throttle, true);
            (goto(q, Phase::Recover { since: now, sent: false, sent_baseline }), e)
        } else {
            (p, Seq::empty())
        },
        Phase::Recover { since, sent, sent_baseline } => if !sent {
            if obs.can_query.unwrap_or(false) {
                (
                    AuctionProbe { pending: Some(LuaRun::Query), ..p },
                    seq![AuctionEffect::Run(LuaRun::Query)],
                )
            } else if waited(now, since, RECOVER_TIMEOUT_MS) {
                let (q, e) = judged(p, AuctionCheck::ThrottleRecovers, false);
                (goto(q, ensure_item(now)), e)
            } else {
                (p, Seq::empty())
            }
        } else if obs.browse_sent > sent_baseline {
            let (q, e) = judged(p, AuctionCheck::ThrottleRecovers, true);
            (goto(q, ensure_item(now)), e)
        } else if waited(now, since, ACTION_TIMEOUT_MS) {
            let (q, e) = judged(p, AuctionCheck::ThrottleRecovers, false);
            (goto(q, ensure_item(now)), e)
        } else {
            (p, Seq::empty())
        },
        Phase::EnsureItem { since, sent } => if obs.bag_item >= 0 {
            let run = LuaRun::AttachItem {
                bag: (obs.bag_item / 100) as i64,
                slot: (obs.bag_item % 100) as i64,
            };
            (AuctionProbe { pending: Some(run), ..p }, seq![AuctionEffect::Run(run)])
        } else if !sent {
            (goto(p, Phase::EnsureItem { since: now, sent: true }), seq![AuctionEffect::AddItem])
        } else if waited(now, since, ITEM_TIMEOUT_MS) {
            let (q, e) = judged(p, AuctionCheck::Sell, false);
            (goto(q, Phase::Done), e)
        } else {
            (p, Seq::empty())
        },
        Phase::Attach { since } => if obs.sell_named && obs.sell_price > 0 {
            let min_bid = opening_bid(obs.sell_price);
            let run = LuaRun::StartAuction { min_bid, buyout: (min_bid * 2) as i64 };
            (
                AuctionProbe {
                    pending: Some(run),
                    stack_value: obs.sell_price,
                    deposit: obs.quoted_deposit,
                    min_bid,
                    buyout: (min_bid * 2) as i64,
                    baseline_money: obs.money,
                    owned_event_baseline: obs.owned_events,
                    ..p
                },
                seq![AuctionEffect::Run(run)],
            )
        } else if waited(now, since, ACTION_TIMEOUT_MS) {
            let (q, e) = judged(p, AuctionCheck::Sell, false);
            (goto(q, Phase::Done), e)
        } else {
            (p, Seq::empty())
        },
        Phase::Sell { since } => match obs.last_command {
            Some((id, action, error)) => if action == ACTION_STARTED && error == ERR_OK {
                let (q, e) = judged(p, AuctionCheck::Sell, true);
                (
                    AuctionProbe {
                        auction_id: Some(id),
                        phase: Phase::SellMoney { since: now, money_done: false, slot_done: false },
                        ..q
                    },
                    e,
                )
            } else {
                let (q, e) = judged(p, AuctionCheck::Sell, false);
                (goto(q, Phase::Done), e)
            },
            None => if waited(now, since, ACTION_TIMEOUT_MS) {
                let (q, e) = judged(p, AuctionCheck::Sell, false);
                (goto(q, Phase::Done), e)
            } else {
                (p, Seq::empty())
            },
        },
        Phase::SellMoney { since, money_done, slot_done } => {
            let spent = p.baseline_money as int - obs.money as int;
            let (q1, e1, md) = if money_done {
                (p, Seq::<AuctionEffect>::empty(), true)
            } else if spent == p.deposit && p.deposit > 0 {
                (passed(p), seq![AuctionEffect::Verdict(AuctionCheck::Deposit, Outcome::Pass)], true)
            } else if waited(now, since, ACTION_TIMEOUT_MS) {
                if p.deposit == 0 {
                    (p, seq![AuctionEffect::Verdict(AuctionCheck::Deposit, Outcome::Skip)], true)
                } else {
                    (
                        failed(p),
                        seq![AuctionEffect::Verdict(AuctionCheck::Deposit, Outcome::Fail)],
                        true,
                    )
                }
            } else {
                (p, Seq::<AuctionEffect>::empty(), false)
            };
            let (q2, e2, sd) = if slot_done {
                (q1, Seq::<AuctionEffect>::empty(), true)
            } else if !obs.sell_slot_occupied {
                (
                    passed(q1),
                    seq![AuctionEffect::Verdict(AuctionCheck::SellSlot, Outcome::Pass)],
                    true,
                )
            } else if waited(now, since, SELL_SLOT_GRACE_MS) {
                (
                    failed(q1),
                    seq![AuctionEffect::Verdict(AuctionCheck::SellSlot, Outcome::Fail)],
                    true,
                )
            } else {
                (q1, Seq::<AuctionEffect>::empty(), false)
            };
            (
                goto(
                    q2,
                    if md && sd {
                        Phase::OwnerList {
                            since: now,
                            last_ask: 0,
                            event_baseline: p.owned_event_baseline,
                        }
                    } else {
                        Phase::SellMoney { since, money_done: md, slot_done: sd }
                    },
                ),
                e1 + e2,
            )
        },
        Phase::OwnerList { since, last_ask, event_baseline } => match p.auction_id {
            None => (goto(p, Phase::Done), Seq::empty()),
            Some(id) => match owner_index(obs.owner_entries@, id) {
                Some(index) => {
                    let entry = obs.owner_entries@[index - 1];
                    let lua_ready = obs.owner_row_min_bid == p.min_bid && obs.owner_row_buyout
                        == p.buyout;
                    if !lua_ready {
                        if waited(now, since, OWNER_TIMEOUT_MS) {
                            let (q, e) = judged(p, AuctionCheck::Owner, false);
                            (goto(q, cancel_at(now)), e)
                        } else {
                            (p, Seq::empty())
                        }
                    } else {
                        let right = entry.item_entry == ITEM_ENTRY && entry.start_bid == p.min_bid
                            && entry.buyout == p.buyout;
                        let (q1, e1) = judged(p, AuctionCheck::Owner, right);
                        let (q2, e2) = judged(
                            q1,
                            AuctionCheck::OwnerMoney,
                            owner_coins_ok(p.min_bid, obs.owner_coins),
                        );
                        let (q3, e3) = judged(
                            q2,
                            AuctionCheck::OwnerChat,
                            obs.chat_said == 1 && obs.chat_reds == 0,
                        );
                        (goto(q3, Phase::OwnerEvent { since: now, event_baseline }), e1 + e2 + e3)
                    }
                },
                None => if waited(now, since, OWNER_TIMEOUT_MS) {
                    let (q, e) = judged(p, AuctionCheck::Owner, false);
                    (goto(q, cancel_at(now)), e)
                } else if last_ask == 0 || waited(now, last_ask, OWNER_REASK_MS) {
                    (
                        goto(p, Phase::OwnerList { since, last_ask: now, event_baseline }),
                        seq![AuctionEffect::AskOwnerList],
                    )
                } else {
                    (p, Seq::empty())
                },
            },
        },
        Phase::OwnerEvent { since, event_baseline } => if obs.owned_events > event_baseline {
            let (q, e) = judged(p, AuctionCheck::OwnedEvent, true);
            (goto(q, cancel_at(now)), e)
        } else if waited(now, since, EVENT_GRACE_MS) {
            let (q, e) = judged(p, AuctionCheck::OwnedEvent, false);
            (goto(q, cancel_at(now)), e)
        } else {
            (p, Seq::empty())
        },
        Phase::Cancel { since, sent, removed, last_ask } => match p.auction_id {
            None => (goto(p, Phase::Done), Seq::empty()),
            Some(id) => if !sent {
                match owner_index(obs.owner_entries@, id) {
                    None => if waited(now, since, ACTION_TIMEOUT_MS) {
                        let (q, e) = judged(p, AuctionCheck::Cancel, false);
                        (goto(q, Phase::Done), e)
                    } else {
                        (p, Seq::empty())
                    },
                    Some(index) => (
                        AuctionProbe { pending: Some(LuaRun::CancelRow { index }), ..p },
                        seq![AuctionEffect::Run(LuaRun::CancelRow { index })],
                    ),
                }
            } else {
                cancel_sent(p, now, obs, id, since, removed, last_ask)
            },
        },
        Phase::Done => if p.exited {
            (p, Seq::empty())
        } else {
            (
                AuctionProbe { exited: true, ..p },
                seq![AuctionEffect::Finished { passes: p.passes, fails: p.fails }],
            )
        },
    }
}

/// Step (7) after the cancel went out: the `REMOVED` verdict (latched), then the row must leave
/// the page the window is showing, re-asking on the cadence.
pub open spec fn cancel_sent(
    p: AuctionProbe,
    now: u64,
    obs: &AuctionObs,
    id: u32,
    since: u64,
    removed: bool,
    last_ask: u64,
) -> (AuctionProbe, Seq<AuctionEffect>) {
    let removed_now = !removed && (obs.last_command matches Some((_, action, error)) && action
        == ACTION_REMOVED && error == ERR_OK);
    if !removed && (obs.last_command matches Some((_, action, error)) && action == ACTION_REMOVED
        && error != ERR_OK) {
        let (q, e) = judged(p, AuctionCheck::Cancel, false);
        (goto(q, Phase::Done), e)
    } else if !removed && !(obs.last_command matches Some((_, action, _)) && action
        == ACTION_REMOVED) {
        if waited(now, since, ACTION_TIMEOUT_MS) {
            let (q, e) = judged(p, AuctionCheck::Cancel, false);
            (goto(q, Phase::Done), e)
        } else {
            (p, Seq::empty())
        }
    } else {
        let (q, e) = if removed_now {
            judged(p, AuctionCheck::Cancel, true)
        } else {
            (p, Seq::<AuctionEffect>::empty())
        };
        if owner_index(obs.owner_entries@, id) is None {
            let (r, f) = judged(q, AuctionCheck::CancelList, true);
            (goto(r, Phase::Done), e + f)
        } else if waited(now, since, OWNER_TIMEOUT_MS) {
            let (r, f) = judged(q, AuctionCheck::CancelList, false);
            (goto(r, Phase::Done), e + f)
        } else {
            let ask = last_ask == 0 || waited(now, last_ask, OWNER_REASK_MS);
            (
                goto(
                    q,
                    Phase::Cancel {
                        since,
                        sent: true,
                        removed: true,
                        last_ask: if ask {
                            now
                        } else {
                            last_ask
                        },
                    },
                ),
                e + if ask {
                    seq![AuctionEffect::AskOwnerList]
                } else {
                    Seq::empty()
                },
            )
        }
    }
}

/// Where the outcome of the chunk handed out takes the probe.
pub open spec fn after_run(p: AuctionProbe, now: u64, ok: bool) -> (
    AuctionProbe,
    Seq<AuctionEffect>,
) {
    let q = AuctionProbe { pending: None, ..p };
    match p.pending {
        Some(LuaRun::InstallHook) => if ok {
            (goto(q, Phase::Settling { sent_at: now }), seq![AuctionEffect::GoToAuctioneer])
        } else {
            let (r, e) = judged(q, AuctionCheck::Setup, false);
            (goto(r, Phase::Done), e)
        },
        Some(LuaRun::Query) => match p.phase {
            Phase::Browse { results_baseline, event_baseline, .. } => if ok {
                (
                    goto(
                        q,
                        Phase::Browse { since: now, sent: true, results_baseline, event_baseline },
                    ),
                    Seq::empty(),
                )
            } else {
                let (r, e) = judged(q, AuctionCheck::Browse, false);
                (goto(r, Phase::Done), e)
            },
            Phase::Refuse { sent_baseline, results_baseline, .. } => if ok {
                (
                    goto(
                        q,
                        Phase::Refuse { since: now, sent: true, sent_baseline, results_baseline },
                    ),
                    Seq::empty(),
                )
            } else {
                let (r, e) = judged(q, AuctionCheck::Throttle, false);
                (goto(r, ensure_item(now)), e)
            },
            Phase::Recover { sent_baseline, .. } => if ok {
                (
                    goto(q, Phase::Recover { since: now, sent: true, sent_baseline }),
                    Seq::empty(),
                )
            } else {
                let (r, e) = judged(q, AuctionCheck::ThrottleRecovers, false);
                (goto(r, ensure_item(now)), e)
            },
            _ => (q, Seq::empty()),
        },
        Some(LuaRun::AttachItem { .. }) => if ok {
            (goto(q, Phase::Attach { since: now }), Seq::empty())
        } else {
            let (r, e) = judged(q, AuctionCheck::Sell, false);
            (goto(r, Phase::Done), e)
        },
        Some(LuaRun::StartAuction { .. }) => if ok {
            (goto(q, Phase::Sell { since: now }), Seq::empty())
        } else {
            let (r, e) = judged(q, AuctionCheck::Sell, false);
            (goto(r, Phase::Done), e)
        },
        Some(LuaRun::CancelRow { .. }) => if ok {
            (
                goto(q, Phase::Cancel { since: now, sent: true, removed: false, last_ask: 0 }),
                Seq::empty(),
            )
        } else {
            let (r, e) = judged(q, AuctionCheck::Cancel, false);
            (goto(r, Phase::Done), e)
        },
        None => (q, Seq::empty()),
    }
}

/// A well-formed probe: the listing prices are what step (5) derives from a vendor value.
pub open spec fn prices_ok(p: AuctionProbe) -> bool {
    0 <= p.min_bid <= i64::MAX / 2
}

/// The counters can take one frame's verdicts, and a Lua outcome is not owed.
pub open spec fn ready(p: AuctionProbe) -> bool {
    &&& p.pending is None
    &&& p.passes <= u32::MAX - 3
    &&& p.fails <= u32::MAX - 3
    &&& prices_ok(p)
}

/// What the observation must satisfy for the frame's arithmetic: the page's indices fit, and the
/// vendor value leaves room for the opening bid and its buyout.
pub open spec fn obs_ok(obs: &AuctionObs) -> bool {
    &&& obs.owner_entries@.len() < u32::MAX
    &&& obs.sell_price <= i64::MAX / 3
}

fn coins_match(min_bid: i64, read: &Option<(bool, String, bool, String, bool, String)>) -> (r: bool)
    requires
        min_bid >= 0,
    ensures
        r == owner_coins_ok(min_bid, *read),
{
    let g = min_bid / 10000;
    let s = (min_bid % 10000) / 100;
    let c = min_bid % 100;
    let want_gold = g > 0;
    let want_silver = want_gold || s > 0;
    match read {
        None => false,
        Some((gold_on, gold_text, silver_on, silver_text, copper_on, copper_text)) => {
            *gold_on == want_gold && *silver_on == want_silver && *copper_on && (!want_gold
                || is_decimal_of(gold_text.as_str(), g as u64)) && (!want_silver || is_decimal_of(
                silver_text.as_str(),
                s as u64,
            )) && is_decimal_of(copper_text.as_str(), c as u64)
        },
    }
}

impl AuctionProbe {
    /// A fresh probe, waiting to start.
    pub fn new() -> (p: AuctionProbe)
        ensures
            p.phase == Phase::Wait,
            p.pending is None,
            p.auctioneer is None,
            p.auction_id is None,
            p.passes == 0,
            p.fails == 0,
            !p.exited,
            p.stack_value == 0 && p.deposit == 0 && p.min_bid == 0 && p.buyout == 0,
            p.baseline_money == 0 && p.owned_event_baseline == 0,
            prices_ok(p),
    {
        AuctionProbe {
            phase: Phase::Wait,
            pending: None,
            auctioneer: None,
            auction_id: None,
            stack_value: 0,
            deposit: 0,
            min_bid: 0,
            buyout: 0,
            baseline_money: 0,
            owned_event_baseline: 0,
            passes: 0,
            fails: 0,
            exited: false,
        }
    }

    fn judge(&mut self, check: AuctionCheck, ok: bool, out: &mut Vec<AuctionEffect>)
        requires
            old(self).passes < u32::MAX,
            old(self).fails < u32::MAX,
        ensures
            *final(self) == judged(*old(self), check, ok).0,
            final(out)@ == old(out)@ + judged(*old(self), check, ok).1,
    {
        if ok {
            self.passes = self.passes + 1;
            out.push(AuctionEffect::Verdict(check, Outcome::Pass));
        } else {
            self.fails = self.fails + 1;
            out.push(AuctionEffect::Verdict(check, Outcome::Fail));
        }
        proof {
            assert(final(out)@ =~= old(out)@ + judged(*old(self), check, ok).1);
        }
    }

    /// One frame of the probe: advance the phase on what the frame loop read, and say what to do.
    pub fn step(&mut self, now: u64, obs: &AuctionObs) -> (effects: Vec<AuctionEffect>)
        requires
            ready(*old(self)),
            obs_ok(obs),
        ensures
            *final(self) == next(*old(self), now, obs).0,
            effects@ == next(*old(self), now, obs).1,
            prices_ok(*final(self)),
    {
        let mut out: Vec<AuctionEffect> = Vec::new();
        match self.phase {
            Phase::Wait | Phase::Settling { .. } | Phase::Greet { .. } => self.step_greet(now, obs, &mut out),
            Phase::Browse { .. } | Phase::BrowseEvent { .. } | Phase::Refuse { .. } | Phase::Recover { .. } => self.step_browse(now, obs, &mut out),
            Phase::EnsureItem { .. } | Phase::Attach { .. } | Phase::Sell { .. } => self.step_sell(now, obs, &mut out),
            Phase::SellMoney { .. } => self.step_money(now, obs, &mut out),
            Phase::OwnerList { .. } | Phase::OwnerEvent { .. } => self.step_owner(now, obs, &mut out),
            Phase::Cancel { .. } | Phase::Done => self.step_cancel(now, obs, &mut out),
        }
        out
    }

    fn step_greet(&mut self, now: u64, obs: &AuctionObs, out: &mut Vec<AuctionEffect>)
        requires
            ready(*old(self)),
            obs_ok(obs),
            old(out)@.len() == 0,
            old(self).phase is Wait || old(self).phase is Settling || old(self).phase is Greet,
        ensures
            *final(self) == next(*old(self), now, obs).0,
            final(out)@ == next(*old(self), now, obs).1,
    {
        let ghost start = *self;
        match self.phase {
            Phase::Wait => {
                self.pending = Some(LuaRun::InstallHook);
                out.push(AuctionEffect::Run(LuaRun::InstallHook));
            },
            Phase::Settling { sent_at } => {
                if within_exec(now, sent_at, SETTLE_MS) {
                } else if obs.nearest.is_some() && obs.nearest.unwrap().in_reach {
                    let n = obs.nearest.unwrap();
                    self.passes = self.passes + 1;
                    self.auctioneer = Some(n.guid);
                    self.phase = Phase::Greet { sent_at: now, show_baseline: obs.show_events };
                    out.push(AuctionEffect::Verdict(AuctionCheck::Reach, Outcome::Pass));
                    out.push(AuctionEffect::Hello(n.guid));
                } else if waited_exec(now, sent_at, SCAN_TIMEOUT_MS) {
                    self.fails = self.fails + 1;
                    self.phase = Phase::Done;
                    out.push(AuctionEffect::Verdict(AuctionCheck::Reach, Outcome::Fail));
                }
            },
            Phase::Greet { sent_at, show_baseline } => {
                let opened = obs.session_auctioneer.is_some();
                let show_fired = obs.show_events > show_baseline;
                let browse = Phase::Browse {
                    since: now,
                    sent: false,
                    results_baseline: obs.list_results,
                    event_baseline: obs.list_events,
                };
                if opened && show_fired {
                    let right = obs.session_auctioneer == self.auctioneer;
                    let house_ok = 1 <= obs.house_id && obs.house_id <= 7;
                    self.judge(AuctionCheck::Greet, right && house_ok, out);
                    self.phase = browse;
                } else if waited_exec(now, sent_at, HELLO_TIMEOUT_MS) {
                    self.judge(AuctionCheck::Greet, false, out);
                    self.phase = if opened {
                        browse
                    } else {
                        Phase::Done
                    };
                }
            },
            _ => {},
        }
        proof {
            assert(*self == next(start, now, obs).0);
            assert(out@ =~= next(start, now, obs).1);
        }
    }

    fn step_browse(&mut self, now: u64, obs: &AuctionObs, out: &mut Vec<AuctionEffect>)
        requires
            ready(*old(self)),
            obs_ok(obs),
            old(out)@.len() == 0,
            old(self).phase is Browse || old(self).phase is BrowseEvent || old(self).phase is Refuse || old(self).phase is Recover,
        ensures
            *final(self) == next(*old(self), now, obs).0,
            final(out)@ == next(*old(self), now, obs).1,
    {
        let ghost start = *self;
        match self.phase {
            Phase::Browse { since, sent, results_baseline, event_baseline } => {
                if !sent {
                    self.pending = Some(LuaRun::Query);
                    out.push(AuctionEffect::Run(LuaRun::Query));
                } else if obs.list_results > results_baseline {
                    self.judge(AuctionCheck::Browse, true, out);
                    self.phase = Phase::BrowseEvent { since: now, event_baseline };
                } else if waited_exec(now, since, LIST_TIMEOUT_MS) {
                    self.judge(AuctionCheck::Browse, false, out);
                    self.phase = Phase::EnsureItem { since: now, sent: false };
                }
            },
            Phase::BrowseEvent { since, event_baseline } => {
                let refuse = Phase::Refuse {
                    since: now,
                    sent: false,
                    sent_baseline: obs.browse_sent,
                    results_baseline: obs.list_results,
                };
                if obs.list_events > event_baseline {
                    self.judge(AuctionCheck::ListEvent, true, out);
                    self.phase = refuse;
                } else if waited_exec(now, since, EVENT_GRACE_MS) {
                    self.judge(AuctionCheck::ListEvent, false, out);
                    self.phase = refuse;
                }
            },
            Phase::Refuse { since, sent, sent_baseline, results_baseline } => {
                if !sent {
                    if obs.can_query.unwrap_or(true) {
                        self.phase = Phase::EnsureItem { since: now, sent: false };
                        out.push(AuctionEffect::Verdict(AuctionCheck::Throttle, Outcome::Skip));
                    } else {
                        self.pending = Some(LuaRun::Query);
                        out.push(AuctionEffect::Run(LuaRun::Query));
                    }
                } else if obs.browse_sent > sent_baseline {
                    self.judge(AuctionCheck::Throttle, false, out);
                    self.phase = Phase::Recover {
                        since: now,
                        sent: false,
                        sent_baseline: obs.browse_sent,
                    };
                } else if obs.list_results > results_baseline {
                    self.judge(AuctionCheck::Throttle, false, out);
                    self.phase = Phase::Recover { since: now, sent: false, sent_baseline };
                } else if waited_exec(now, since, REFUSAL_WATCH_MS) {
                    self.judge(AuctionCheck::Throttle, true, out);
                    self.phase = Phase::Recover { since: now, sent: false, sent_baseline };
                }
            },
            Phase::Recover { since, sent, sent_baseline } => {
                if !sent {
                    if obs.can_query.unwrap_or(false) {
                        self.pending = Some(LuaRun::Query);
                        out.push(AuctionEffect::Run(LuaRun::Query));
                    } else if waited_exec(now, since, RECOVER_TIMEOUT_MS) {
                        self.judge(AuctionCheck::ThrottleRecovers, false, out);
                        self.phase = Phase::EnsureItem { since: now, sent: false };
                    }
                } else if obs.browse_sent > sent_baseline {
                    self.judge(AuctionCheck::ThrottleRecovers, true, out);
                    self.phase = Phase::EnsureItem { since: now, sent: false };
                } else if waited_exec(now, since, ACTION_TIMEOUT_MS) {
                    self.judge(AuctionCheck::ThrottleRecovers, false, out);
                    self.phase = Phase::EnsureItem { since: now, sent: false };
                }
            },
            _ => {},
        }
        proof {
            assert(*self == next(start, now, obs).0);
            assert(out@ =~= next(start, now, obs).1);
        }
    }

    fn step_sell(&mut self, now: u64, obs: &AuctionObs, out: &mut Vec<AuctionEffect>)
        requires
            ready(*old(self)),
            obs_ok(obs),
            old(out)@.len() == 0,
            old(self).phase is EnsureItem || old(self).phase is Attach || old(self).phase is Sell,
        ensures
            *final(self) == next(*old(self), now, obs).0,
            final(out)@ == next(*old(self), now, obs).1,
    {
        let ghost start = *self;
        match self.phase {
            Phase::EnsureItem { since, sent } => {
                if obs.bag_item >= 0 {
                    let run = LuaRun::AttachItem { bag: obs.bag_item / 100, slot: obs.bag_item % 100 };
                    self.pending = Some(run);
                    out.push(AuctionEffect::Run(run));
                } else if !sent {
                    self.phase = Phase::EnsureItem { since: now, sent: true };
                    out.push(AuctionEffect::AddItem);
                } else if waited_exec(now, since, ITEM_TIMEOUT_MS) {
                    self.judge(AuctionCheck::Sell, false, out);
                    self.phase = Phase::Done;
                }
            },
            Phase::Attach { since } => {
                if obs.sell_named && obs.sell_price > 0 {
                    let half_again = obs.sell_price * 3 / 2;
                    let min_bid = if half_again >= 100 {
                        half_again
                    } else {
                        100
                    };
                    let run = LuaRun::StartAuction { min_bid, buyout: min_bid * 2 };
                    self.pending = Some(run);
                    self.stack_value = obs.sell_price;
                    self.deposit = obs.quoted_deposit;
                    self.min_bid = min_bid;
                    self.buyout = min_bid * 2;
                    self.baseline_money = obs.money;
                    self.owned_event_baseline = obs.owned_events;
                    out.push(AuctionEffect::Run(run));
                } else if waited_exec(now, since, ACTION_TIMEOUT_MS) {
                    self.judge(AuctionCheck::Sell, false, out);
                    self.phase = Phase::Done;
                }
            },
            Phase::Sell { since } => {
                match obs.last_command {
                    Some((id, action, error)) => {
                        if action == ACTION_STARTED && error == ERR_OK {
                            self.judge(AuctionCheck::Sell, true, out);
                            self.auction_id = Some(id);
                            self.phase = Phase::SellMoney {
                                since: now,
                                money_done: false,
                                slot_done: false,
                            };
                        } else {
                            self.judge(AuctionCheck::Sell, false, out);
                            self.phase = Phase::Done;
                        }
                    },
                    None => {
                        if waited_exec(now, since, ACTION_TIMEOUT_MS) {
                            self.judge(AuctionCheck::Sell, false, out);
                            self.phase = Phase::Done;
                        }
                    },
                }
            },
            _ => {},
        }
        proof {
            assert(*self == next(start, now, obs).0);
            assert(out@ =~= next(start, now, obs).1);
        }
    }

    fn step_money(&mut self, now: u64, obs: &AuctionObs, out: &mut Vec<AuctionEffect>)
        requires
            ready(*old(self)),
            obs_ok(obs),
            old(out)@.len() == 0,
            old(self).phase is SellMoney,
        ensures
            *final(self) == next(*old(self), now, obs).0,
            final(out)@ == next(*old(self), now, obs).1,
    {
        let ghost start = *self;
        match self.phase {
            Phase::SellMoney { since, money_done, slot_done } => {
                let mut md = money_done;
                let mut sd = slot_done;
                if !md {
                    let spent = self.baseline_money as i64 - obs.money as i64;
                    if spent == self.deposit && self.deposit > 0 {
                        self.passes = self.passes + 1;
                        out.push(AuctionEffect::Verdict(AuctionCheck::Deposit, Outcome::Pass));
                        md = true;
                    } else if waited_exec(now, since, ACTION_TIMEOUT_MS) {
                        if self.deposit == 0 {
                            out.push(AuctionEffect::Verdict(AuctionCheck::Deposit, Outcome::Skip));
                        } else {
                            self.fails = self.fails + 1;
                            out.push(AuctionEffect::Verdict(AuctionCheck::Deposit, Outcome::Fail));
                        }
                        md = true;
                    }
                }
                if !sd {
                    if !obs.sell_slot_occupied {
                        self.passes = self.passes + 1;
                        out.push(AuctionEffect::Verdict(AuctionCheck::SellSlot, Outcome::Pass));
                        sd = true;
                    } else if waited_exec(now, since, SELL_SLOT_GRACE_MS) {
                        self.fails = self.fails + 1;
                        out.push(AuctionEffect::Verdict(AuctionCheck::SellSlot, Outcome::Fail));
                        sd = true;
                    }
                }
                self.phase = if md && sd {
                    Phase::OwnerList {
                        since: now,
                        last_ask: 0,
                        event_baseline: self.owned_event_baseline,
                    }
                } else {
                    Phase::SellMoney { since, money_done: md, slot_done: sd }
                };
            },
            _ => {},
        }
        proof {
            assert(*self == next(start, now, obs).0);
            assert(out@ =~= next(start, now, obs).1);
        }
    }

    fn step_owner(&mut self, now: u64, obs: &AuctionObs, out: &mut Vec<AuctionEffect>)
        requires
            ready(*old(self)),
            obs_ok(obs),
            old(out)@.len() == 0,
            old(self).phase is OwnerList || old(self).phase is OwnerEvent,
        ensures
            *final(self) == next(*old(self), now, obs).0,
            final(out)@ == next(*old(self), now, obs).1,
    {
        let ghost start = *self;
        match self.phase {
            Phase::OwnerList { since, last_ask, event_baseline } => {
                match self.auction_id {
                    None => {
                        self.phase = Phase::Done;
                    },
                    Some(id) => {
                        match owner_index_of(&obs.owner_entries, id) {
                            Some(index) => {
                                let entry = obs.owner_entries[(index - 1) as usize];
                                let lua_ready = obs.owner_row_min_bid == self.min_bid
                                    && obs.owner_row_buyout == self.buyout;
                                if !lua_ready {
                                    if waited_exec(now, since, OWNER_TIMEOUT_MS) {
                                        // The listing is ours and up: it is cancelled even though
                                        // the assertion about it failed.
                                        self.judge(AuctionCheck::Owner, false, out);
                                        self.phase = Phase::Cancel {
                                            since: now,
                                            sent: false,
                                            removed: false,
                                            last_ask: 0,
                                        };
                                    }
                                } else {
                                    let right = entry.item_entry == ITEM_ENTRY && entry.start_bid
                                        as i64 == self.min_bid && entry.buyout as i64
                                        == self.buyout;
                                    self.judge(AuctionCheck::Owner, right, out);
                                    let coins_ok = coins_match(self.min_bid, &obs.owner_coins);
                                    self.judge(AuctionCheck::OwnerMoney, coins_ok, out);
                                    self.judge(
                                        AuctionCheck::OwnerChat,
                                        obs.chat_said == 1 && obs.chat_reds == 0,
                                        out,
                                    );
                                    self.phase = Phase::OwnerEvent { since: now, event_baseline };
                                }
                            },
                            None => {
                                if waited_exec(now, since, OWNER_TIMEOUT_MS) {
                                    self.judge(AuctionCheck::Owner, false, out);
                                    self.phase = Phase::Cancel {
                                        since: now,
                                        sent: false,
                                        removed: false,
                                        last_ask: 0,
                                    };
                                } else if last_ask == 0 || waited_exec(
                                    now,
                                    last_ask,
                                    OWNER_REASK_MS,
                                ) {
                                    self.phase = Phase::OwnerList {
                                        since,
                                        last_ask: now,
                                        event_baseline,
                                    };
                                    out.push(AuctionEffect::AskOwnerList);
                                }
                            },
                        }
                    },
                }
            },
            Phase::OwnerEvent { since, event_baseline } => {
                if obs.owned_events > event_baseline {
                    self.judge(AuctionCheck::OwnedEvent, true, out);
                    self.phase = Phase::Cancel { since: now, sent: false, removed: false, last_ask: 0 };
                } else if waited_exec(now, since, EVENT_GRACE_MS) {
                    self.judge(AuctionCheck::OwnedEvent, false, out);
                    self.phase = Phase::Cancel { since: now, sent: false, removed: false, last_ask: 0 };
                }
            },
            _ => {},
        }
        proof {
            assert(*self == next(start, now, obs).0);
            assert(out@ =~= next(start, now, obs).1);
        }
    }

    fn step_cancel(&mut self, now: u64, obs: &AuctionObs, out: &mut Vec<AuctionEffect>)
        requires
            ready(*old(self)),
            obs_ok(obs),
            old(out)@.len() == 0,
            old(self).phase is Cancel || old(self).phase is Done,
        ensures
            *final(self) == next(*old(self), now, obs).0,
            final(out)@ == next(*old(self), now, obs).1,
    {
        let ghost start = *self;
        match self.phase {
            Phase::Cancel { since, sent, removed, last_ask } => {
                match self.auction_id {
                    None => {
                        self.phase = Phase::Done;
                    },
                    Some(id) => {
                        if !sent {
                            match owner_index_of(&obs.owner_entries, id) {
                                None => {
                                    if waited_exec(now, since, ACTION_TIMEOUT_MS) {
                                        self.judge(AuctionCheck::Cancel, false, out);
                                        self.phase = Phase::Done;
                                    }
                                },
                                Some(index) => {
                                    self.pending = Some(LuaRun::CancelRow { index });
                                    out.push(AuctionEffect::Run(LuaRun::CancelRow { index }));
                                },
                            }
                        } else {
                            self.cancel_sent_step(now, obs, id, since, removed, last_ask, out);
                        }
                    },
                }
            },
            Phase::Done => {
                if !self.exited {
                    self.exited = true;
                    out.push(AuctionEffect::Finished { passes: self.passes, fails: self.fails });
                }
            },
            _ => {},
        }
        proof {
            assert(*self == next(start, now, obs).0);
            assert(out@ =~= next(start, now, obs).1);
        }
    }


    fn cancel_sent_step(
        &mut self,
        now: u64,
        obs: &AuctionObs,
        id: u32,
        since: u64,
        removed: bool,
        last_ask: u64,
        out: &mut Vec<AuctionEffect>,
    )
        requires
            ready(*old(self)),
            obs_ok(obs),
            old(out)@.len() == 0,
        ensures
            *final(self) == cancel_sent(*old(self), now, obs, id, since, removed, last_ask).0,
            final(out)@ == cancel_sent(*old(self), now, obs, id, since, removed, last_ask).1,
    {
        let ghost start = *self;
        let mut removed_now = false;
        if !removed {
            match obs.last_command {
                Some((_, action, error)) => {
                    if action == ACTION_REMOVED && error != ERR_OK {
                        self.judge(AuctionCheck::Cancel, false, out);
                        self.phase = Phase::Done;
                        return;
                    } else if action != ACTION_REMOVED {
                        if waited_exec(now, since, ACTION_TIMEOUT_MS) {
                            self.judge(AuctionCheck::Cancel, false, out);
                            self.phase = Phase::Done;
                        }
                        return;
                    }
                    removed_now = true;
                },
                None => {
                    if waited_exec(now, since, ACTION_TIMEOUT_MS) {
                        self.judge(AuctionCheck::Cancel, false, out);
                        self.phase = Phase::Done;
                    }
                    return;
                },
            }
        }
        if removed_now {
            self.judge(AuctionCheck::Cancel, true, out);
        }
        if owner_index_of(&obs.owner_entries, id).is_none() {
            self.judge(AuctionCheck::CancelList, true, out);
            self.phase = Phase::Done;
            return;
        }
        if waited_exec(now, since, OWNER_TIMEOUT_MS) {
            self.judge(AuctionCheck::CancelList, false, out);
            self.phase = Phase::Done;
            return;
        }
        let ask = last_ask == 0 || waited_exec(now, last_ask, OWNER_REASK_MS);
        if ask {
            out.push(AuctionEffect::AskOwnerList);
        }
        self.phase = Phase::Cancel {
            since,
            sent: true,
            removed: true,
            last_ask: if ask {
                now
            } else {
                last_ask
            },
        };
    }

    /// The outcome of the chunk [`AuctionProbe::step`] handed out: it ran (`ok`) or errored.
    pub fn resume(&mut self, now: u64, ok: bool) -> (effects: Vec<AuctionEffect>)
        requires
            old(self).passes < u32::MAX,
            old(self).fails < u32::MAX,
            prices_ok(*old(self)),
        ensures
            *final(self) == after_run(*old(self), now, ok).0,
            effects@ == after_run(*old(self), now, ok).1,
            final(self).pending is None,
            prices_ok(*final(self)),
    {
        let mut out: Vec<AuctionEffect> = Vec::new();
        let ghost start = *self;
        let pending = self.pending;
        self.pending = None;
        match pending {
            Some(LuaRun::InstallHook) => {
                if ok {
                    self.phase = Phase::Settling { sent_at: now };
                    out.push(AuctionEffect::GoToAuctioneer);
                } else {
                    self.judge(AuctionCheck::Setup, false, &mut out);
                    self.phase = Phase::Done;
                }
            },
            Some(LuaRun::Query) => {
                match self.phase {
                    Phase::Browse { results_baseline, event_baseline, .. } => {
                        if ok {
                            self.phase = Phase::Browse {
                                since: now,
                                sent: true,
                                results_baseline,
                                event_baseline,
                            };
                        } else {
                            self.judge(AuctionCheck::Browse, false, &mut out);
                            self.phase = Phase::Done;
                        }
                    },
                    Phase::Refuse { sent_baseline, results_baseline, .. } => {
                        if ok {
                            self.phase = Phase::Refuse {
                                since: now,
                                sent: true,
                                sent_baseline,
                                results_baseline,
                            };
                        } else {
                            self.judge(AuctionCheck::Throttle, false, &mut out);
                            self.phase = Phase::EnsureItem { since: now, sent: false };
                        }
                    },
                    Phase::Recover { sent_baseline, .. } => {
                        if ok {
                            self.phase = Phase::Recover { since: now, sent: true, sent_baseline };
                        } else {
                            self.judge(AuctionCheck::ThrottleRecovers, false, &mut out);
                            self.phase = Phase::EnsureItem { since: now, sent: false };
                        }
                    },
                    _ => {},
                }
            },
            Some(LuaRun::AttachItem { .. }) => {
                if ok {
                    self.phase = Phase::Attach { since: now };
                } else {
                    self.judge(AuctionCheck::Sell, false, &mut out);
                    self.phase = Phase::Done;
                }
            },
            Some(LuaRun::StartAuction { .. }) => {
                if ok {
                    self.phase = Phase::Sell { since: now };
                } else {
                    self.judge(AuctionCheck::Sell, false, &mut out);
                    self.phase = Phase::Done;
                }
            },
            Some(LuaRun::CancelRow { .. }) => {
                if ok {
                    self.phase = Phase::Cancel { since: now, sent: true, removed: false, last_ask: 0 };
                } else {
                    self.judge(AuctionCheck::Cancel, false, &mut out);
                    self.phase = Phase::Done;
                }
            },
            None => {},
        }
        proof {
            assert(*self == after_run(start, now, ok).0);
            assert(out@ =~= after_run(start, now, ok).1);
        }
        out
    }
}

} // verus!
