//! The bank-arc live probe (`WOW_PROBE_BANK=1`) — decision 0604's end-to-end instrument: GM-hop
//! to a *pure* banker (Soleil Stonemantle, Ironforge), drive the whole bank wire — activate,
//! deposit, withdraw, buy a bag slot and its out-of-range refusal — and report a
//! `PROBE_BANK: <step> PASS/FAIL/SKIP` verdict per step plus a final `DONE pass=<n> fail=<m>`.
//!
//! The steps ride the client commands and the player's descriptor directly; the Lua VM is touched
//! only to hook `UI_ERROR_MESSAGE` for the bonus refusal step, which SKIPs on a miss and never
//! FAILs. The buy-slot step funds itself once with `.modify money` when the purse is short.
//!
//! The frame loop is the caller's: each frame, in-world and with a UI VM, it reads a [`BankObs`],
//! calls [`BankProbe::step`] and performs the returned [`BankEffect`]s in order.
use crate::probe_clock::{UnitSighting, waited, waited_exec, within, within_exec, Outcome};
use crate::text::{chars_of, contains, contains_word, lowercase, to_lowercase};
use vstd::prelude::*;

verus! {

/// Soleil Stonemantle's creature template entry — the streamed-unit identity check.
pub const BANKER_ENTRY: u32 = 5099;
/// `UNIT_NPC_FLAG_BANKER` (bit 8) — the fallback identity check (either suffices).
pub const NPC_FLAG_BANKER: u32 = 0x100;
/// The deposit/withdraw fixture: Linen Cloth (cheap, stackable, no durability).
pub const ITEM_ENTRY: u32 = 2589;
/// The first backpack slot's wire index in the player's own inventory.
pub const SLOT_PACK_FIRST: u8 = 23;
/// The first bank slot's wire index: the backpack's 16 slots after [`SLOT_PACK_FIRST`].
pub const SLOT_BANK_FIRST: u8 = 39;
/// The backpack's and the bank's slot counts.
pub const PACK_SLOTS: usize = 16;
pub const BANK_SLOTS: usize = 24;
/// Slack added on top of the exact shortfall when the buy-slot step funds itself — the purse can
/// move under it between the read and the purchase.
pub const FUND_MARGIN_COPPER: u32 = 10000;
/// The purchasable-slot ceiling (`GetNumBankSlots()` reports full at 6).
pub const MAX_BANK_BAGS: u8 = 6;

pub const SETTLE_MS: u64 = 3000;
pub const SCAN_TIMEOUT_MS: u64 = 15000;
pub const ACTIVATE_TIMEOUT_MS: u64 = 10000;
pub const ITEM_TIMEOUT_MS: u64 = 10000;
pub const ACTION_TIMEOUT_MS: u64 = 8000;
/// The bonus refusal step's event wait — generous but bounded; a miss SKIPs, never FAILs.
pub const REFUSAL_GRACE_MS: u64 = 6000;

/// The client-side purchase ladder (`BankBagSlotPrices.dbc`), the fallback when the DBC prices
/// did not load: the price of the next slot when `purchased` are already bought.
pub open spec fn ladder_price(purchased: u8) -> Option<u32> {
    if purchased == 0 {
        Some(1000)
    } else if purchased == 1 {
        Some(10000)
    } else if purchased == 2 {
        Some(100000)
    } else if purchased == 3 {
        Some(250000)
    } else if purchased == 4 {
        Some(500000)
    } else if purchased == 5 {
        Some(1000000)
    } else {
        None
    }
}

/// The next rung's price: the DBC's when it loaded, else the ladder's, else 0.
pub open spec fn slot_cost(dbc_price: Option<u32>, purchased: u8) -> u32 {
    match dbc_price {
        Some(c) => c,
        None => match ladder_price(purchased) {
            Some(c) => c,
            None => 0,
        },
    }
}

/// The price of the next bank bag slot.
pub fn next_cost(dbc_price: Option<u32>, purchased: u8) -> (r: u32)
    ensures
        r == slot_cost(dbc_price, purchased),
{
    match dbc_price {
        Some(c) => c,
        None => {
            if purchased == 0 {
                1000
            } else if purchased == 1 {
                10000
            } else if purchased == 2 {
                100000
            } else if purchased == 3 {
                250000
            } else if purchased == 4 {
                500000
            } else if purchased == 5 {
                1000000
            } else {
                0
            }
        },
    }
}

/// The banker identity: her entry, or the banker flag.
pub open spec fn is_banker(u: UnitSighting) -> bool {
    u.is_unit && u.in_range && (u.entry == Some(BANKER_ENTRY) || u.npc_flags & NPC_FLAG_BANKER
        != 0)
}

/// The index of the first banker among the sightings.
pub open spec fn banker_index(units: Seq<UnitSighting>) -> Option<int>
    decreases units.len(),
{
    if units.len() == 0 {
        None
    } else if is_banker(units[0]) {
        Some(0)
    } else {
        match banker_index(units.drop_first()) {
            Some(i) => Some(i + 1),
            None => None,
        }
    }
}

/// The first backpack slot holding an item (a nonzero guid).
pub open spec fn pack_item(pack: Seq<u64>) -> Option<int>
    decreases pack.len(),
{
    if pack.len() == 0 {
        None
    } else if pack[0] != 0 {
        Some(0)
    } else {
        match pack_item(pack.drop_first()) {
            Some(i) => Some(i + 1),
            None => None,
        }
    }
}

/// The first bank slot holding `guid`.
pub open spec fn bank_slot(bank: Seq<u64>, guid: u64) -> Option<int>
    decreases bank.len(),
{
    if bank.len() == 0 {
        None
    } else if bank[0] == guid {
        Some(0)
    } else {
        match bank_slot(bank.drop_first(), guid) {
            Some(i) => Some(i + 1),
            None => None,
        }
    }
}

proof fn lemma_banker_index(units: Seq<UnitSighting>)
    ensures
        banker_index(units) matches Some(i) ==> 0 <= i < units.len() && is_banker(units[i]),
    decreases units.len(),
{
    if units.len() > 0 && !is_banker(units[0]) {
        lemma_banker_index(units.drop_first());
    }
}

proof fn lemma_pack_item(pack: Seq<u64>)
    ensures
        pack_item(pack) matches Some(i) ==> 0 <= i < pack.len() && pack[i] != 0,
    decreases pack.len(),
{
    if pack.len() > 0 && pack[0] == 0 {
        lemma_pack_item(pack.drop_first());
    }
}

proof fn lemma_bank_slot(bank: Seq<u64>, guid: u64)
    ensures
        bank_slot(bank, guid) matches Some(i) ==> 0 <= i < bank.len() && bank[i] == guid,
    decreases bank.len(),
{
    if bank.len() > 0 && bank[0] != guid {
        lemma_bank_slot(bank.drop_first(), guid);
    }
}

/// What the slot searches find.
pub proof fn lemma_items(pack: Seq<u64>, bank: Seq<u64>, guid: Option<u64>)
    ensures
        pack_item(pack) matches Some(i) ==> 0 <= i < pack.len() && pack[i] != 0,
        guid matches Some(g) ==> (bank_slot(bank, g) matches Some(k) ==> 0 <= k < bank.len()
            && bank[k] == g),
{
    lemma_pack_item(pack);
    if let Some(g) = guid {
        lemma_bank_slot(bank, g);
    }
}

/// The first banker among the sightings.
pub fn find_banker(units: &Vec<UnitSighting>) -> (r: Option<usize>)
    ensures
        r matches Some(i) ==> i < units@.len() && banker_index(units@) == Some(i as int),
        r is None ==> banker_index(units@) is None,
{
    proof {
        assert(units@.skip(0) =~= units@);
        lemma_banker_index(units@);
    }
    let mut i = 0usize;
    while i < units.len()
        invariant
            i <= units@.len(),
            banker_index(units@) == match banker_index(units@.skip(i as int)) {
                Some(j) => Some(j + i),
                None => None,
            },
        decreases units@.len() - i,
    {
        let ghost rest = units@.skip(i as int);
        proof {
            assert(rest.drop_first() =~= units@.skip(i + 1));
            assert(rest[0] == units@[i as int]);
        }
        let u = units[i];
        if u.is_unit && u.in_range && (u.entry == Some(BANKER_ENTRY) || u.npc_flags
            & NPC_FLAG_BANKER != 0) {
            return Some(i);
        }
        i += 1;
    }
    proof {
        assert(units@.skip(i as int).len() == 0);
    }
    None
}

/// The first backpack slot holding a nonzero item guid, if any.
pub fn find_pack_item(pack: &Vec<u64>) -> (r: Option<usize>)
    ensures
        r matches Some(i) ==> i < pack@.len() && pack_item(pack@) == Some(i as int),
        r is None ==> pack_item(pack@) is None,
{
    proof {
        assert(pack@.skip(0) =~= pack@);
        lemma_pack_item(pack@);
    }
    let mut i = 0usize;
    while i < pack.len()
        invariant
            i <= pack@.len(),
            pack_item(pack@) == match pack_item(pack@.skip(i as int)) {
                Some(j) => Some(j + i),
                None => None,
            },
        decreases pack@.len() - i,
    {
        let ghost rest = pack@.skip(i as int);
        proof {
            assert(rest.drop_first() =~= pack@.skip(i + 1));
            assert(rest[0] == pack@[i as int]);
        }
        if pack[i] != 0 {
            return Some(i);
        }
        i += 1;
    }
    proof {
        assert(pack@.skip(i as int).len() == 0);
    }
    None
}

/// The bank slot index currently holding `guid`, if any.
pub fn find_bank_slot(bank: &Vec<u64>, guid: u64) -> (r: Option<usize>)
    ensures
        r matches Some(i) ==> i < bank@.len() && bank_slot(bank@, guid) == Some(i as int),
        r is None ==> bank_slot(bank@, guid) is None,
{
    proof {
        assert(bank@.skip(0) =~= bank@);
        lemma_bank_slot(bank@, guid);
    }
    let mut i = 0usize;
    while i < bank.len()
        invariant
            i <= bank@.len(),
            bank_slot(bank@, guid) == match bank_slot(bank@.skip(i as int), guid) {
                Some(j) => Some(j + i),
                None => None,
            },
        decreases bank@.len() - i,
    {
        let ghost rest = bank@.skip(i as int);
        proof {
            assert(rest.drop_first() =~= bank@.skip(i + 1));
            assert(rest[0] == bank@[i as int]);
        }
        if bank[i] == guid {
            return Some(i);
        }
        i += 1;
    }
    proof {
        assert(bank@.skip(i as int).len() == 0);
    }
    None
}

/// The word the refusal's surfaced error must name.
pub open spec fn banker_word() -> Seq<char> {
    seq!['b', 'a', 'n', 'k', 'e', 'r']
}

/// Whether a surfaced error text names the banker, in any case (`to_lowercase().contains`).
pub fn names_banker(text: &str) -> (r: bool)
    ensures
        r == contains(lowercase(text@), banker_word()),
{
    let lower = to_lowercase(text);
    let t = chars_of(lower.as_str());
    let w = vec!['b', 'a', 'n', 'k', 'e', 'r'];
    assert(w@ =~= banker_word());
    contains_word(&t, &w)
}

/// The probe's phases. Times are probe-clock milliseconds.
#[derive(Clone, Copy, Debug, PartialEq, Eq, Structural)]
pub enum Phase {
    Wait,
    /// `.go` issued; settling before the world streams the banker in (step 1).
    Settling { sent_at: u64 },
    /// `BankerActivate` sent; waiting for the bank window to open (step 2).
    Activating { sent_at: u64 },
    /// Ensuring a backpack item exists to deposit — `.additem` if the bags are empty.
    EnsureItem { since: u64, sent: bool },
    /// `AutoBankItem` sent; waiting for the fixture guid to land in a bank slot (step 3).
    Deposit { since: u64 },
    /// `AutoStoreBankItem` sent; waiting for the fixture guid back in the pack (step 4).
    Withdraw { since: u64 },
    /// `BuyBankSlot` sent (funds permitting); waiting for the purchased-count delta (step 5).
    /// `funded`: this step already granted itself the fare — one shot.
    BuySlot { since: u64, sent: bool, funded: bool },
    /// Step 6 (bonus): leave the banker's range, then buy on the now-stale guid and watch for the
    /// surfaced refusal.
    Refusal { since: u64, teleported: bool, bought: bool, events_baseline: i64 },
    Done,
}

/// The step a verdict is about.
#[derive(Clone, Copy, Debug, PartialEq, Eq, Structural)]
pub enum BankCheck {
    Teleport,
    Activate,
    Deposit,
    Withdraw,
    BuySlot,
    Refusal,
}

/// What the frame loop does or reports, in order.
#[derive(Clone, Copy, Debug, PartialEq, Eq, Structural)]
pub enum BankEffect {
    /// A `PASS`/`FAIL`/`SKIP` line for a step.
    Verdict(BankCheck, Outcome),
    /// Run the `UI_ERROR_MESSAGE` hook chunk (a failure only logs).
    InstallHook,
    /// Say `.go xyz` to the banker's spawn.
    GoToBanker,
    /// `CMSG_BANKER_ACTIVATE` to this banker.
    Activate(u64),
    /// Say `.additem ITEM_ENTRY 1`.
    AddItem,
    /// `CMSG_AUTOBANK_ITEM` from this wire slot of the player's inventory.
    AutoBank { slot: u8 },
    /// `CMSG_AUTOSTORE_BANK_ITEM` from this wire slot.
    AutoStore { slot: u8 },
    /// Say `.modify money <n>`.
    GrantMoney(u32),
    /// `CMSG_BUY_BANK_SLOT` to this banker.
    BuySlot(u64),
    /// Say `.go xyz` well out of the banker's service range.
    LeaveRange,
    /// `DONE pass=<n> fail=<m>`, then exit.
    Finished { passes: u32, fails: u32 },
}

impl BankEffect {
    /// The verdict this effect prints, if it is one.
    pub open spec fn outcome(self) -> Option<Outcome> {
        match self {
            BankEffect::Verdict(_, o) => Some(o),
            _ => None,
        }
    }
}

/// What the frame loop read this frame. Lua reads default the way the trace reads them when the
/// eval fails (an event count of 0, an empty text); descriptor reads default to 0.
pub struct BankObs {
    /// The units streamed in, in the world's order.
    pub units: Vec<UnitSighting>,
    /// The bank window is open (`SMSG_SHOW_BANK` landed).
    pub bank_open: bool,
    /// The backpack's slots, by index: the item guid, 0 when empty.
    pub pack: Vec<u64>,
    /// The bank's slots, by index: the item guid, 0 when empty.
    pub bank: Vec<u64>,
    /// Bank bag slots purchased, and the purse in copper.
    pub purchased: u8,
    pub money: u32,
    /// The loaded DBC's price for the next slot, `None` when the prices did not load.
    pub dbc_price: Option<u32>,
    /// The `UI_ERROR_MESSAGE` log's length and its newest text.
    pub events: i64,
    pub last_event: String,
}

/// The probe's state and the identities it discovers along the way.
#[derive(Clone, Copy, Debug)]
pub struct BankProbe {
    pub phase: Phase,
    pub banker: Option<u64>,
    /// The item round-tripped through deposit and withdraw.
    pub item_guid: Option<u64>,
    /// The bank slot index the fixture landed in.
    pub bank_idx: Option<u8>,
    /// Step (5)'s baselines, latched when the buy is prepared.
    pub baseline_purchased: u8,
    pub baseline_money: u32,
    pub next_cost: u32,
    pub passes: u32,
    pub fails: u32,
    pub exited: bool,
}

/// `p` with one more pass.
pub open spec fn passed(p: BankProbe) -> BankProbe {
    BankProbe { passes: (p.passes + 1) as u32, ..p }
}

/// `p` with one more fail.
pub open spec fn failed(p: BankProbe) -> BankProbe {
    BankProbe { fails: (p.fails + 1) as u32, ..p }
}

/// `p` in `phase`.
pub open spec fn goto(p: BankProbe, phase: Phase) -> BankProbe {
    BankProbe { phase, ..p }
}

/// Step (6)'s entry.
pub open spec fn refusal_at(now: u64, obs: &BankObs) -> Phase {
    Phase::Refusal { since: now, teleported: false, bought: false, events_baseline: obs.events }
}

/// The grant that funds a short purse for the rung: the shortfall plus the margin.
pub open spec fn grant_for(cost: u32, money: u32) -> int {
    cost - money + FUND_MARGIN_COPPER
}

/// One frame of the probe.
pub open spec fn next(p: BankProbe, now: u64, obs: &BankObs) -> (BankProbe, Seq<BankEffect>) {
    match p.phase {
        Phase::Wait => (
            goto(p, Phase::Settling { sent_at: now }),
            seq![BankEffect::InstallHook, BankEffect::GoToBanker],
        ),
        Phase::Settling { sent_at } => if within(now, sent_at, SETTLE_MS) {
            (p, Seq::empty())
        } else {
            match banker_index(obs.units@) {
                Some(i) => {
                    let guid = obs.units@[i].guid;
                    (
                        BankProbe {
                            banker: Some(guid),
                            ..goto(passed(p), Phase::Activating { sent_at: now })
                        },
                        seq![
                            BankEffect::Verdict(BankCheck::Teleport, Outcome::Pass),
                            BankEffect::Activate(guid),
                        ],
                    )
                },
                None => if waited(now, sent_at, SCAN_TIMEOUT_MS) {
                    (
                        goto(failed(p), Phase::Done),
                        seq![BankEffect::Verdict(BankCheck::Teleport, Outcome::Fail)],
                    )
                } else {
                    (p, Seq::empty())
                },
            }
        },
        Phase::Activating { sent_at } => if obs.bank_open {
            (
                goto(passed(p), Phase::EnsureItem { since: now, sent: false }),
                seq![BankEffect::Verdict(BankCheck::Activate, Outcome::Pass)],
            )
        } else if waited(now, sent_at, ACTIVATE_TIMEOUT_MS) {
            (
                goto(failed(p), Phase::Done),
                seq![BankEffect::Verdict(BankCheck::Activate, Outcome::Fail)],
            )
        } else {
            (p, Seq::empty())
        },
        Phase::EnsureItem { since, sent } => match pack_item(obs.pack@) {
            Some(i) => (
                BankProbe {
                    item_guid: Some(obs.pack@[i]),
                    ..goto(p, Phase::Deposit { since: now })
                },
                seq![BankEffect::AutoBank { slot: (SLOT_PACK_FIRST + i) as u8 }],
            ),
            None => if !sent {
                (goto(p, Phase::EnsureItem { since: now, sent: true }), seq![BankEffect::AddItem])
            } else if waited(now, since, ITEM_TIMEOUT_MS) {
                (
                    goto(failed(p), Phase::Done),
                    seq![BankEffect::Verdict(BankCheck::Deposit, Outcome::Fail)],
                )
            } else {
                (p, Seq::empty())
            },
        },
        Phase::Deposit { since } => match p.item_guid {
            None => (goto(p, Phase::Done), Seq::empty()),
            Some(guid) => match bank_slot(obs.bank@, guid) {
                Some(k) => (
                    BankProbe {
                        bank_idx: Some(k as u8),
                        ..goto(passed(p), Phase::Withdraw { since: now })
                    },
                    seq![
                        BankEffect::Verdict(BankCheck::Deposit, Outcome::Pass),
                        BankEffect::AutoStore { slot: (SLOT_BANK_FIRST + k) as u8 },
                    ],
                ),
                None => if waited(now, since, ACTION_TIMEOUT_MS) {
                    (
                        goto(failed(p), Phase::Done),
                        seq![BankEffect::Verdict(BankCheck::Deposit, Outcome::Fail)],
                    )
                } else {
                    (p, Seq::empty())
                },
            },
        },
        Phase::Withdraw { since } => match (p.item_guid, p.bank_idx) {
            (Some(guid), Some(k)) => {
                let bank_empty = !(k < obs.bank@.len() && obs.bank@[k as int] == guid);
                let back_in_pack = pack_item(obs.pack@) matches Some(i) && obs.pack@[i] == guid;
                let buy = Phase::BuySlot { since: now, sent: false, funded: false };
                if bank_empty && back_in_pack {
                    (
                        goto(passed(p), buy),
                        seq![BankEffect::Verdict(BankCheck::Withdraw, Outcome::Pass)],
                    )
                } else if waited(now, since, ACTION_TIMEOUT_MS) {
                    (
                        goto(failed(p), buy),
                        seq![BankEffect::Verdict(BankCheck::Withdraw, Outcome::Fail)],
                    )
                } else {
                    (p, Seq::empty())
                }
            },
            _ => (goto(p, Phase::Done), Seq::empty()),
        },
        Phase::BuySlot { since, sent, funded } => match p.banker {
            None => (goto(p, Phase::Done), Seq::empty()),
            Some(banker) => if !sent {
                let q = BankProbe {
                    baseline_purchased: obs.purchased,
                    baseline_money: obs.money,
                    ..p
                };
                if obs.purchased >= MAX_BANK_BAGS {
                    (
                        goto(q, refusal_at(now, obs)),
                        seq![BankEffect::Verdict(BankCheck::BuySlot, Outcome::Skip)],
                    )
                } else {
                    let cost = slot_cost(obs.dbc_price, obs.purchased);
                    let q = BankProbe { next_cost: cost, ..q };
                    if obs.money < cost && !funded {
                        (
                            goto(q, Phase::BuySlot { since: now, sent: false, funded: true }),
                            seq![BankEffect::GrantMoney(grant_for(cost, obs.money) as u32)],
                        )
                    } else if obs.money < cost {
                        (
                            goto(failed(q), refusal_at(now, obs)),
                            seq![BankEffect::Verdict(BankCheck::BuySlot, Outcome::Fail)],
                        )
                    } else {
                        (
                            goto(q, Phase::BuySlot { since: now, sent: true, funded }),
                            seq![BankEffect::BuySlot(banker)],
                        )
                    }
                }
            } else {
                let want_purchased = p.baseline_purchased + 1;
                let want_money = if p.baseline_money >= p.next_cost {
                    p.baseline_money - p.next_cost
                } else {
                    0
                };
                if obs.purchased == want_purchased && obs.money == want_money {
                    (
                        goto(passed(p), refusal_at(now, obs)),
                        seq![BankEffect::Verdict(BankCheck::BuySlot, Outcome::Pass)],
                    )
                } else if waited(now, since, ACTION_TIMEOUT_MS) {
                    (
                        goto(failed(p), refusal_at(now, obs)),
                        seq![BankEffect::Verdict(BankCheck::BuySlot, Outcome::Fail)],
                    )
                } else {
                    (p, Seq::empty())
                }
            },
        },
        Phase::Refusal { since, teleported, bought, events_baseline } => match p.banker {
            None => (goto(p, Phase::Done), Seq::empty()),
            Some(banker) => if !teleported {
                (
                    goto(
                        p,
                        Phase::Refusal { since: now, teleported: true, bought: false, events_baseline },
                    ),
                    seq![BankEffect::LeaveRange],
                )
            } else if !bought {
                if within(now, since, SETTLE_MS) {
                    (p, Seq::empty())
                } else {
                    (
                        goto(
                            p,
                            Phase::Refusal {
                                since: now,
                                teleported: true,
                                bought: true,
                                events_baseline,
                            },
                        ),
                        seq![BankEffect::BuySlot(banker)],
                    )
                }
            } else if obs.events > events_baseline {
                if contains(lowercase(obs.last_event@), banker_word()) {
                    (
                        goto(passed(p), Phase::Done),
                        seq![BankEffect::Verdict(BankCheck::Refusal, Outcome::Pass)],
                    )
                } else {
                    (
                        goto(p, Phase::Done),
                        seq![BankEffect::Verdict(BankCheck::Refusal, Outcome::Skip)],
                    )
                }
            } else if waited(now, since, REFUSAL_GRACE_MS) {
                (
                    goto(p, Phase::Done),
                    seq![BankEffect::Verdict(BankCheck::Refusal, Outcome::Skip)],
                )
            } else {
                (p, Seq::empty())
            },
        },
        Phase::Done => if p.exited {
            (p, Seq::empty())
        } else {
            (
                BankProbe { exited: true, ..p },
                seq![BankEffect::Finished { passes: p.passes, fails: p.fails }],
            )
        },
    }
}

/// What the probe keeps between frames: room for one more verdict, a bought slot count that can
/// take one more, and a bank slot that is a bank slot.
pub open spec fn ready(p: BankProbe) -> bool {
    &&& p.passes < u32::MAX
    &&& p.fails < u32::MAX
    &&& (p.phase matches Phase::BuySlot { sent, .. } && sent ==> p.baseline_purchased
        < MAX_BANK_BAGS)
    &&& (p.bank_idx matches Some(k) ==> k < BANK_SLOTS)
}

/// What a frame's reads are: the descriptor's sixteen backpack and twenty-four bank slots, and a
/// purse whose shortfall grant fits a `u32`: the grant is sent as a `u32` copper amount, and
/// `cost - money + margin` past `u32::MAX` has no such amount.
pub open spec fn obs_ok(obs: &BankObs) -> bool {
    &&& obs.pack@.len() == PACK_SLOTS
    &&& obs.bank@.len() == BANK_SLOTS
    &&& (obs.purchased < MAX_BANK_BAGS && obs.money < slot_cost(obs.dbc_price, obs.purchased)
        ==> grant_for(slot_cost(obs.dbc_price, obs.purchased), obs.money) <= u32::MAX)
}

impl BankProbe {
    /// A fresh probe, waiting to start.
    pub fn new() -> (p: BankProbe)
        ensures
            p.phase == Phase::Wait,
            p.banker is None,
            p.item_guid is None,
            p.bank_idx is None,
            p.passes == 0,
            p.fails == 0,
            !p.exited,
            p.baseline_purchased == 0 && p.baseline_money == 0 && p.next_cost == 0,
            ready(p),
    {
        BankProbe {
            phase: Phase::Wait,
            banker: None,
            item_guid: None,
            bank_idx: None,
            baseline_purchased: 0,
            baseline_money: 0,
            next_cost: 0,
            passes: 0,
            fails: 0,
            exited: false,
        }
    }

    /// One frame of the probe: advance the phase on what the frame loop read, and say what to do.
    pub fn step(&mut self, now: u64, obs: &BankObs) -> (effects: Vec<BankEffect>)
        requires
            ready(*old(self)),
            obs_ok(obs),
        ensures
            *final(self) == next(*old(self), now, obs).0,
            effects@ == next(*old(self), now, obs).1,
    {
        let mut out: Vec<BankEffect> = Vec::new();
        match self.phase {
            Phase::Wait | Phase::Settling { .. } | Phase::Activating { .. } => self.step_reach(
                now,
                obs,
                &mut out,
            ),
            Phase::EnsureItem { .. } | Phase::Deposit { .. } | Phase::Withdraw { .. } => self.step_items(
                now,
                obs,
                &mut out,
            ),
            Phase::BuySlot { .. } => self.step_buy(now, obs, &mut out),
            Phase::Refusal { .. } | Phase::Done => self.step_refusal(now, obs, &mut out),
        }
        out
    }

    fn step_reach(&mut self, now: u64, obs: &BankObs, out: &mut Vec<BankEffect>)
        requires
            ready(*old(self)),
            obs_ok(obs),
            old(out)@.len() == 0,
            old(self).phase is Wait || old(self).phase is Settling || old(self).phase is Activating,
        ensures
            *final(self) == next(*old(self), now, obs).0,
            final(out)@ == next(*old(self), now, obs).1,
    {
        let ghost start = *self;
        proof {
            lemma_banker_index(obs.units@);
        }
        match self.phase {
            Phase::Wait => {
                self.phase = Phase::Settling { sent_at: now };
                out.push(BankEffect::InstallHook);
                out.push(BankEffect::GoToBanker);
            },
            Phase::Settling { sent_at } => {
                if !within_exec(now, sent_at, SETTLE_MS) {
                    match find_banker(&obs.units) {
                        Some(i) => {
                            let guid = obs.units[i].guid;
                            self.passes = self.passes + 1;
                            self.banker = Some(guid);
                            self.phase = Phase::Activating { sent_at: now };
                            out.push(BankEffect::Verdict(BankCheck::Teleport, Outcome::Pass));
                            out.push(BankEffect::Activate(guid));
                        },
                        None => {
                            if waited_exec(now, sent_at, SCAN_TIMEOUT_MS) {
                                self.fails = self.fails + 1;
                                self.phase = Phase::Done;
                                out.push(BankEffect::Verdict(BankCheck::Teleport, Outcome::Fail));
                            }
                        },
                    }
                }
            },
            Phase::Activating { sent_at } => {
                if obs.bank_open {
                    self.passes = self.passes + 1;
                    self.phase = Phase::EnsureItem { since: now, sent: false };
                    out.push(BankEffect::Verdict(BankCheck::Activate, Outcome::Pass));
                } else if waited_exec(now, sent_at, ACTIVATE_TIMEOUT_MS) {
                    self.fails = self.fails + 1;
                    self.phase = Phase::Done;
                    out.push(BankEffect::Verdict(BankCheck::Activate, Outcome::Fail));
                }
            },
            _ => {},
        }
        proof {
            assert(*self == next(start, now, obs).0);
            assert(out@ =~= next(start, now, obs).1);
        }
    }

    fn step_items(&mut self, now: u64, obs: &BankObs, out: &mut Vec<BankEffect>)
        requires
            ready(*old(self)),
            obs_ok(obs),
            old(out)@.len() == 0,
            old(self).phase is EnsureItem || old(self).phase is Deposit || old(self).phase is Withdraw,
        ensures
            *final(self) == next(*old(self), now, obs).0,
            final(out)@ == next(*old(self), now, obs).1,
    {
        let ghost start = *self;
        proof {
            lemma_pack_item(obs.pack@);
            match self.item_guid {
                Some(g) => lemma_bank_slot(obs.bank@, g),
                None => {},
            }
        }
        match self.phase {
            Phase::EnsureItem { since, sent } => {
                match find_pack_item(&obs.pack) {
                    Some(i) => {
                        let slot = SLOT_PACK_FIRST + i as u8;
                        self.item_guid = Some(obs.pack[i]);
                        self.phase = Phase::Deposit { since: now };
                        out.push(BankEffect::AutoBank { slot });
                    },
                    None => {
                        if !sent {
                            self.phase = Phase::EnsureItem { since: now, sent: true };
                            out.push(BankEffect::AddItem);
                        } else if waited_exec(now, since, ITEM_TIMEOUT_MS) {
                            self.fails = self.fails + 1;
                            self.phase = Phase::Done;
                            out.push(BankEffect::Verdict(BankCheck::Deposit, Outcome::Fail));
                        }
                    },
                }
            },
            Phase::Deposit { since } => {
                match self.item_guid {
                    None => {
                        self.phase = Phase::Done;
                    },
                    Some(guid) => {
                        match find_bank_slot(&obs.bank, guid) {
                            Some(k) => {
                                let slot = SLOT_BANK_FIRST + k as u8;
                                self.passes = self.passes + 1;
                                self.bank_idx = Some(k as u8);
                                self.phase = Phase::Withdraw { since: now };
                                out.push(BankEffect::Verdict(BankCheck::Deposit, Outcome::Pass));
                                out.push(BankEffect::AutoStore { slot });
                            },
                            None => {
                                if waited_exec(now, since, ACTION_TIMEOUT_MS) {
                                    self.fails = self.fails + 1;
                                    self.phase = Phase::Done;
                                    out.push(
                                        BankEffect::Verdict(BankCheck::Deposit, Outcome::Fail),
                                    );
                                }
                            },
                        }
                    },
                }
            },
            Phase::Withdraw { since } => {
                match (self.item_guid, self.bank_idx) {
                    (Some(guid), Some(k)) => {
                        let bank_empty = !((k as usize) < obs.bank.len() && obs.bank[k as usize]
                            == guid);
                        let back_in_pack = match find_pack_item(&obs.pack) {
                            Some(i) => obs.pack[i] == guid,
                            None => false,
                        };
                        if bank_empty && back_in_pack {
                            self.passes = self.passes + 1;
                            self.phase = Phase::BuySlot { since: now, sent: false, funded: false };
                            out.push(BankEffect::Verdict(BankCheck::Withdraw, Outcome::Pass));
                        } else if waited_exec(now, since, ACTION_TIMEOUT_MS) {
                            self.fails = self.fails + 1;
                            self.phase = Phase::BuySlot { since: now, sent: false, funded: false };
                            out.push(BankEffect::Verdict(BankCheck::Withdraw, Outcome::Fail));
                        }
                    },
                    _ => {
                        self.phase = Phase::Done;
                    },
                }
            },
            _ => {},
        }
        proof {
            assert(*self == next(start, now, obs).0);
            assert(out@ =~= next(start, now, obs).1);
        }
    }

    fn step_buy(&mut self, now: u64, obs: &BankObs, out: &mut Vec<BankEffect>)
        requires
            ready(*old(self)),
            obs_ok(obs),
            old(out)@.len() == 0,
            old(self).phase is BuySlot,
        ensures
            *final(self) == next(*old(self), now, obs).0,
            final(out)@ == next(*old(self), now, obs).1,
    {
        let ghost start = *self;
        if let Phase::BuySlot { since, sent, funded } = self.phase {
            match self.banker {
                None => {
                    self.phase = Phase::Done;
                },
                Some(banker) => {
                    if !sent {
                        self.baseline_purchased = obs.purchased;
                        self.baseline_money = obs.money;
                        if obs.purchased >= MAX_BANK_BAGS {
                            self.phase = Phase::Refusal {
                                since: now,
                                teleported: false,
                                bought: false,
                                events_baseline: obs.events,
                            };
                            out.push(BankEffect::Verdict(BankCheck::BuySlot, Outcome::Skip));
                        } else {
                            let cost = next_cost(obs.dbc_price, obs.purchased);
                            self.next_cost = cost;
                            if obs.money < cost && !funded {
                                let grant = cost - obs.money + FUND_MARGIN_COPPER;
                                self.phase = Phase::BuySlot { since: now, sent: false, funded: true };
                                out.push(BankEffect::GrantMoney(grant));
                            } else if obs.money < cost {
                                self.fails = self.fails + 1;
                                self.phase = Phase::Refusal {
                                    since: now,
                                    teleported: false,
                                    bought: false,
                                    events_baseline: obs.events,
                                };
                                out.push(BankEffect::Verdict(BankCheck::BuySlot, Outcome::Fail));
                            } else {
                                self.phase = Phase::BuySlot { since: now, sent: true, funded };
                                out.push(BankEffect::BuySlot(banker));
                            }
                        }
                    } else {
                        let want_purchased = self.baseline_purchased + 1;
                        let want_money = self.baseline_money.saturating_sub(self.next_cost);
                        if obs.purchased == want_purchased && obs.money == want_money {
                            self.passes = self.passes + 1;
                            self.phase = Phase::Refusal {
                                since: now,
                                teleported: false,
                                bought: false,
                                events_baseline: obs.events,
                            };
                            out.push(BankEffect::Verdict(BankCheck::BuySlot, Outcome::Pass));
                        } else if waited_exec(now, since, ACTION_TIMEOUT_MS) {
                            self.fails = self.fails + 1;
                            self.phase = Phase::Refusal {
                                since: now,
                                teleported: false,
                                bought: false,
                                events_baseline: obs.events,
                            };
                            out.push(BankEffect::Verdict(BankCheck::BuySlot, Outcome::Fail));
                        }
                    }
                },
            }
        }
        proof {
            assert(*self == next(start, now, obs).0);
            assert(out@ =~= next(start, now, obs).1);
        }
    }

    fn step_refusal(&mut self, now: u64, obs: &BankObs, out: &mut Vec<BankEffect>)
        requires
            ready(*old(self)),
            obs_ok(obs),
            old(out)@.len() == 0,
            old(self).phase is Refusal || old(self).phase is Done,
        ensures
            *final(self) == next(*old(self), now, obs).0,
            final(out)@ == next(*old(self), now, obs).1,
    {
        let ghost start = *self;
        match self.phase {
            Phase::Refusal { since, teleported, bought, events_baseline } => {
                match self.banker {
                    None => {
                        self.phase = Phase::Done;
                    },
                    Some(banker) => {
                        if !teleported {
                            self.phase = Phase::Refusal {
                                since: now,
                                teleported: true,
                                bought: false,
                                events_baseline,
                            };
                            out.push(BankEffect::LeaveRange);
                        } else if !bought {
                            if !within_exec(now, since, SETTLE_MS) {
                                self.phase = Phase::Refusal {
                                    since: now,
                                    teleported: true,
                                    bought: true,
                                    events_baseline,
                                };
                                out.push(BankEffect::BuySlot(banker));
                            }
                        } else if obs.events > events_baseline {
                            if names_banker(obs.last_event.as_str()) {
                                self.passes = self.passes + 1;
                                out.push(BankEffect::Verdict(BankCheck::Refusal, Outcome::Pass));
                            } else {
                                out.push(BankEffect::Verdict(BankCheck::Refusal, Outcome::Skip));
                            }
                            self.phase = Phase::Done;
                        } else if waited_exec(now, since, REFUSAL_GRACE_MS) {
                            self.phase = Phase::Done;
                            out.push(BankEffect::Verdict(BankCheck::Refusal, Outcome::Skip));
                        }
                    },
                }
            },
            Phase::Done => {
                if !self.exited {
                    self.exited = true;
                    out.push(BankEffect::Finished { passes: self.passes, fails: self.fails });
                }
            },
            _ => {},
        }
        proof {
            assert(*self == next(start, now, obs).0);
            assert(out@ =~= next(start, now, obs).1);
        }
    }
}

} // verus!
