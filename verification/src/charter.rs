//! The guild-charter live probe (`WOW_PROBE_CHARTER=1`) — decision 1672's end-to-end instrument:
//! leave any guild an earlier run founded, GM-hop to the Stormwind guild registrar, open his
//! gossip menu, assert the charter row's icon reads `petition` (step 3), select it by its wire
//! index (4), buy a charter through the registrar's own window (5), right-click it in the bags
//! (6), watch the petition window fill in a round trip later (7), rename it (8), and destroy it
//! again so the next run can do the same (9).
//!
//! Every exit from steps 5 to 8 runs through the cleanup: a charter left in the bags makes the
//! next run's buy be refused silently. An environmental problem (the hop, a chunk the VM will not
//! run) SKIPs; a wrong value FAILs.
use crate::binder::{GossipOption, IconFault};
use crate::probe_clock::{
    lemma_tally_short, tally, waited, waited_exec, within, within_exec, Outcome, UnitSighting,
};
use crate::text::{
    chars_of, contains, contains_word, lowercase, push_zero_padded, same_text, string_of,
    to_lowercase, zero_padded,
};
use vstd::prelude::*;

verus! {

/// Aldwin Laughlin's creature template entry — the primary identity check.
pub const REGISTRAR_ENTRY: u32 = 4974;
/// `UNIT_NPC_FLAG_PETITIONER` — the fallback identity check.
pub const NPC_FLAG_PETITIONER: u32 = 0x200;
/// The wire `GOSSIP_ICON` byte of the charter row.
pub const ICON_PETITION: u8 = 7;
/// The price `GetGuildCharterCost()` must quote, in copper (`GUILD_CHARTER_COST`).
pub const CHARTER_COST_COPPER: i64 = 1000;
/// What `GetPetitionInfo()`'s `maxSignatures` must read: hardcoded 9 by the server.
pub const REQUIRED_SIGNATURES: i64 = 9;
/// A fresh charter has no signers; the owner is not one.
pub const FRESH_SIGNATURES: i64 = 0;
/// Copper handed to the body up front so the buy never fails for funds.
pub const FUND_COPPER: u32 = 100000;
/// The charter item and its template flag.
pub const CHARTER_ITEM_ENTRY: u32 = 5863;
pub const ITEM_FLAG_CHARTER: u32 = 0x2000;
/// The player's own inventory as a wire bag index, and the first backpack and equipped-bag
/// slots within it.
pub const BAG_PLAYER_INVENTORY: u8 = 255;
pub const SLOT_BAG_FIRST: u8 = 19;
pub const SLOT_PACK_FIRST: u8 = 23;
pub const PACK_SLOTS: u8 = 16;

pub const SETTLE_MS: u64 = 3000;
pub const GUILD_CLEAR_TIMEOUT_MS: u64 = 20000;
pub const SCAN_TIMEOUT_MS: u64 = 25000;
pub const MENU_TIMEOUT_MS: u64 = 20000;
/// How long step (4) waits for the portrait booth's `"npc"` token before reporting it empty.
pub const REGISTRAR_TOKEN_SETTLE_MS: u64 = 1000;
pub const REGISTRAR_TIMEOUT_MS: u64 = 15000;
/// Nothing acknowledges a buy: this is the time the item gets to arrive.
pub const BUY_TIMEOUT_MS: u64 = 25000;
pub const PETITION_TIMEOUT_MS: u64 = 15000;
pub const RECORD_TIMEOUT_MS: u64 = 15000;
pub const RENAME_TIMEOUT_MS: u64 = 15000;
pub const DESTROY_TIMEOUT_MS: u64 = 15000;

/// The Lua container and 1-based slot a bag right-click addresses for a wire position: the
/// backpack is container 0, the four equipped bags 1 to 4; anywhere else has none.
pub open spec fn lua_bag_pos_of(bag_index: u8, slot: u8) -> Option<(i64, u32)> {
    if bag_index == BAG_PLAYER_INVENTORY {
        if slot >= SLOT_PACK_FIRST && slot - SLOT_PACK_FIRST < PACK_SLOTS {
            Some((0, (slot - SLOT_PACK_FIRST + 1) as u32))
        } else {
            None
        }
    } else if bag_index >= SLOT_BAG_FIRST && bag_index - SLOT_BAG_FIRST < 4 && slot < 36 {
        Some(((bag_index - SLOT_BAG_FIRST + 1) as i64, (slot + 1) as u32))
    } else {
        None
    }
}

/// The bag right-click position of a wire `(bag_index, slot)`.
pub fn lua_bag_pos(bag_index: u8, slot: u8) -> (r: Option<(i64, u32)>)
    ensures
        r == lua_bag_pos_of(bag_index, slot),
{
    if bag_index == BAG_PLAYER_INVENTORY {
        if slot >= SLOT_PACK_FIRST && slot - SLOT_PACK_FIRST < PACK_SLOTS {
            Some((0, (slot - SLOT_PACK_FIRST) as u32 + 1))
        } else {
            None
        }
    } else if bag_index >= SLOT_BAG_FIRST && bag_index - SLOT_BAG_FIRST < 4 && slot < 36 {
        Some(((bag_index - SLOT_BAG_FIRST) as i64 + 1, slot as u32 + 1))
    } else {
        None
    }
}

/// A guild name that cannot collide with an earlier run: the prefix, a space, and the low eight
/// digits of the wall clock's seconds, zero-padded.
pub open spec fn guild_name_of(prefix: Seq<char>, secs: u64) -> Seq<char> {
    prefix + seq![' '] + zero_padded((secs % 100000000) as nat, 8)
}

/// The probe's guild name for `prefix` at wall-clock second `secs`.
pub fn probe_guild_name(prefix: &str, secs: u64) -> (r: String)
    ensures
        r@ == guild_name_of(prefix@, secs),
{
    let mut v = chars_of(prefix);
    v.push(' ');
    push_zero_padded(&mut v, (secs % 100000000) as u32, 8);
    string_of(&v)
}

/// `"Probe Charter"` and `"Probe Renamed"`: the prefixes of the bought and the renamed names.
pub open spec fn bought_prefix() -> Seq<char> {
    seq!['P', 'r', 'o', 'b', 'e', ' ', 'C', 'h', 'a', 'r', 't', 'e', 'r']
}

pub open spec fn renamed_prefix() -> Seq<char> {
    seq!['P', 'r', 'o', 'b', 'e', ' ', 'R', 'e', 'n', 'a', 'm', 'e', 'd']
}

/// `"petition"`, the type the gossip table must give the charter row; `"gossip"`, the chat
/// bubble a broken table gives it; `"guild"`, the label hint and the petition type of a charter.
pub open spec fn petition_type() -> Seq<char> {
    seq!['p', 'e', 't', 'i', 't', 'i', 'o', 'n']
}

pub open spec fn bubble_type() -> Seq<char> {
    seq!['g', 'o', 's', 's', 'i', 'p']
}

pub open spec fn guild_word() -> Seq<char> {
    seq!['g', 'u', 'i', 'l', 'd']
}

/// The registrar identity: a unit in range, by his entry or by the petitioner flag.
pub open spec fn is_registrar(u: UnitSighting) -> bool {
    u.is_unit && u.in_range && (u.entry == Some(REGISTRAR_ENTRY) || u.npc_flags
        & NPC_FLAG_PETITIONER != 0)
}

/// The index of the first registrar among the sightings.
pub open spec fn registrar_index(units: Seq<UnitSighting>) -> Option<int>
    decreases units.len(),
{
    if units.len() == 0 {
        None
    } else if is_registrar(units[0]) {
        Some(0)
    } else {
        match registrar_index(units.drop_first()) {
            Some(i) => Some(i + 1),
            None => None,
        }
    }
}

proof fn lemma_registrar_index(units: Seq<UnitSighting>)
    ensures
        registrar_index(units) matches Some(i) ==> 0 <= i < units.len() && is_registrar(units[i]),
    decreases units.len(),
{
    if units.len() > 0 && !is_registrar(units[0]) {
        lemma_registrar_index(units.drop_first());
    }
}

/// The first registrar among the sightings.
pub fn find_registrar(units: &Vec<UnitSighting>) -> (r: Option<usize>)
    ensures
        r matches Some(i) ==> i < units@.len() && registrar_index(units@) == Some(i as int),
        r is None ==> registrar_index(units@) is None,
{
    proof {
        assert(units@.skip(0) =~= units@);
        lemma_registrar_index(units@);
    }
    let mut i = 0usize;
    while i < units.len()
        invariant
            i <= units@.len(),
            registrar_index(units@) == match registrar_index(units@.skip(i as int)) {
                Some(j) => Some(j + i),
                None => None,
            },
        decreases units@.len() - i,
    {
        let ghost rest = units@.skip(i as int);
        proof {
            assert(rest.drop_first() =~= units@.skip(i + 1));
            assert(rest[0] == units@[i as int]);
        }
        let u = units[i];
        if u.is_unit && u.in_range && (u.entry == Some(REGISTRAR_ENTRY) || u.npc_flags
            & NPC_FLAG_PETITIONER != 0) {
            return Some(i);
        }
        i += 1;
    }
    proof {
        assert(units@.skip(i as int).len() == 0);
    }
    None
}

/// The index of the first menu row with the petition icon.
pub open spec fn charter_row_of(options: Seq<GossipOption>) -> Option<int>
    decreases options.len(),
{
    if options.len() == 0 {
        None
    } else if options[0].icon == ICON_PETITION {
        Some(0)
    } else {
        match charter_row_of(options.drop_first()) {
            Some(i) => Some(i + 1),
            None => None,
        }
    }
}

proof fn lemma_charter_row(options: Seq<GossipOption>)
    ensures
        charter_row_of(options) matches Some(i) ==> 0 <= i < options.len() && options[i].icon
            == ICON_PETITION,
    decreases options.len(),
{
    if options.len() > 0 && options[0].icon != ICON_PETITION {
        lemma_charter_row(options.drop_first());
    }
}

/// The first menu row carrying the petition icon.
pub fn find_charter_row(options: &Vec<GossipOption>) -> (r: Option<usize>)
    ensures
        r matches Some(i) ==> i < options@.len() && charter_row_of(options@) == Some(i as int),
        r is None ==> charter_row_of(options@) is None,
{
    proof {
        assert(options@.skip(0) =~= options@);
        lemma_charter_row(options@);
    }
    let mut i = 0usize;
    while i < options.len()
        invariant
            i <= options@.len(),
            charter_row_of(options@) == match charter_row_of(options@.skip(i as int)) {
                Some(j) => Some(j + i),
                None => None,
            },
        decreases options@.len() - i,
    {
        let ghost rest = options@.skip(i as int);
        proof {
            assert(rest.drop_first() =~= options@.skip(i + 1));
            assert(rest[0] == options@[i as int]);
        }
        if options[i].icon == ICON_PETITION {
            return Some(i);
        }
        i += 1;
    }
    proof {
        assert(options@.skip(i as int).len() == 0);
    }
    None
}

/// Some line of the bag tooltip names `word`.
pub open spec fn tooltip_names(lines: Seq<String>, word: Seq<char>) -> bool {
    exists|i: int| 0 <= i < lines.len() && contains(#[trigger] lines[i]@, word)
}

/// Whether some tooltip line contains `word`.
pub fn any_line_names(lines: &Vec<String>, word: &Vec<char>) -> (r: bool)
    ensures
        r == tooltip_names(lines@, word@),
{
    let mut i = 0usize;
    while i < lines.len()
        invariant
            i <= lines@.len(),
            forall|j: int| 0 <= j < i ==> !contains(#[trigger] lines@[j]@, word@),
        decreases lines@.len() - i,
    {
        if contains_word(&chars_of(lines[i].as_str()), word) {
            return true;
        }
        i += 1;
    }
    false
}

/// The steps a verdict is about, numbered as the trace numbers them.
#[derive(Clone, Copy, Debug, PartialEq, Eq, Structural)]
pub enum CharterCheck {
    Precheck,
    Hop,
    Menu,
    Icon,
    Registrar,
    Buy,
    Open,
    Record,
    Rename,
    Cleanup,
}

/// A chunk run in the live VM whose outcome decides where the probe goes.
#[derive(Clone, Copy, Debug, PartialEq, Eq, Structural)]
pub enum CharterRun {
    /// `GuildDisband()` when the body is the guild master, else `GuildLeave()`.
    Unguild { disband: bool },
    /// `GuildRegistrar_ShowPurchaseFrame() BuyGuildCharter("<bought>")`.
    Purchase,
    /// `UseContainerItem(container, slot)` on the charter.
    Click { container: i64, slot: u32 },
    /// `RenamePetition("<renamed>")`.
    Rename,
}

/// The probe's phases. Times are probe-clock milliseconds.
#[derive(Clone, Copy, Debug, PartialEq, Eq, Structural)]
pub enum Phase {
    Wait,
    /// Step (0): any guild an earlier run founded is being left.
    Unguild { since: u64, sent: bool },
    /// Step (1): `.go` issued; settling before the registrar streams in.
    Settling { sent_at: u64 },
    /// Step (2): hello sent; waiting for the parsed menu and its push into the VM.
    Menu { sent_at: u64 },
    /// Step (4): the charter row selected; waiting for the registrar window.
    Registrar { since: u64 },
    /// Step (5): the purchase driven; waiting for the charter item.
    Buying { since: u64, sent: bool },
    /// Step (6): the charter right-clicked; waiting for the petition window.
    Opening { since: u64, sent: bool },
    /// Step (7): waiting for the record to fill the title in.
    Record { since: u64 },
    /// Step (8): the rename run; waiting for its echo to patch the record.
    Renaming { since: u64, sent: bool },
    /// Step (9): the charter destroyed; watching it leave the bags.
    Destroying { since: u64, sent: bool },
    Done,
}

/// What the frame loop does or reports, in order.
#[derive(Clone, Copy, Debug, PartialEq, Eq, Structural)]
pub enum CharterEffect {
    /// A `PASS`/`FAIL`/`SKIP` line for a step.
    Verdict(CharterCheck, Outcome),
    /// What step (3) found wrong, reported with its `FAIL`.
    IconFault(IconFault),
    /// Run the refusal-channel hook chunk (a failure only logs).
    InstallHook,
    /// Say `.modify money FUND_COPPER`.
    Fund,
    /// Run this chunk and hand its outcome to [`CharterProbe::resume`].
    Run(CharterRun),
    /// Say `.go xyz` to the registrar's spawn.
    GoToRegistrar,
    /// `CMSG_GOSSIP_HELLO` to the registrar.
    GossipHello(u64),
    /// `CMSG_GOSSIP_SELECT_OPTION` with the row's wire index.
    SelectOption { guid: u64, option: u32 },
    /// `CMSG_DESTROYITEM` on this wire position, the whole stack.
    Destroy { bag_index: u8, slot: u8 },
    /// `DONE pass=<n> fail=<m>`, then exit.
    Finished { passes: u32, fails: u32 },
}

impl CharterEffect {
    /// The verdict this effect prints, if it is one.
    pub open spec fn outcome(self) -> Option<Outcome> {
        match self {
            CharterEffect::Verdict(_, o) => Some(o),
            _ => None,
        }
    }
}

/// What the frame loop read this frame. Lua reads default the way the trace reads them when the
/// eval fails.
pub struct CharterObs {
    /// The body's guild id and rank (rank 0 is the guild master).
    pub guild_id: u32,
    pub guild_rank: u32,
    /// The wall clock's seconds, for the probe's guild names.
    pub wall_secs: u64,
    pub units: Vec<UnitSighting>,
    pub gossip_npc: Option<u64>,
    pub options: Vec<GossipOption>,
    pub vm_gossip_values: i64,
    /// The icon type string the VM reports for each menu row, in order.
    pub vm_icon_types: Vec<String>,
    /// `BENILLA_GOSSIP_ICONS.petition`, `""` when missing.
    pub vm_petition_texture: String,
    /// The registrar session's npc, its window, the quoted cost (`-1` unread) and the portrait
    /// token `UnitName("npc")`.
    pub registrar_npc: Option<u64>,
    pub registrar_visible: bool,
    pub charter_cost: i64,
    pub npc_token: String,
    /// Where a charter item sits — wire `(bag_index, slot, guid)` — and its template's flags once
    /// the template has landed.
    pub charter_item: Option<(u8, u8, u64)>,
    pub charter_flags: Option<u32>,
    /// The petition window and `GetPetitionInfo()`'s readings.
    pub petition_visible: bool,
    pub petition_type: String,
    pub petition_title: String,
    pub petition_max: i64,
    pub is_originator: i64,
    pub num_names: i64,
    /// The charter's bag tooltip, line by line.
    pub tooltip: Vec<String>,
}

/// The probe's state.
pub struct CharterProbe {
    pub phase: Phase,
    pub registrar: Option<u64>,
    /// The charter row's wire index, as selected.
    pub charter_row: Option<u32>,
    /// Where the bought charter is: wire `(bag_index, slot, guid)`.
    pub charter: Option<(u8, u8, u64)>,
    /// The name the purchase chunk carries, and the one the rename chunk carries.
    pub bought: String,
    pub renamed: String,
    /// The title read when the petition window first showed.
    pub title_at_open: String,
    pub passes: u32,
    pub fails: u32,
    pub exited: bool,
    /// The chunk whose outcome is owed to [`CharterProbe::resume`].
    pub pending: Option<CharterRun>,
}

/// The probe as a value.
pub struct CharterView {
    pub phase: Phase,
    pub registrar: Option<u64>,
    pub charter_row: Option<u32>,
    pub charter: Option<(u8, u8, u64)>,
    pub bought: Seq<char>,
    pub renamed: Seq<char>,
    pub title_at_open: Seq<char>,
    pub passes: u32,
    pub fails: u32,
    pub exited: bool,
    pub pending: Option<CharterRun>,
}

impl View for CharterProbe {
    type V = CharterView;

    open spec fn view(&self) -> CharterView {
        CharterView {
            phase: self.phase,
            registrar: self.registrar,
            charter_row: self.charter_row,
            charter: self.charter,
            bought: self.bought@,
            renamed: self.renamed@,
            title_at_open: self.title_at_open@,
            passes: self.passes,
            fails: self.fails,
            exited: self.exited,
            pending: self.pending,
        }
    }
}

pub open spec fn goto(p: CharterView, phase: Phase) -> CharterView {
    CharterView { phase, ..p }
}

/// A verdict for `check`, and the count it moves.
pub open spec fn verdict(p: CharterView, check: CharterCheck, o: Outcome) -> (
    CharterView,
    Seq<CharterEffect>,
) {
    (
        if o == Outcome::Pass {
            CharterView { passes: (p.passes + 1) as u32, ..p }
        } else if o == Outcome::Fail {
            CharterView { fails: (p.fails + 1) as u32, ..p }
        } else {
            p
        },
        seq![CharterEffect::Verdict(check, o)],
    )
}

/// `verdict`, then `phase`.
pub open spec fn say(p: CharterView, check: CharterCheck, o: Outcome, phase: Phase) -> (
    CharterView,
    Seq<CharterEffect>,
) {
    (goto(verdict(p, check, o).0, phase), verdict(p, check, o).1)
}

/// The cleanup's entry.
pub open spec fn destroy_at(now: u64) -> Phase {
    Phase::Destroying { since: now, sent: false }
}

/// Step (0)'s exit to the hop: the precheck PASS, then the `.go`.
pub open spec fn hop(p: CharterView, now: u64) -> (CharterView, Seq<CharterEffect>) {
    let (q, e) = say(p, CharterCheck::Precheck, Outcome::Pass, Phase::Settling { sent_at: now });
    (q, e.push(CharterEffect::GoToRegistrar))
}

/// Steps (3) and (4)'s first half, once the menu is in.
pub open spec fn icon_and_select(p: CharterView, now: u64, obs: &CharterObs, npc: u64) -> (
    CharterView,
    Seq<CharterEffect>,
) {
    let fail = |why: IconFault|
        {
            let (q, e) = say(p, CharterCheck::Icon, Outcome::Fail, Phase::Done);
            (q, seq![CharterEffect::IconFault(why)] + e)
        };
    match charter_row_of(obs.options@) {
        None => fail(IconFault::NoRow),
        Some(pos) => {
            let ty = if 0 <= pos < obs.vm_icon_types@.len() {
                obs.vm_icon_types@[pos]@
            } else {
                Seq::empty()
            };
            let opt = obs.options@[pos];
            if ty == bubble_type() {
                fail(IconFault::Regression)
            } else if ty != petition_type() {
                fail(IconFault::WrongType)
            } else if obs.vm_petition_texture@.len() == 0 {
                fail(IconFault::NoTexture)
            } else {
                let (q, e) = verdict(p, CharterCheck::Icon, Outcome::Pass);
                if !contains(lowercase(opt.message@), guild_word()) {
                    let (r, f) = say(q, CharterCheck::Registrar, Outcome::Skip, Phase::Done);
                    (r, e + f)
                } else {
                    (
                        CharterView {
                            charter_row: Some(opt.index),
                            ..goto(q, Phase::Registrar { since: now })
                        },
                        e.push(CharterEffect::SelectOption { guid: npc, option: opt.index }),
                    )
                }
            }
        },
    }
}

/// One frame of the probe.
pub open spec fn next(p: CharterView, now: u64, obs: &CharterObs) -> (
    CharterView,
    Seq<CharterEffect>,
) {
    match p.phase {
        Phase::Wait => (
            goto(p, Phase::Unguild { since: now, sent: false }),
            seq![CharterEffect::InstallHook, CharterEffect::Fund],
        ),
        Phase::Unguild { since, sent } => if !sent {
            if obs.guild_id == 0 {
                hop(p, now)
            } else {
                let run = CharterRun::Unguild { disband: obs.guild_rank == 0 };
                (CharterView { pending: Some(run), ..p }, seq![CharterEffect::Run(run)])
            }
        } else if obs.guild_id == 0 {
            hop(p, now)
        } else if waited(now, since, GUILD_CLEAR_TIMEOUT_MS) {
            say(p, CharterCheck::Precheck, Outcome::Fail, Phase::Done)
        } else {
            (p, Seq::empty())
        },
        Phase::Settling { sent_at } => if within(now, sent_at, SETTLE_MS) {
            (p, Seq::empty())
        } else {
            match registrar_index(obs.units@) {
                Some(i) => {
                    let guid = obs.units@[i].guid;
                    let (q, e) = say(p, CharterCheck::Hop, Outcome::Pass, Phase::Menu { sent_at: now });
                    (CharterView { registrar: Some(guid), ..q }, e.push(CharterEffect::GossipHello(guid)))
                },
                None => if waited(now, sent_at, SCAN_TIMEOUT_MS) {
                    say(p, CharterCheck::Hop, Outcome::Skip, Phase::Done)
                } else {
                    (p, Seq::empty())
                },
            }
        },
        Phase::Menu { sent_at } => match p.registrar {
            None => (goto(p, Phase::Done), Seq::empty()),
            Some(npc) => {
                let open = obs.gossip_npc == Some(npc) && obs.options@.len() > 0;
                let pushed = obs.vm_gossip_values == obs.options@.len() * 2;
                if open && pushed {
                    let (q, e) = verdict(p, CharterCheck::Menu, Outcome::Pass);
                    let (r, f) = icon_and_select(q, now, obs, npc);
                    (r, e + f)
                } else if waited(now, sent_at, MENU_TIMEOUT_MS) {
                    say(p, CharterCheck::Menu, Outcome::Fail, Phase::Done)
                } else {
                    (p, Seq::empty())
                }
            },
        },
        Phase::Registrar { since } => match p.registrar {
            None => (goto(p, Phase::Done), Seq::empty()),
            Some(npc) => {
                let parked = obs.registrar_npc == Some(npc);
                if parked && obs.registrar_visible && obs.charter_cost == CHARTER_COST_COPPER {
                    if obs.npc_token@.len() == 0 && within(now, since, REGISTRAR_TOKEN_SETTLE_MS) {
                        (p, Seq::empty())
                    } else {
                        say(
                            p,
                            CharterCheck::Registrar,
                            Outcome::Pass,
                            Phase::Buying { since: now, sent: false },
                        )
                    }
                } else if parked && obs.registrar_visible {
                    say(p, CharterCheck::Registrar, Outcome::Fail, Phase::Done)
                } else if waited(now, since, REGISTRAR_TIMEOUT_MS) {
                    say(p, CharterCheck::Registrar, Outcome::Fail, Phase::Done)
                } else {
                    (p, Seq::empty())
                }
            },
        },
        Phase::Buying { since, sent } => if !sent {
            (
                CharterView {
                    bought: guild_name_of(bought_prefix(), obs.wall_secs),
                    pending: Some(CharterRun::Purchase),
                    ..p
                },
                seq![CharterEffect::Run(CharterRun::Purchase)],
            )
        } else {
            match (obs.charter_item, obs.charter_flags) {
                (Some(item), Some(flags)) => if flags & ITEM_FLAG_CHARTER == 0 {
                    let (q, e) = say(p, CharterCheck::Buy, Outcome::Fail, destroy_at(now));
                    (CharterView { charter: Some(item), ..q }, e)
                } else {
                    let (q, e) = say(
                        p,
                        CharterCheck::Buy,
                        Outcome::Pass,
                        Phase::Opening { since: now, sent: false },
                    );
                    (CharterView { charter: Some(item), ..q }, e)
                },
                _ => if waited(now, since, BUY_TIMEOUT_MS) {
                    let (q, e) = say(
                        p,
                        CharterCheck::Buy,
                        Outcome::Fail,
                        if obs.charter_item is Some {
                            destroy_at(now)
                        } else {
                            Phase::Done
                        },
                    );
                    (CharterView { charter: obs.charter_item, ..q }, e)
                } else {
                    (p, Seq::empty())
                },
            }
        },
        Phase::Opening { since, sent } => match p.charter {
            None => (goto(p, Phase::Done), Seq::empty()),
            Some((bag_index, slot, _)) => if !sent {
                if obs.petition_visible {
                    say(p, CharterCheck::Open, Outcome::Fail, destroy_at(now))
                } else {
                    match lua_bag_pos_of(bag_index, slot) {
                        None => say(p, CharterCheck::Open, Outcome::Skip, destroy_at(now)),
                        Some((container, lua_slot)) => {
                            let run = CharterRun::Click { container, slot: lua_slot };
                            (CharterView { pending: Some(run), ..p }, seq![CharterEffect::Run(run)])
                        },
                    }
                }
            } else if obs.petition_visible && obs.petition_type@ == guild_word()
                && obs.is_originator == 1 && obs.num_names == FRESH_SIGNATURES {
                let (q, e) = say(p, CharterCheck::Open, Outcome::Pass, Phase::Record { since: now });
                (CharterView { title_at_open: obs.petition_title@, ..q }, e)
            } else if waited(now, since, PETITION_TIMEOUT_MS) {
                say(p, CharterCheck::Open, Outcome::Fail, destroy_at(now))
            } else {
                (p, Seq::empty())
            },
        },
        Phase::Record { since } => if obs.petition_title@ == p.bought && obs.petition_max
            == REQUIRED_SIGNATURES {
            say(
                p,
                CharterCheck::Record,
                if p.title_at_open.len() == 0 || p.title_at_open == p.bought {
                    Outcome::Pass
                } else {
                    Outcome::Fail
                },
                Phase::Renaming { since: now, sent: false },
            )
        } else if waited(now, since, RECORD_TIMEOUT_MS) {
            say(p, CharterCheck::Record, Outcome::Fail, destroy_at(now))
        } else {
            (p, Seq::empty())
        },
        Phase::Renaming { since, sent } => if !sent {
            (
                CharterView {
                    renamed: guild_name_of(renamed_prefix(), obs.wall_secs),
                    pending: Some(CharterRun::Rename),
                    ..p
                },
                seq![CharterEffect::Run(CharterRun::Rename)],
            )
        } else if obs.petition_title@ == p.renamed && tooltip_names(obs.tooltip@, p.renamed) {
            say(p, CharterCheck::Rename, Outcome::Pass, destroy_at(now))
        } else if waited(now, since, RENAME_TIMEOUT_MS) {
            say(p, CharterCheck::Rename, Outcome::Fail, destroy_at(now))
        } else {
            (p, Seq::empty())
        },
        Phase::Destroying { since, sent } => match p.charter {
            None => (goto(p, Phase::Done), Seq::empty()),
            Some(_) => if !sent {
                match obs.charter_item {
                    None => say(p, CharterCheck::Cleanup, Outcome::Pass, Phase::Done),
                    Some((bag_index, slot, _)) => (
                        goto(p, Phase::Destroying { since: now, sent: true }),
                        seq![CharterEffect::Destroy { bag_index, slot }],
                    ),
                }
            } else if obs.charter_item is None {
                say(p, CharterCheck::Cleanup, Outcome::Pass, Phase::Done)
            } else if waited(now, since, DESTROY_TIMEOUT_MS) {
                say(p, CharterCheck::Cleanup, Outcome::Fail, Phase::Done)
            } else {
                (p, Seq::empty())
            },
        },
        Phase::Done => if p.exited {
            (p, Seq::empty())
        } else {
            (
                CharterView { exited: true, ..p },
                seq![CharterEffect::Finished { passes: p.passes, fails: p.fails }],
            )
        },
    }
}

/// Where a chunk's outcome takes the probe.
pub open spec fn after_run(p: CharterView, now: u64, ok: bool) -> (CharterView, Seq<CharterEffect>) {
    let q = CharterView { pending: None, ..p };
    match p.pending {
        Some(CharterRun::Unguild { .. }) => if ok {
            (goto(q, Phase::Unguild { since: now, sent: true }), Seq::empty())
        } else {
            say(q, CharterCheck::Precheck, Outcome::Fail, Phase::Done)
        },
        Some(CharterRun::Purchase) => if ok {
            (goto(q, Phase::Buying { since: now, sent: true }), Seq::empty())
        } else {
            say(q, CharterCheck::Buy, Outcome::Skip, Phase::Done)
        },
        Some(CharterRun::Click { .. }) => if ok {
            (goto(q, Phase::Opening { since: now, sent: true }), Seq::empty())
        } else {
            say(q, CharterCheck::Open, Outcome::Skip, destroy_at(now))
        },
        Some(CharterRun::Rename) => if ok {
            (goto(q, Phase::Renaming { since: now, sent: true }), Seq::empty())
        } else {
            say(q, CharterCheck::Rename, Outcome::Skip, destroy_at(now))
        },
        None => (q, Seq::empty()),
    }
}

/// Room for a frame's verdicts, and no chunk outcome owed.
pub open spec fn ready(p: CharterView) -> bool {
    &&& p.pending is None
    &&& p.passes <= u32::MAX - 2
    &&& p.fails < u32::MAX
}

/// The menu's wire count fits the `u32` the wire carries it in.
pub open spec fn obs_ok(obs: &CharterObs) -> bool {
    obs.options@.len() <= u32::MAX
}

impl CharterProbe {
    /// A fresh probe, waiting to start.
    pub fn new() -> (p: CharterProbe)
        ensures
            p@.phase == Phase::Wait,
            p@.registrar is None,
            p@.charter is None,
            p@.passes == 0,
            p@.fails == 0,
            !p@.exited,
            p@.charter_row is None && p@.pending is None,
            p@.bought.len() == 0 && p@.renamed.len() == 0 && p@.title_at_open.len() == 0,
            ready(p@),
    {
        CharterProbe {
            phase: Phase::Wait,
            registrar: None,
            charter_row: None,
            charter: None,
            bought: String::new(),
            renamed: String::new(),
            title_at_open: String::new(),
            passes: 0,
            fails: 0,
            exited: false,
            pending: None,
        }
    }

    fn say(&mut self, check: CharterCheck, o: Outcome, phase: Phase, out: &mut Vec<CharterEffect>)
        requires
            old(self).passes < u32::MAX,
            old(self).fails < u32::MAX,
        ensures
            final(self)@ == say(old(self)@, check, o, phase).0,
            final(out)@ == old(out)@ + say(old(self)@, check, o, phase).1,
    {
        if o == Outcome::Pass {
            self.passes = self.passes + 1;
        } else if o == Outcome::Fail {
            self.fails = self.fails + 1;
        }
        self.phase = phase;
        out.push(CharterEffect::Verdict(check, o));
        proof {
            assert(final(out)@ =~= old(out)@ + say(old(self)@, check, o, phase).1);
        }
    }

    /// One frame of the probe.
    pub fn step(&mut self, now: u64, obs: &CharterObs) -> (effects: Vec<CharterEffect>)
        requires
            ready(old(self)@),
            obs_ok(obs),
        ensures
            final(self)@ == next(old(self)@, now, obs).0,
            effects@ == next(old(self)@, now, obs).1,
    {
        let mut out: Vec<CharterEffect> = Vec::new();
        match self.phase {
            Phase::Wait | Phase::Unguild { .. } | Phase::Settling { .. } | Phase::Menu { .. } => {
                self.step_reach(now, obs, &mut out)
            },
            Phase::Registrar { .. } | Phase::Buying { .. } | Phase::Opening { .. } => {
                self.step_buy(now, obs, &mut out)
            },
            _ => self.step_petition(now, obs, &mut out),
        }
        out
    }

    fn step_reach(&mut self, now: u64, obs: &CharterObs, out: &mut Vec<CharterEffect>)
        requires
            ready(old(self)@),
            obs_ok(obs),
            old(out)@.len() == 0,
            old(self).phase is Wait || old(self).phase is Unguild || old(self).phase is Settling
                || old(self).phase is Menu,
        ensures
            final(self)@ == next(old(self)@, now, obs).0,
            final(out)@ == next(old(self)@, now, obs).1,
    {
        let ghost start = self@;
        proof {
            lemma_registrar_index(obs.units@);
        }
        match self.phase {
            Phase::Wait => {
                self.phase = Phase::Unguild { since: now, sent: false };
                out.push(CharterEffect::InstallHook);
                out.push(CharterEffect::Fund);
            },
            Phase::Unguild { since, sent } => {
                if (!sent && obs.guild_id == 0) || (sent && obs.guild_id == 0) {
                    self.say(CharterCheck::Precheck, Outcome::Pass, Phase::Settling { sent_at: now }, out);
                    out.push(CharterEffect::GoToRegistrar);
                } else if !sent {
                    let run = CharterRun::Unguild { disband: obs.guild_rank == 0 };
                    self.pending = Some(run);
                    out.push(CharterEffect::Run(run));
                } else if waited_exec(now, since, GUILD_CLEAR_TIMEOUT_MS) {
                    self.say(CharterCheck::Precheck, Outcome::Fail, Phase::Done, out);
                }
            },
            Phase::Settling { sent_at } => {
                if !within_exec(now, sent_at, SETTLE_MS) {
                    match find_registrar(&obs.units) {
                        Some(i) => {
                            let guid = obs.units[i].guid;
                            self.say(CharterCheck::Hop, Outcome::Pass, Phase::Menu { sent_at: now }, out);
                            self.registrar = Some(guid);
                            out.push(CharterEffect::GossipHello(guid));
                        },
                        None => {
                            if waited_exec(now, sent_at, SCAN_TIMEOUT_MS) {
                                self.say(CharterCheck::Hop, Outcome::Skip, Phase::Done, out);
                            }
                        },
                    }
                }
            },
            Phase::Menu { sent_at } => {
                match self.registrar {
                    None => {
                        self.phase = Phase::Done;
                    },
                    Some(npc) => {
                        let n = obs.options.len();
                        let open = obs.gossip_npc == Some(npc) && n > 0;
                        let pushed = obs.vm_gossip_values >= 0 && obs.vm_gossip_values as u64
                            == (n as u64) * 2;
                        if open && pushed {
                            self.passes = self.passes + 1;
                            out.push(CharterEffect::Verdict(CharterCheck::Menu, Outcome::Pass));
                            self.icon_and_select(now, obs, npc, out);
                        } else if waited_exec(now, sent_at, MENU_TIMEOUT_MS) {
                            self.say(CharterCheck::Menu, Outcome::Fail, Phase::Done, out);
                        }
                    },
                }
            },
            _ => {},
        }
        proof {
            assert(self@ == next(start, now, obs).0);
            assert(out@ =~= next(start, now, obs).1);
        }
    }

    /// Steps (3) and (4)'s first half.
    fn icon_and_select(&mut self, now: u64, obs: &CharterObs, npc: u64, out: &mut Vec<CharterEffect>)
        requires
            old(self).passes < u32::MAX,
            old(self).fails < u32::MAX,
        ensures
            final(self)@ == icon_and_select(old(self)@, now, obs, npc).0,
            final(out)@ == old(out)@ + icon_and_select(old(self)@, now, obs, npc).1,
    {
        let ghost start = self@;
        let ghost before = out@;
        proof {
            lemma_charter_row(obs.options@);
        }
        let fault = match find_charter_row(&obs.options) {
            None => Some(IconFault::NoRow),
            Some(pos) => {
                let ty = if pos < obs.vm_icon_types.len() {
                    chars_of(obs.vm_icon_types[pos].as_str())
                } else {
                    Vec::new()
                };
                let bubble = vec!['g', 'o', 's', 's', 'i', 'p'];
                let petition = vec!['p', 'e', 't', 'i', 't', 'i', 'o', 'n'];
                assert(bubble@ =~= bubble_type());
                assert(petition@ =~= petition_type());
                if same_text(&ty, &bubble) {
                    Some(IconFault::Regression)
                } else if !same_text(&ty, &petition) {
                    Some(IconFault::WrongType)
                } else if chars_of(obs.vm_petition_texture.as_str()).len() == 0 {
                    Some(IconFault::NoTexture)
                } else {
                    let opt = &obs.options[pos];
                    self.passes = self.passes + 1;
                    out.push(CharterEffect::Verdict(CharterCheck::Icon, Outcome::Pass));
                    let lower = to_lowercase(opt.message.as_str());
                    let hint = vec!['g', 'u', 'i', 'l', 'd'];
                    assert(hint@ =~= guild_word());
                    if !contains_word(&chars_of(lower.as_str()), &hint) {
                        self.phase = Phase::Done;
                        out.push(CharterEffect::Verdict(CharterCheck::Registrar, Outcome::Skip));
                    } else {
                        self.charter_row = Some(opt.index);
                        self.phase = Phase::Registrar { since: now };
                        out.push(CharterEffect::SelectOption { guid: npc, option: opt.index });
                    }
                    None
                }
            },
        };
        match fault {
            Some(why) => {
                out.push(CharterEffect::IconFault(why));
                self.say(CharterCheck::Icon, Outcome::Fail, Phase::Done, out);
            },
            None => {},
        }
        proof {
            assert(self@ == icon_and_select(start, now, obs, npc).0);
            assert(out@ =~= before + icon_and_select(start, now, obs, npc).1);
        }
    }

    fn step_buy(&mut self, now: u64, obs: &CharterObs, out: &mut Vec<CharterEffect>)
        requires
            ready(old(self)@),
            obs_ok(obs),
            old(out)@.len() == 0,
            old(self).phase is Registrar || old(self).phase is Buying || old(self).phase is Opening,
        ensures
            final(self)@ == next(old(self)@, now, obs).0,
            final(out)@ == next(old(self)@, now, obs).1,
    {
        let ghost start = self@;
        match self.phase {
            Phase::Registrar { since } => {
                match self.registrar {
                    None => {
                        self.phase = Phase::Done;
                    },
                    Some(npc) => {
                        let parked = obs.registrar_npc == Some(npc);
                        if parked && obs.registrar_visible && obs.charter_cost == CHARTER_COST_COPPER {
                            let token_empty = chars_of(obs.npc_token.as_str()).len() == 0;
                            if !(token_empty && within_exec(now, since, REGISTRAR_TOKEN_SETTLE_MS)) {
                                self.say(
                                    CharterCheck::Registrar,
                                    Outcome::Pass,
                                    Phase::Buying { since: now, sent: false },
                                    out,
                                );
                            }
                        } else if parked && obs.registrar_visible {
                            self.say(CharterCheck::Registrar, Outcome::Fail, Phase::Done, out);
                        } else if waited_exec(now, since, REGISTRAR_TIMEOUT_MS) {
                            self.say(CharterCheck::Registrar, Outcome::Fail, Phase::Done, out);
                        }
                    },
                }
            },
            Phase::Buying { since, sent } => {
                if !sent {
                    self.bought = probe_guild_name("Probe Charter", obs.wall_secs);
                    proof {
                        reveal_strlit("Probe Charter");
                        assert("Probe Charter"@ =~= bought_prefix());
                    }
                    self.pending = Some(CharterRun::Purchase);
                    out.push(CharterEffect::Run(CharterRun::Purchase));
                } else {
                    match (obs.charter_item, obs.charter_flags) {
                        (Some(item), Some(flags)) => {
                            if flags & ITEM_FLAG_CHARTER == 0 {
                                self.say(
                                    CharterCheck::Buy,
                                    Outcome::Fail,
                                    Phase::Destroying { since: now, sent: false },
                                    out,
                                );
                            } else {
                                self.say(
                                    CharterCheck::Buy,
                                    Outcome::Pass,
                                    Phase::Opening { since: now, sent: false },
                                    out,
                                );
                            }
                            self.charter = Some(item);
                        },
                        _ => {
                            if waited_exec(now, since, BUY_TIMEOUT_MS) {
                                let to = if obs.charter_item.is_some() {
                                    Phase::Destroying { since: now, sent: false }
                                } else {
                                    Phase::Done
                                };
                                self.say(CharterCheck::Buy, Outcome::Fail, to, out);
                                self.charter = obs.charter_item;
                            }
                        },
                    }
                }
            },
            Phase::Opening { since, sent } => {
                match self.charter {
                    None => {
                        self.phase = Phase::Done;
                    },
                    Some((bag_index, slot, _)) => {
                        if !sent {
                            if obs.petition_visible {
                                self.say(
                                    CharterCheck::Open,
                                    Outcome::Fail,
                                    Phase::Destroying { since: now, sent: false },
                                    out,
                                );
                            } else {
                                match lua_bag_pos(bag_index, slot) {
                                    None => {
                                        self.say(
                                            CharterCheck::Open,
                                            Outcome::Skip,
                                            Phase::Destroying { since: now, sent: false },
                                            out,
                                        );
                                    },
                                    Some((container, lua_slot)) => {
                                        let run = CharterRun::Click { container, slot: lua_slot };
                                        self.pending = Some(run);
                                        out.push(CharterEffect::Run(run));
                                    },
                                }
                            }
                        } else {
                            let kind = chars_of(obs.petition_type.as_str());
                            let guild = vec!['g', 'u', 'i', 'l', 'd'];
                            assert(guild@ =~= guild_word());
                            if obs.petition_visible && same_text(&kind, &guild) && obs.is_originator
                                == 1 && obs.num_names == FRESH_SIGNATURES {
                                self.say(
                                    CharterCheck::Open,
                                    Outcome::Pass,
                                    Phase::Record { since: now },
                                    out,
                                );
                                self.title_at_open = string_of(&chars_of(obs.petition_title.as_str()));
                            } else if waited_exec(now, since, PETITION_TIMEOUT_MS) {
                                self.say(
                                    CharterCheck::Open,
                                    Outcome::Fail,
                                    Phase::Destroying { since: now, sent: false },
                                    out,
                                );
                            }
                        }
                    },
                }
            },
            _ => {},
        }
        proof {
            assert(self@ == next(start, now, obs).0);
            assert(out@ =~= next(start, now, obs).1);
        }
    }

    fn step_petition(&mut self, now: u64, obs: &CharterObs, out: &mut Vec<CharterEffect>)
        requires
            ready(old(self)@),
            obs_ok(obs),
            old(out)@.len() == 0,
            old(self).phase is Record || old(self).phase is Renaming || old(self).phase is Destroying
                || old(self).phase is Done,
        ensures
            final(self)@ == next(old(self)@, now, obs).0,
            final(out)@ == next(old(self)@, now, obs).1,
    {
        let ghost start = self@;
        match self.phase {
            Phase::Record { since } => {
                let title = chars_of(obs.petition_title.as_str());
                let bought = chars_of(self.bought.as_str());
                if same_text(&title, &bought) && obs.petition_max == REQUIRED_SIGNATURES {
                    let at_open = chars_of(self.title_at_open.as_str());
                    let o = if at_open.len() == 0 || same_text(&at_open, &bought) {
                        Outcome::Pass
                    } else {
                        Outcome::Fail
                    };
                    self.say(CharterCheck::Record, o, Phase::Renaming { since: now, sent: false }, out);
                } else if waited_exec(now, since, RECORD_TIMEOUT_MS) {
                    self.say(
                        CharterCheck::Record,
                        Outcome::Fail,
                        Phase::Destroying { since: now, sent: false },
                        out,
                    );
                }
            },
            Phase::Renaming { since, sent } => {
                if !sent {
                    self.renamed = probe_guild_name("Probe Renamed", obs.wall_secs);
                    proof {
                        reveal_strlit("Probe Renamed");
                        assert("Probe Renamed"@ =~= renamed_prefix());
                    }
                    self.pending = Some(CharterRun::Rename);
                    out.push(CharterEffect::Run(CharterRun::Rename));
                } else {
                    let title = chars_of(obs.petition_title.as_str());
                    let renamed = chars_of(self.renamed.as_str());
                    if same_text(&title, &renamed) && any_line_names(&obs.tooltip, &renamed) {
                        self.say(
                            CharterCheck::Rename,
                            Outcome::Pass,
                            Phase::Destroying { since: now, sent: false },
                            out,
                        );
                    } else if waited_exec(now, since, RENAME_TIMEOUT_MS) {
                        self.say(
                            CharterCheck::Rename,
                            Outcome::Fail,
                            Phase::Destroying { since: now, sent: false },
                            out,
                        );
                    }
                }
            },
            Phase::Destroying { since, sent } => {
                match self.charter {
                    None => {
                        self.phase = Phase::Done;
                    },
                    Some(_) => {
                        if !sent {
                            match obs.charter_item {
                                None => {
                                    self.say(CharterCheck::Cleanup, Outcome::Pass, Phase::Done, out);
                                },
                                Some((bag_index, slot, _)) => {
                                    self.phase = Phase::Destroying { since: now, sent: true };
                                    out.push(CharterEffect::Destroy { bag_index, slot });
                                },
                            }
                        } else if obs.charter_item.is_none() {
                            self.say(CharterCheck::Cleanup, Outcome::Pass, Phase::Done, out);
                        } else if waited_exec(now, since, DESTROY_TIMEOUT_MS) {
                            self.say(CharterCheck::Cleanup, Outcome::Fail, Phase::Done, out);
                        }
                    },
                }
            },
            Phase::Done => {
                if !self.exited {
                    self.exited = true;
                    out.push(CharterEffect::Finished { passes: self.passes, fails: self.fails });
                }
            },
            _ => {},
        }
        proof {
            assert(self@ == next(start, now, obs).0);
            assert(out@ =~= next(start, now, obs).1);
        }
    }

    /// The outcome of the chunk [`CharterProbe::step`] handed out: it ran (`ok`) or errored.
    pub fn resume(&mut self, now: u64, ok: bool) -> (effects: Vec<CharterEffect>)
        requires
            old(self).passes < u32::MAX,
            old(self).fails < u32::MAX,
        ensures
            final(self)@ == after_run(old(self)@, now, ok).0,
            effects@ == after_run(old(self)@, now, ok).1,
    {
        let ghost start = self@;
        let mut out: Vec<CharterEffect> = Vec::new();
        let pending = self.pending;
        self.pending = None;
        match pending {
            Some(CharterRun::Unguild { .. }) => {
                if ok {
                    self.phase = Phase::Unguild { since: now, sent: true };
                } else {
                    self.say(CharterCheck::Precheck, Outcome::Fail, Phase::Done, &mut out);
                }
            },
            Some(CharterRun::Purchase) => {
                if ok {
                    self.phase = Phase::Buying { since: now, sent: true };
                } else {
                    self.say(CharterCheck::Buy, Outcome::Skip, Phase::Done, &mut out);
                }
            },
            Some(CharterRun::Click { .. }) => {
                if ok {
                    self.phase = Phase::Opening { since: now, sent: true };
                } else {
                    self.say(
                        CharterCheck::Open,
                        Outcome::Skip,
                        Phase::Destroying { since: now, sent: false },
                        &mut out,
                    );
                }
            },
            Some(CharterRun::Rename) => {
                if ok {
                    self.phase = Phase::Renaming { since: now, sent: true };
                } else {
                    self.say(
                        CharterCheck::Rename,
                        Outcome::Skip,
                        Phase::Destroying { since: now, sent: false },
                        &mut out,
                    );
                }
            },
            None => {},
        }
        proof {
            assert(self@ == after_run(start, now, ok).0);
            assert(out@ =~= after_run(start, now, ok).1);
        }
        out
    }
}

/// The verdicts a run of effects prints, in order.
pub open spec fn outcomes(e: Seq<CharterEffect>) -> Seq<Option<Outcome>> {
    e.map_values(|x: CharterEffect| x.outcome())
}

/// A charter is held only from the buy's verdict on: in the petition steps, the cleanup, or done.
pub open spec fn held_in_step(p: CharterView) -> bool {
    p.charter is Some ==> (p.phase is Opening || p.phase is Record || p.phase is Renaming
        || p.phase is Destroying || p.phase is Done)
}

/// A bought charter is never abandoned: whenever the probe holds one and lands in `Done`, it
/// came from the cleanup (or was done already).
pub open spec fn cleans_up(p: CharterView, r: (CharterView, Seq<CharterEffect>)) -> bool {
    r.0.charter is Some && r.0.phase is Done ==> p.phase is Destroying || p.phase is Done
}

/// Everything one frame keeps: the counters move by the verdicts printed; the hop never FAILs;
/// a select names the registrar and echoes the wire index of the first petition-icon row, whose
/// label names a guild, right after that row's icon PASS; a held charter is only ever left from
/// the cleanup; the destroy addresses where the charter is now; the record passes only if the
/// window opened blank or already on the bought name; `DONE` is printed once.
pub open spec fn frame_laws(p: CharterView, now: u64, obs: &CharterObs) -> bool {
    let (q, e) = next(p, now, obs);
    &&& q.passes == p.passes + tally(outcomes(e), Outcome::Pass)
    &&& q.fails == p.fails + tally(outcomes(e), Outcome::Fail)
    &&& forall|i: int|
        0 <= i < e.len() ==> #[trigger] e[i] != CharterEffect::Verdict(CharterCheck::Hop, Outcome::Fail)
    &&& forall|i: int|
        0 <= i < e.len() ==> (#[trigger] e[i] matches CharterEffect::SelectOption { guid, option }
            ==> {
            &&& p.registrar == Some(guid)
            &&& charter_row_of(obs.options@) matches Some(r)
            &&& obs.options@[r].index == option
            &&& obs.options@[r].icon == ICON_PETITION
            &&& contains(lowercase(obs.options@[r].message@), guild_word())
            &&& i > 0 && e[i - 1] == CharterEffect::Verdict(CharterCheck::Icon, Outcome::Pass)
            &&& q.charter_row == Some(option)
        })
    &&& cleans_up(p, (q, e))
    &&& forall|i: int|
        0 <= i < e.len() ==> (#[trigger] e[i] matches CharterEffect::Destroy { bag_index, slot }
            ==> obs.charter_item matches Some((b, s, _)) && b == bag_index && s == slot)
    &&& forall|i: int|
        0 <= i < e.len() && #[trigger] e[i] == CharterEffect::Verdict(
            CharterCheck::Record,
            Outcome::Pass,
        ) ==> (p.title_at_open.len() == 0 || p.title_at_open == p.bought) && obs.petition_title@
            == p.bought
    &&& held_in_step(q)
    &&& (q.pending matches Some(run) ==> match run {
        CharterRun::Unguild { .. } => q.phase is Unguild,
        CharterRun::Purchase => q.phase is Buying,
        CharterRun::Click { .. } => q.phase is Opening,
        CharterRun::Rename => q.phase is Renaming,
    })
    &&& p.exited ==> q.exited
    &&& forall|i: int| 0 <= i < e.len() && #[trigger] e[i] is Finished ==> p.phase is Done
        && !p.exited && q.exited
    &&& rename_by_title(p, obs, e)
}

/// The rename is judged by the petition: a `Rename` PASS only on a frame after the rename was sent
/// where the petition's title is the new name and a tooltip line names it.
pub open spec fn rename_by_title(p: CharterView, obs: &CharterObs, e: Seq<CharterEffect>) -> bool {
    forall|i: int|
        0 <= i < e.len() && #[trigger] e[i] == CharterEffect::Verdict(
            CharterCheck::Rename,
            Outcome::Pass,
        ) ==> {
            &&& p.phase matches Phase::Renaming { sent: true, .. }
            &&& obs.petition_title@ == p.renamed
            &&& exists|k: int|
                0 <= k < obs.tooltip@.len() && contains(#[trigger] obs.tooltip@[k]@, p.renamed)
        }
}

/// The laws of every frame of the charter probe, whatever the world reads back (see
/// [`frame_laws`]).
pub proof fn charter_frame_laws(p: CharterView, now: u64, obs: &CharterObs)
    requires
        ready(p),
        obs_ok(obs),
        held_in_step(p),
    ensures
        frame_laws(p, now, obs),
{
    lemma_charter_row(obs.options@);
    let e = next(p, now, obs).1;
    assert(e.len() <= 3);
    lemma_tally_short(outcomes(e), Outcome::Pass);
    lemma_tally_short(outcomes(e), Outcome::Fail);
}

/// A chunk's outcome keeps the cleanup law too, prints at most one verdict and counts it.
pub proof fn a_chunk_outcome_keeps_the_cleanup(p: CharterView, now: u64, ok: bool)
    requires
        p.passes < u32::MAX,
        p.fails < u32::MAX,
        held_in_step(p),
        p.pending matches Some(run) ==> match run {
            CharterRun::Unguild { .. } => p.phase is Unguild,
            CharterRun::Purchase => p.phase is Buying,
            CharterRun::Click { .. } => p.phase is Opening,
            CharterRun::Rename => p.phase is Renaming,
        },
    ensures
        cleans_up(p, after_run(p, now, ok)),
        held_in_step(after_run(p, now, ok).0),
        after_run(p, now, ok).0.charter == p.charter,
        after_run(p, now, ok).0.passes == p.passes + tally(outcomes(after_run(p, now, ok).1), Outcome::Pass),
        after_run(p, now, ok).0.fails == p.fails + tally(outcomes(after_run(p, now, ok).1), Outcome::Fail),
{
    let e = after_run(p, now, ok).1;
    assert(e.len() <= 1);
    lemma_tally_short(outcomes(e), Outcome::Pass);
    lemma_tally_short(outcomes(e), Outcome::Fail);
}

/// The rename is judged by the petition itself: a `Rename` PASS is printed only when the
/// petition's title reads the new name and a tooltip line names it; a frame past the rename
/// timeout without that prints exactly a `Rename` FAIL, counts one more failure and no pass, and
/// goes on to the cleanup.
pub proof fn the_rename_passes_only_when_it_landed(p: CharterView, now: u64, obs: &CharterObs)
    requires
        ready(p),
        obs_ok(obs),
        held_in_step(p),
    ensures
        rename_by_title(p, obs, next(p, now, obs).1),
        (p.phase matches Phase::Renaming { since, sent } && sent && now - since > RENAME_TIMEOUT_MS
            && !(obs.petition_title@ == p.renamed && tooltip_names(obs.tooltip@, p.renamed))) ==> {
            &&& next(p, now, obs).1 == seq![
                CharterEffect::Verdict(CharterCheck::Rename, Outcome::Fail),
            ]
            &&& next(p, now, obs).0.fails == p.fails + 1
            &&& next(p, now, obs).0.passes == p.passes
            &&& next(p, now, obs).0.phase == destroy_at(now)
        },
{
    charter_frame_laws(p, now, obs);
}

} // verus!
