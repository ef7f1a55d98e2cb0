//! The innkeeper-bind live probe (`WOW_PROBE_BINDER=1`) — decision 1331's end-to-end instrument
//! and the evidence that closes B249 ("setting your Hearthstone shows a wrong icon and doesn't
//! take"): GM-hop to Innkeeper Keldamyr, open her gossip menu on the real wire, assert the bind
//! row's icon reads `binder` (step 3), select it by its wire index (4), assert
//! `SMSG_BINDER_CONFIRM` reached the Lua dialog (5), answer through `ConfirmBinder()` and assert
//! the hearthstone moved (6), and that the bind announced itself in chat (7).
//!
//! The bind row is found by its **wire icon byte** (5, the innkeeper icon on every such row in the
//! world DB) and selected by its **wire index**; the probe never counts positions, because a GM's
//! menu carries rows a player's does not. A rebind to the place already bound is made visible by
//! clearing the home bind before answering: only its return proves a fresh packet landed.
//!
//! Every environmental problem SKIPs (the NPC never streamed, the VM refused to run a chunk); a
//! genuine wrong value is a FAIL.
use crate::probe_clock::{
    lemma_tally_short, tally, waited, waited_exec, within, within_exec, Outcome, UnitSighting,
};
use crate::text::{chars_of, contains, contains_word, lowercase, same_text, string_of, to_lowercase};
use vstd::prelude::*;

verus! {

/// Innkeeper Keldamyr's creature template entry — the primary identity check.
pub const INNKEEPER_ENTRY: u32 = 6736;
/// `UNIT_NPC_FLAG_INNKEEPER` — `0x80` on 1.12, not the later client's `65536`; the fallback.
pub const NPC_FLAG_INNKEEPER: u32 = 0x80;
/// Her map — Teldrassil.
pub const INNKEEPER_MAP: u32 = 1;
/// The wire `GOSSIP_ICON` byte every innkeeper row sends.
pub const ICON_INNKEEPER: u8 = 5;

pub const SETTLE_MS: u64 = 3000;
/// The waits are generous on purpose: the hop lands on another map, and the terrain load starves
/// the observer, not the wire.
pub const SCAN_TIMEOUT_MS: u64 = 20000;
pub const MENU_TIMEOUT_MS: u64 = 20000;
pub const CONFIRM_TIMEOUT_MS: u64 = 20000;
pub const BIND_TIMEOUT_MS: u64 = 20000;
pub const LINE_TIMEOUT_MS: u64 = 20000;

/// The type string the gossip table must produce for the innkeeper icon.
pub open spec fn binder_type() -> Seq<char> {
    seq!['b', 'i', 'n', 'd', 'e', 'r']
}

/// What the table produced before the fix — the chat bubble. Seeing it back is B249.
pub open spec fn regression_type() -> Seq<char> {
    seq!['g', 'o', 's', 's', 'i', 'p']
}

/// The substring the bind row's label must carry before the probe selects it.
pub open spec fn home_hint() -> Seq<char> {
    seq!['h', 'o', 'm', 'e']
}

/// `ERR_DEATHBIND_SUCCESS_S`'s tail: the line reads `"<area> is now your home."`.
pub open spec fn bound_suffix() -> Seq<char> {
    seq![
        ' ', 'i', 's', ' ', 'n', 'o', 'w', ' ', 'y', 'o', 'u', 'r', ' ', 'h', 'o', 'm', 'e', '.',
    ]
}

/// `ERR_DEATHBIND_SUCCESS_S` with the area filled in: `"%s is now your home."`.
pub open spec fn bound_line_of(area: Seq<char>) -> Seq<char> {
    area + bound_suffix()
}

/// The chat line a bind to `area_name` announces itself with.
pub fn bound_line(area_name: &str) -> (r: String)
    ensures
        r@ == bound_line_of(area_name@),
{
    let mut v = chars_of(area_name);
    let tail = vec![
        ' ', 'i', 's', ' ', 'n', 'o', 'w', ' ', 'y', 'o', 'u', 'r', ' ', 'h', 'o', 'm', 'e', '.',
    ];
    let mut i = 0usize;
    let ghost start = v@;
    while i < tail.len()
        invariant
            i <= tail@.len(),
            v@ == start + tail@.take(i as int),
        decreases tail@.len() - i,
    {
        v.push(tail[i]);
        i += 1;
        assert(v@ =~= start + tail@.take(i as int));
    }
    assert(tail@.take(tail@.len() as int) =~= bound_suffix());
    string_of(&v)
}

/// The innkeeper identity: a unit in range, by her entry or by the innkeeper flag.
pub open spec fn is_innkeeper(u: UnitSighting) -> bool {
    u.is_unit && u.in_range && (u.entry == Some(INNKEEPER_ENTRY) || u.npc_flags
        & NPC_FLAG_INNKEEPER != 0)
}

/// The index of the first innkeeper among the sightings.
pub open spec fn innkeeper_index(units: Seq<UnitSighting>) -> Option<int>
    decreases units.len(),
{
    if units.len() == 0 {
        None
    } else if is_innkeeper(units[0]) {
        Some(0)
    } else {
        match innkeeper_index(units.drop_first()) {
            Some(i) => Some(i + 1),
            None => None,
        }
    }
}

proof fn lemma_innkeeper_index(units: Seq<UnitSighting>)
    ensures
        innkeeper_index(units) matches Some(i) ==> 0 <= i < units.len() && is_innkeeper(units[i]),
    decreases units.len(),
{
    if units.len() > 0 && !is_innkeeper(units[0]) {
        lemma_innkeeper_index(units.drop_first());
    }
}

/// The first innkeeper among the sightings.
pub fn find_innkeeper(units: &Vec<UnitSighting>) -> (r: Option<usize>)
    ensures
        r matches Some(i) ==> i < units@.len() && innkeeper_index(units@) == Some(i as int),
        r is None ==> innkeeper_index(units@) is None,
{
    proof {
        assert(units@.skip(0) =~= units@);
        lemma_innkeeper_index(units@);
    }
    let mut i = 0usize;
    while i < units.len()
        invariant
            i <= units@.len(),
            innkeeper_index(units@) == match innkeeper_index(units@.skip(i as int)) {
                Some(j) => Some(j + i),
                None => None,
            },
        decreases units@.len() - i,
    {
        let ghost rest = units@.skip(i as int);
        proof {
            assert(rest.drop_first() =~= units@.skip(i + 1));
            assert(rest[0] == units@[i as int]);
        }
        let u = units[i];
        if u.is_unit && u.in_range && (u.entry == Some(INNKEEPER_ENTRY) || u.npc_flags
            & NPC_FLAG_INNKEEPER != 0) {
            return Some(i);
        }
        i += 1;
    }
    proof {
        assert(units@.skip(i as int).len() == 0);
    }
    None
}

/// One row of the parsed gossip menu, as the wire sent it.
pub struct GossipOption {
    /// The wire index the select must echo back.
    pub index: u32,
    /// The wire icon byte.
    pub icon: u8,
    pub message: String,
}

/// The index of the first row with the innkeeper icon.
pub open spec fn bind_row(options: Seq<GossipOption>) -> Option<int>
    decreases options.len(),
{
    if options.len() == 0 {
        None
    } else if options[0].icon == ICON_INNKEEPER {
        Some(0)
    } else {
        match bind_row(options.drop_first()) {
            Some(i) => Some(i + 1),
            None => None,
        }
    }
}

proof fn lemma_bind_row(options: Seq<GossipOption>)
    ensures
        bind_row(options) matches Some(i) ==> 0 <= i < options.len() && options[i].icon
            == ICON_INNKEEPER,
    decreases options.len(),
{
    if options.len() > 0 && options[0].icon != ICON_INNKEEPER {
        lemma_bind_row(options.drop_first());
    }
}

/// The first menu row carrying the innkeeper icon.
pub fn find_bind_row(options: &Vec<GossipOption>) -> (r: Option<usize>)
    ensures
        r matches Some(i) ==> i < options@.len() && bind_row(options@) == Some(i as int),
        r is None ==> bind_row(options@) is None,
{
    proof {
        assert(options@.skip(0) =~= options@);
        lemma_bind_row(options@);
    }
    let mut i = 0usize;
    while i < options.len()
        invariant
            i <= options@.len(),
            bind_row(options@) == match bind_row(options@.skip(i as int)) {
                Some(j) => Some(j + i),
                None => None,
            },
        decreases options@.len() - i,
    {
        let ghost rest = options@.skip(i as int);
        proof {
            assert(rest.drop_first() =~= options@.skip(i + 1));
            assert(rest[0] == options@[i as int]);
        }
        if options[i].icon == ICON_INNKEEPER {
            return Some(i);
        }
        i += 1;
    }
    proof {
        assert(options@.skip(i as int).len() == 0);
    }
    None
}

/// The icon type string the live VM reports for menu row `pos` (0-based), `""` past the end.
pub open spec fn icon_type_at(types: Seq<String>, pos: int) -> Seq<char> {
    if 0 <= pos < types.len() {
        types[pos]@
    } else {
        Seq::empty()
    }
}

/// The line is one of the system lines seen.
pub open spec fn announced(lines: Seq<String>, want: Seq<char>) -> bool {
    exists|i: int| 0 <= i < lines.len() && #[trigger] lines[i]@ == want
}

/// Whether `want` is one of `lines`.
pub fn any_line_is(lines: &Vec<String>, want: &Vec<char>) -> (r: bool)
    ensures
        r == announced(lines@, want@),
{
    let mut i = 0usize;
    while i < lines.len()
        invariant
            i <= lines@.len(),
            forall|j: int| 0 <= j < i ==> lines@[j]@ != want@,
        decreases lines@.len() - i,
    {
        let l = chars_of(lines[i].as_str());
        if same_text(&l, want) {
            return true;
        }
        i += 1;
    }
    false
}

/// Why step (3) failed.
#[derive(Clone, Copy, Debug, PartialEq, Eq, Structural)]
pub enum IconFault {
    /// No row carries the innkeeper icon byte.
    NoRow,
    /// The row maps to the chat bubble: the B249 regression itself.
    Regression,
    /// The row maps to some other type.
    WrongType,
    /// The row maps to `binder` but the VM's icon table has no texture for it.
    NoTexture,
}

/// The step a verdict is about.
#[derive(Clone, Copy, Debug, PartialEq, Eq, Structural)]
pub enum BinderCheck {
    Hop,
    Menu,
    Icon,
    Select,
    Confirm,
    Bind,
    Line,
}

/// The probe's phases. Times are probe-clock milliseconds.
#[derive(Clone, Copy, Debug, PartialEq, Eq, Structural)]
pub enum Phase {
    Wait,
    /// `.go` issued; settling before the world streams the innkeeper in (step 1).
    Settling { sent_at: u64 },
    /// `GossipHello` sent; waiting for the parsed menu and its push into the VM (step 2).
    Menu { sent_at: u64 },
    /// The bind row selected; waiting for `SMSG_BINDER_CONFIRM` to reach the binder state and the
    /// `CONFIRM_BINDER` event (step 5).
    Confirm { since: u64, events_baseline: i64 },
    /// `ConfirmBinder()` run after clearing the home bind; waiting for a fresh bind that the VM's
    /// `GetBindLocation()` agrees with (step 6).
    Accept { since: u64, sent: bool },
    /// The bind landed; waiting for its chat line (step 7).
    Line { since: u64 },
    Done,
}

/// What the frame loop does or reports, in order.
#[derive(Clone, Copy, Debug, PartialEq, Eq, Structural)]
pub enum BinderEffect {
    /// A `PASS`/`FAIL`/`SKIP` line for a step.
    Verdict(BinderCheck, Outcome),
    /// What step (3) found wrong, reported with its `FAIL`.
    IconFault(IconFault),
    /// Run the `CONFIRM_BINDER`/`CHAT_MSG_SYSTEM` hook chunk (a failure only logs).
    InstallHook,
    /// Say `.go xyz` to the innkeeper's spawn, on her map.
    GoToInnkeeper,
    /// `CMSG_GOSSIP_HELLO` to this innkeeper.
    GossipHello(u64),
    /// `CMSG_GOSSIP_SELECT_OPTION` with the row's wire index.
    SelectOption { guid: u64, option: u32 },
    /// Clear the home bind, so only a fresh bind repopulates it.
    ClearHomeBind,
    /// Run `ConfirmBinder()` in the live VM and hand its outcome to [`BinderProbe::resume`].
    RunConfirmBinder,
    /// `DONE pass=<n> fail=<m>`, then exit.
    Finished { passes: u32, fails: u32 },
}

impl BinderEffect {
    /// The verdict this effect prints, if it is one.
    pub open spec fn outcome(self) -> Option<Outcome> {
        match self {
            BinderEffect::Verdict(_, o) => Some(o),
            _ => None,
        }
    }
}

/// What the frame loop read this frame. Lua reads default the way the trace reads them when the
/// eval fails (a count of 0, an empty text, no lines).
pub struct BinderObs {
    /// The units streamed in, in the world's order.
    pub units: Vec<UnitSighting>,
    /// The parsed gossip menu: whose it is, and its rows in wire order.
    pub gossip_npc: Option<u64>,
    pub options: Vec<GossipOption>,
    /// How many values the live `GetGossipOptions()` returns (flat label/type pairs).
    pub vm_gossip_values: i64,
    /// The icon type string the VM reports for each menu row, in order.
    pub vm_icon_types: Vec<String>,
    /// `BENILLA_GOSSIP_ICONS.binder` in the live VM, `""` when missing.
    pub vm_binder_texture: String,
    /// The innkeeper the binder state has a pending question from.
    pub binder_npc: Option<u64>,
    /// The `CONFIRM_BINDER` log's length and its newest area name.
    pub events: i64,
    pub last_event: String,
    /// The home bind's area id, and its name in the area table (`""` when unbound or unnamed).
    pub home_area: Option<u32>,
    pub bind_name: String,
    /// The live VM's `GetBindLocation()`.
    pub vm_bind_location: String,
    /// The `CHAT_MSG_SYSTEM` lines seen since the hook went in.
    pub system_lines: Vec<String>,
}

/// The probe's state and the identities it discovers along the way.
pub struct BinderProbe {
    pub phase: Phase,
    pub innkeeper: Option<u64>,
    /// The bind row's wire index, as selected.
    pub bind_index: Option<u32>,
    /// The home bind's area before step (6) cleared it.
    pub baseline_area: Option<u32>,
    /// The area name the bind resolved to.
    pub bound_name: String,
    pub passes: u32,
    pub fails: u32,
    pub exited: bool,
    /// `ConfirmBinder()`'s outcome is owed to [`BinderProbe::resume`].
    pub confirming: bool,
}

/// The probe as a value.
pub struct BinderView {
    pub phase: Phase,
    pub innkeeper: Option<u64>,
    pub bind_index: Option<u32>,
    pub baseline_area: Option<u32>,
    pub bound_name: Seq<char>,
    pub passes: u32,
    pub fails: u32,
    pub exited: bool,
    pub confirming: bool,
}

impl View for BinderProbe {
    type V = BinderView;

    open spec fn view(&self) -> BinderView {
        BinderView {
            phase: self.phase,
            innkeeper: self.innkeeper,
            bind_index: self.bind_index,
            baseline_area: self.baseline_area,
            bound_name: self.bound_name@,
            passes: self.passes,
            fails: self.fails,
            exited: self.exited,
            confirming: self.confirming,
        }
    }
}

pub open spec fn passed(p: BinderView) -> BinderView {
    BinderView { passes: (p.passes + 1) as u32, ..p }
}

pub open spec fn failed(p: BinderView) -> BinderView {
    BinderView { fails: (p.fails + 1) as u32, ..p }
}

pub open spec fn goto(p: BinderView, phase: Phase) -> BinderView {
    BinderView { phase, ..p }
}

/// Steps (3) and (4), once the menu is in: the icon verdict, then the select (or its skip).
pub open spec fn icon_and_select(p: BinderView, now: u64, obs: &BinderObs, innkeeper: u64) -> (
    BinderView,
    Seq<BinderEffect>,
) {
    let fail = |why: IconFault|
        (
            goto(failed(p), Phase::Done),
            seq![
                BinderEffect::IconFault(why),
                BinderEffect::Verdict(BinderCheck::Icon, Outcome::Fail),
            ],
        );
    match bind_row(obs.options@) {
        None => fail(IconFault::NoRow),
        Some(pos) => {
            let ty = icon_type_at(obs.vm_icon_types@, pos);
            let opt = obs.options@[pos];
            if ty == regression_type() {
                fail(IconFault::Regression)
            } else if ty != binder_type() {
                fail(IconFault::WrongType)
            } else if obs.vm_binder_texture@.len() == 0 {
                fail(IconFault::NoTexture)
            } else if !contains(lowercase(opt.message@), home_hint()) {
                (
                    goto(passed(p), Phase::Done),
                    seq![
                        BinderEffect::Verdict(BinderCheck::Icon, Outcome::Pass),
                        BinderEffect::Verdict(BinderCheck::Select, Outcome::Skip),
                    ],
                )
            } else {
                (
                    BinderView {
                        bind_index: Some(opt.index),
                        ..goto(passed(p), Phase::Confirm { since: now, events_baseline: obs.events })
                    },
                    seq![
                        BinderEffect::Verdict(BinderCheck::Icon, Outcome::Pass),
                        BinderEffect::SelectOption { guid: innkeeper, option: opt.index },
                    ],
                )
            }
        },
    }
}

/// One frame of the probe.
pub open spec fn next(p: BinderView, now: u64, obs: &BinderObs) -> (BinderView, Seq<BinderEffect>) {
    match p.phase {
        Phase::Wait => (
            goto(p, Phase::Settling { sent_at: now }),
            seq![BinderEffect::InstallHook, BinderEffect::GoToInnkeeper],
        ),
        Phase::Settling { sent_at } => if within(now, sent_at, SETTLE_MS) {
            (p, Seq::empty())
        } else {
            match innkeeper_index(obs.units@) {
                Some(i) => {
                    let guid = obs.units@[i].guid;
                    (
                        BinderView {
                            innkeeper: Some(guid),
                            ..goto(passed(p), Phase::Menu { sent_at: now })
                        },
                        seq![
                            BinderEffect::Verdict(BinderCheck::Hop, Outcome::Pass),
                            BinderEffect::GossipHello(guid),
                        ],
                    )
                },
                None => if waited(now, sent_at, SCAN_TIMEOUT_MS) {
                    (
                        goto(p, Phase::Done),
                        seq![BinderEffect::Verdict(BinderCheck::Hop, Outcome::Skip)],
                    )
                } else {
                    (p, Seq::empty())
                },
            }
        },
        Phase::Menu { sent_at } => match p.innkeeper {
            None => (goto(p, Phase::Done), Seq::empty()),
            Some(innkeeper) => {
                let open = obs.gossip_npc == Some(innkeeper) && obs.options@.len() > 0;
                let pushed = obs.vm_gossip_values == obs.options@.len() * 2;
                if open && pushed {
                    let (q, e) = icon_and_select(passed(p), now, obs, innkeeper);
                    (q, seq![BinderEffect::Verdict(BinderCheck::Menu, Outcome::Pass)] + e)
                } else if waited(now, sent_at, MENU_TIMEOUT_MS) {
                    (
                        goto(failed(p), Phase::Done),
                        seq![BinderEffect::Verdict(BinderCheck::Menu, Outcome::Fail)],
                    )
                } else {
                    (p, Seq::empty())
                }
            },
        },
        Phase::Confirm { since, events_baseline } => match p.innkeeper {
            None => (goto(p, Phase::Done), Seq::empty()),
            Some(innkeeper) => {
                let pending = obs.binder_npc == Some(innkeeper);
                let fired = obs.events > events_baseline;
                if pending && fired && obs.last_event@.len() > 0 {
                    (
                        goto(passed(p), Phase::Accept { since: now, sent: false }),
                        seq![BinderEffect::Verdict(BinderCheck::Confirm, Outcome::Pass)],
                    )
                } else if waited(now, since, CONFIRM_TIMEOUT_MS) {
                    (
                        goto(failed(p), Phase::Done),
                        seq![BinderEffect::Verdict(BinderCheck::Confirm, Outcome::Fail)],
                    )
                } else {
                    (p, Seq::empty())
                }
            },
        },
        Phase::Accept { since, sent } => if !sent {
            (
                BinderView { baseline_area: obs.home_area, confirming: true, ..p },
                seq![BinderEffect::ClearHomeBind, BinderEffect::RunConfirmBinder],
            )
        } else if obs.bind_name@.len() > 0 && obs.vm_bind_location@ == obs.bind_name@ {
            (
                BinderView { bound_name: obs.bind_name@, ..goto(passed(p), Phase::Line { since: now }) },
                seq![BinderEffect::Verdict(BinderCheck::Bind, Outcome::Pass)],
            )
        } else if waited(now, since, BIND_TIMEOUT_MS) {
            (
                goto(failed(p), Phase::Done),
                seq![BinderEffect::Verdict(BinderCheck::Bind, Outcome::Fail)],
            )
        } else {
            (p, Seq::empty())
        },
        Phase::Line { since } => if announced(obs.system_lines@, bound_line_of(p.bound_name)) {
            (
                goto(passed(p), Phase::Done),
                seq![BinderEffect::Verdict(BinderCheck::Line, Outcome::Pass)],
            )
        } else if waited(now, since, LINE_TIMEOUT_MS) {
            (
                goto(failed(p), Phase::Done),
                seq![BinderEffect::Verdict(BinderCheck::Line, Outcome::Fail)],
            )
        } else {
            (p, Seq::empty())
        },
        Phase::Done => if p.exited {
            (p, Seq::empty())
        } else {
            (
                BinderView { exited: true, ..p },
                seq![BinderEffect::Finished { passes: p.passes, fails: p.fails }],
            )
        },
    }
}

/// Where `ConfirmBinder()`'s outcome takes the probe: on to the wait for the bind, or a SKIP when
/// the VM would not run it.
pub open spec fn after_confirm(p: BinderView, now: u64, ok: bool) -> (BinderView, Seq<BinderEffect>) {
    let q = BinderView { confirming: false, ..p };
    if ok {
        (goto(q, Phase::Accept { since: now, sent: true }), Seq::empty())
    } else {
        (goto(q, Phase::Done), seq![BinderEffect::Verdict(BinderCheck::Bind, Outcome::Skip)])
    }
}

/// Room for a frame's verdicts, and no outcome owed.
pub open spec fn ready(p: BinderView) -> bool {
    &&& !p.confirming
    &&& p.passes <= u32::MAX - 2
    &&& p.fails < u32::MAX
}

/// The menu's wire count fits the `u32` the wire carries it in.
pub open spec fn obs_ok(obs: &BinderObs) -> bool {
    obs.options@.len() <= u32::MAX
}

impl BinderProbe {
    /// A fresh probe, waiting to start.
    pub fn new() -> (p: BinderProbe)
        ensures
            p@.phase == Phase::Wait,
            p@.innkeeper is None,
            p@.bind_index is None,
            p@.passes == 0,
            p@.fails == 0,
            !p@.exited,
            p@.baseline_area is None && p@.bound_name.len() == 0 && !p@.confirming,
            ready(p@),
    {
        BinderProbe {
            phase: Phase::Wait,
            innkeeper: None,
            bind_index: None,
            baseline_area: None,
            bound_name: String::new(),
            passes: 0,
            fails: 0,
            exited: false,
            confirming: false,
        }
    }

    /// One frame of the probe.
    pub fn step(&mut self, now: u64, obs: &BinderObs) -> (effects: Vec<BinderEffect>)
        requires
            ready(old(self)@),
            obs_ok(obs),
        ensures
            final(self)@ == next(old(self)@, now, obs).0,
            effects@ == next(old(self)@, now, obs).1,
    {
        let mut out: Vec<BinderEffect> = Vec::new();
        match self.phase {
            Phase::Wait | Phase::Settling { .. } | Phase::Menu { .. } => self.step_menu(
                now,
                obs,
                &mut out,
            ),
            _ => self.step_bind(now, obs, &mut out),
        }
        out
    }

    fn step_menu(&mut self, now: u64, obs: &BinderObs, out: &mut Vec<BinderEffect>)
        requires
            ready(old(self)@),
            obs_ok(obs),
            old(out)@.len() == 0,
            old(self).phase is Wait || old(self).phase is Settling || old(self).phase is Menu,
        ensures
            final(self)@ == next(old(self)@, now, obs).0,
            final(out)@ == next(old(self)@, now, obs).1,
    {
        let ghost start = self@;
        proof {
            lemma_innkeeper_index(obs.units@);
        }
        match self.phase {
            Phase::Wait => {
                self.phase = Phase::Settling { sent_at: now };
                out.push(BinderEffect::InstallHook);
                out.push(BinderEffect::GoToInnkeeper);
            },
            Phase::Settling { sent_at } => {
                if !within_exec(now, sent_at, SETTLE_MS) {
                    match find_innkeeper(&obs.units) {
                        Some(i) => {
                            let guid = obs.units[i].guid;
                            self.passes = self.passes + 1;
                            self.innkeeper = Some(guid);
                            self.phase = Phase::Menu { sent_at: now };
                            out.push(BinderEffect::Verdict(BinderCheck::Hop, Outcome::Pass));
                            out.push(BinderEffect::GossipHello(guid));
                        },
                        None => {
                            if waited_exec(now, sent_at, SCAN_TIMEOUT_MS) {
                                self.phase = Phase::Done;
                                out.push(BinderEffect::Verdict(BinderCheck::Hop, Outcome::Skip));
                            }
                        },
                    }
                }
            },
            Phase::Menu { sent_at } => {
                match self.innkeeper {
                    None => {
                        self.phase = Phase::Done;
                    },
                    Some(innkeeper) => {
                        let n = obs.options.len();
                        let open = obs.gossip_npc == Some(innkeeper) && n > 0;
                        let pushed = obs.vm_gossip_values >= 0 && obs.vm_gossip_values as u64
                            == (n as u64) * 2;
                        if open && pushed {
                            self.passes = self.passes + 1;
                            out.push(BinderEffect::Verdict(BinderCheck::Menu, Outcome::Pass));
                            self.icon_and_select(now, obs, innkeeper, out);
                        } else if waited_exec(now, sent_at, MENU_TIMEOUT_MS) {
                            self.fails = self.fails + 1;
                            self.phase = Phase::Done;
                            out.push(BinderEffect::Verdict(BinderCheck::Menu, Outcome::Fail));
                        }
                    },
                }
            },
            _ => {},
        }
        proof {
            assert(self@ == next(start, now, obs).0);
            assert(out@ =~= next(start, now, obs).1);
        }
    }

    /// Steps (3) and (4) — B249's first half, then the click.
    fn icon_and_select(
        &mut self,
        now: u64,
        obs: &BinderObs,
        innkeeper: u64,
        out: &mut Vec<BinderEffect>,
    )
        requires
            old(self).passes < u32::MAX,
            old(self).fails < u32::MAX,
        ensures
            final(self)@ == icon_and_select(old(self)@, now, obs, innkeeper).0,
            final(out)@ == old(out)@ + icon_and_select(old(self)@, now, obs, innkeeper).1,
    {
        let ghost start = self@;
        let ghost before = out@;
        proof {
            lemma_bind_row(obs.options@);
        }
        let fault = match find_bind_row(&obs.options) {
            None => Some(IconFault::NoRow),
            Some(pos) => {
                let ty = if pos < obs.vm_icon_types.len() {
                    chars_of(obs.vm_icon_types[pos].as_str())
                } else {
                    Vec::new()
                };
                let gossip = vec!['g', 'o', 's', 's', 'i', 'p'];
                let binder = vec!['b', 'i', 'n', 'd', 'e', 'r'];
                assert(gossip@ =~= regression_type());
                assert(binder@ =~= binder_type());
                assert(ty@ =~= icon_type_at(obs.vm_icon_types@, pos as int));
                if same_text(&ty, &gossip) {
                    Some(IconFault::Regression)
                } else if !same_text(&ty, &binder) {
                    Some(IconFault::WrongType)
                } else if chars_of(obs.vm_binder_texture.as_str()).len() == 0 {
                    Some(IconFault::NoTexture)
                } else {
                    let opt = &obs.options[pos];
                    self.passes = self.passes + 1;
                    out.push(BinderEffect::Verdict(BinderCheck::Icon, Outcome::Pass));
                    let lower = to_lowercase(opt.message.as_str());
                    let hint = vec!['h', 'o', 'm', 'e'];
                    assert(hint@ =~= home_hint());
                    if !contains_word(&chars_of(lower.as_str()), &hint) {
                        self.phase = Phase::Done;
                        out.push(BinderEffect::Verdict(BinderCheck::Select, Outcome::Skip));
                    } else {
                        self.bind_index = Some(opt.index);
                        self.phase = Phase::Confirm { since: now, events_baseline: obs.events };
                        out.push(BinderEffect::SelectOption { guid: innkeeper, option: opt.index });
                    }
                    None
                }
            },
        };
        match fault {
            Some(why) => {
                self.fails = self.fails + 1;
                self.phase = Phase::Done;
                out.push(BinderEffect::IconFault(why));
                out.push(BinderEffect::Verdict(BinderCheck::Icon, Outcome::Fail));
            },
            None => {},
        }
        proof {
            assert(self@ == icon_and_select(start, now, obs, innkeeper).0);
            assert(out@ =~= before + icon_and_select(start, now, obs, innkeeper).1);
        }
    }

    fn step_bind(&mut self, now: u64, obs: &BinderObs, out: &mut Vec<BinderEffect>)
        requires
            ready(old(self)@),
            obs_ok(obs),
            old(out)@.len() == 0,
            !(old(self).phase is Wait || old(self).phase is Settling || old(self).phase is Menu),
        ensures
            final(self)@ == next(old(self)@, now, obs).0,
            final(out)@ == next(old(self)@, now, obs).1,
    {
        let ghost start = self@;
        match self.phase {
            Phase::Confirm { since, events_baseline } => {
                match self.innkeeper {
                    None => {
                        self.phase = Phase::Done;
                    },
                    Some(innkeeper) => {
                        let pending = obs.binder_npc == Some(innkeeper);
                        let fired = obs.events > events_baseline;
                        if pending && fired && chars_of(obs.last_event.as_str()).len() > 0 {
                            self.passes = self.passes + 1;
                            self.phase = Phase::Accept { since: now, sent: false };
                            out.push(BinderEffect::Verdict(BinderCheck::Confirm, Outcome::Pass));
                        } else if waited_exec(now, since, CONFIRM_TIMEOUT_MS) {
                            self.fails = self.fails + 1;
                            self.phase = Phase::Done;
                            out.push(BinderEffect::Verdict(BinderCheck::Confirm, Outcome::Fail));
                        }
                    },
                }
            },
            Phase::Accept { since, sent } => {
                if !sent {
                    self.baseline_area = obs.home_area;
                    self.confirming = true;
                    out.push(BinderEffect::ClearHomeBind);
                    out.push(BinderEffect::RunConfirmBinder);
                } else {
                    let name = chars_of(obs.bind_name.as_str());
                    let vm = chars_of(obs.vm_bind_location.as_str());
                    if name.len() > 0 && same_text(&vm, &name) {
                        self.passes = self.passes + 1;
                        self.bound_name = string_of(&name);
                        self.phase = Phase::Line { since: now };
                        out.push(BinderEffect::Verdict(BinderCheck::Bind, Outcome::Pass));
                    } else if waited_exec(now, since, BIND_TIMEOUT_MS) {
                        self.fails = self.fails + 1;
                        self.phase = Phase::Done;
                        out.push(BinderEffect::Verdict(BinderCheck::Bind, Outcome::Fail));
                    }
                }
            },
            Phase::Line { since } => {
                let want = chars_of(bound_line(self.bound_name.as_str()).as_str());
                if any_line_is(&obs.system_lines, &want) {
                    self.passes = self.passes + 1;
                    self.phase = Phase::Done;
                    out.push(BinderEffect::Verdict(BinderCheck::Line, Outcome::Pass));
                } else if waited_exec(now, since, LINE_TIMEOUT_MS) {
                    self.fails = self.fails + 1;
                    self.phase = Phase::Done;
                    out.push(BinderEffect::Verdict(BinderCheck::Line, Outcome::Fail));
                }
            },
            Phase::Done => {
                if !self.exited {
                    self.exited = true;
                    out.push(BinderEffect::Finished { passes: self.passes, fails: self.fails });
                }
            },
            _ => {},
        }
        proof {
            assert(self@ == next(start, now, obs).0);
            assert(out@ =~= next(start, now, obs).1);
        }
    }

    /// `ConfirmBinder()`'s outcome for the [`BinderEffect::RunConfirmBinder`] just handed out.
    pub fn resume(&mut self, now: u64, ok: bool) -> (effects: Vec<BinderEffect>)
        ensures
            final(self)@ == after_confirm(old(self)@, now, ok).0,
            effects@ == after_confirm(old(self)@, now, ok).1,
    {
        let mut out: Vec<BinderEffect> = Vec::new();
        self.confirming = false;
        if ok {
            self.phase = Phase::Accept { since: now, sent: true };
        } else {
            self.phase = Phase::Done;
            out.push(BinderEffect::Verdict(BinderCheck::Bind, Outcome::Skip));
        }
        proof {
            assert(out@ =~= after_confirm(old(self)@, now, ok).1);
        }
        out
    }
}

/// The verdicts a run of effects prints, in order.
pub open spec fn outcomes(e: Seq<BinderEffect>) -> Seq<Option<Outcome>> {
    e.map_values(|x: BinderEffect| x.outcome())
}

/// Everything one frame keeps: the counters move by the verdicts printed; the hop never FAILs;
/// a select names the innkeeper and echoes the wire index of the first innkeeper-icon row, whose
/// label names home, right after that row's icon PASS; the bind passes only on a fresh bind the
/// VM agrees with; the home bind is cleared before `ConfirmBinder()` runs; `DONE` is printed once.
pub open spec fn frame_laws(p: BinderView, now: u64, obs: &BinderObs) -> bool {
    let (q, e) = next(p, now, obs);
    &&& q.passes == p.passes + tally(outcomes(e), Outcome::Pass)
    &&& q.fails == p.fails + tally(outcomes(e), Outcome::Fail)
    &&& forall|i: int|
        0 <= i < e.len() ==> #[trigger] e[i] != BinderEffect::Verdict(BinderCheck::Hop, Outcome::Fail)
    &&& forall|i: int|
        0 <= i < e.len() ==> (#[trigger] e[i] matches BinderEffect::SelectOption { guid, option }
            ==> {
            &&& p.innkeeper == Some(guid)
            &&& bind_row(obs.options@) matches Some(r)
            &&& obs.options@[r].index == option
            &&& obs.options@[r].icon == ICON_INNKEEPER
            &&& contains(lowercase(obs.options@[r].message@), home_hint())
            &&& i > 0 && e[i - 1] == BinderEffect::Verdict(BinderCheck::Icon, Outcome::Pass)
            &&& q.bind_index == Some(option)
        })
    &&& forall|i: int|
        0 <= i < e.len() && #[trigger] e[i] == BinderEffect::Verdict(BinderCheck::Bind, Outcome::Pass)
            ==> {
            &&& p.phase matches Phase::Accept { sent: true, .. }
            &&& obs.bind_name@.len() > 0
            &&& obs.vm_bind_location@ == obs.bind_name@
            &&& q.bound_name == obs.bind_name@
        }
    &&& forall|i: int|
        0 <= i < e.len() && #[trigger] e[i] == BinderEffect::RunConfirmBinder ==> i > 0 && e[i
            - 1] == BinderEffect::ClearHomeBind && q.confirming
    &&& p.exited ==> q.exited
    &&& forall|i: int| 0 <= i < e.len() && #[trigger] e[i] is Finished ==> p.phase is Done
        && !p.exited && q.exited
    &&& line_by_announcement(p, obs, e)
}

/// The bind line is judged by the chat: a `Line` PASS only on a line-watch frame where one of the
/// system lines is exactly `<bound area> is now your home.`.
pub open spec fn line_by_announcement(p: BinderView, obs: &BinderObs, e: Seq<BinderEffect>) -> bool {
    forall|i: int|
        0 <= i < e.len() && #[trigger] e[i] == BinderEffect::Verdict(BinderCheck::Line, Outcome::Pass)
            ==> p.phase is Line && exists|k: int|
            0 <= k < obs.system_lines@.len() && #[trigger] obs.system_lines@[k]@ == bound_line_of(
                p.bound_name,
            )
}

/// The laws of every frame of the binder probe, whatever the world reads back (see
/// [`frame_laws`]): what it counts, what it never fails on, which row it selects and when, when
/// the bind passes, and that the bind is cleared before it is answered.
pub proof fn binder_frame_laws(p: BinderView, now: u64, obs: &BinderObs)
    requires
        ready(p),
        obs_ok(obs),
    ensures
        frame_laws(p, now, obs),
{
    lemma_bind_row(obs.options@);
    let e = next(p, now, obs).1;
    assert(e.len() <= 3);
    lemma_tally_short(outcomes(e), Outcome::Pass);
    lemma_tally_short(outcomes(e), Outcome::Fail);
}

/// `ConfirmBinder()`'s outcome prints at most a SKIP, and never moves the counters.
pub proof fn a_refused_confirm_only_skips(p: BinderView, now: u64, ok: bool)
    ensures
        after_confirm(p, now, ok).0.passes == p.passes,
        after_confirm(p, now, ok).0.fails == p.fails,
        forall|i: int|
            0 <= i < after_confirm(p, now, ok).1.len() ==> #[trigger] after_confirm(p, now, ok).1[i]
                == BinderEffect::Verdict(BinderCheck::Bind, Outcome::Skip),
{
}

/// The bind line is judged by the chat itself: a `Line` PASS is printed only on a line-watch frame
/// where a system line reads `<bound area> is now your home.`; a line-watch frame past the line
/// timeout with no such line prints exactly a `Line` FAIL, counts one more failure and no pass,
/// and ends the run.
pub proof fn the_bind_line_passes_only_when_announced(p: BinderView, now: u64, obs: &BinderObs)
    requires
        ready(p),
        obs_ok(obs),
    ensures
        line_by_announcement(p, obs, next(p, now, obs).1),
        (p.phase matches Phase::Line { since } && now - since > LINE_TIMEOUT_MS && forall|k: int|
            0 <= k < obs.system_lines@.len() ==> #[trigger] obs.system_lines@[k]@ != bound_line_of(
                p.bound_name,
            )) ==> {
            &&& next(p, now, obs).1 == seq![
                BinderEffect::Verdict(BinderCheck::Line, Outcome::Fail),
            ]
            &&& next(p, now, obs).0.fails == p.fails + 1
            &&& next(p, now, obs).0.passes == p.passes
            &&& next(p, now, obs).0.phase is Done
        },
{
    binder_frame_laws(p, now, obs);
}

} // verus!
