//! The openable-item live probe (`WOW_PROBE_CLAM=1`) — the clam instrument: right-click a
//! LOOTABLE item in the bags, and does a loot window actually open?
//!
//! The window is a number here, not a picture. The probe clicks through the live VM's own
//! `UseContainerItem(0, slot)` and reads the loot window, the session guid and the slot's grey
//! lock. Four readings, in order, which is what makes it a regression test:
//!
//! 1. **BEFORE** — the clam in the bag, unclicked: no loot window on any control frame.
//! 2. **OPEN** — after the click: a window whose session is the clam's own item guid.
//! 3. **CLOSED** — `CloseLoot()`: the window goes and the latch clears.
//! 4. **REOPEN** — the same clam clicked again opens a second time.
//!
//! The probe stocks its own copy with `.additem` and always takes it back out before it exits:
//! every way out of the rounds goes through the cleanup.
use crate::probe_clock::{waited, waited_exec};
use crate::text::{chars_of, parse_unsigned, parse_unsigned_at, trim, trim_bounds};
use vstd::prelude::*;

verus! {

/// The default template: "Small Barnacled Clam" — LOOTABLE with no lock.
pub const CLAM_ENTRY: u32 = 7973;
pub const STOCK_TIMEOUT_MS: u64 = 20000;
pub const OPEN_TIMEOUT_MS: u64 = 10000;
pub const CLOSE_TIMEOUT_MS: u64 = 10000;
pub const CLEANUP_TIMEOUT_MS: u64 = 8000;
/// How long the re-click waits after the window goes down: a re-open inside the release round
/// trip has its latch cleared by the release's own answer, so the probe waits a human's reaction
/// time.
pub const REOPEN_SETTLE_MS: u64 = 1000;
/// Frames the BEFORE control samples.
pub const CONTROL_FRAMES: usize = 60;
/// The open rounds: the first click, and the re-click.
pub const ROUNDS: u8 = 2;

/// The template `WOW_PROBE_CLAM=<entry>` aims at: the trimmed value as a `u32` other than 0 and 1
/// (`1` is the plain switch), else the clam.
pub open spec fn entry_of(value: Option<&str>) -> u32 {
    match value {
        Some(s) => match parse_unsigned(trim(s@), u32::MAX as nat) {
            Some(e) => if e != 0 && e != 1 {
                e as u32
            } else {
                CLAM_ENTRY
            },
            None => CLAM_ENTRY,
        },
        None => CLAM_ENTRY,
    }
}

/// Which template the probe opens.
pub fn target_entry(value: Option<&str>) -> (r: u32)
    ensures
        r == entry_of(value),
{
    match value {
        Some(s) => {
            let v = chars_of(s);
            proof {
                assert(v@.subrange(0, v@.len() as int) =~= s@);
            }
            let (a, b) = trim_bounds(&v, 0, v.len());
            match parse_unsigned_at(&v, a, b, u32::MAX as u64) {
                Some(e) => {
                    if e != 0 && e != 1 {
                        e as u32
                    } else {
                        CLAM_ENTRY
                    }
                },
                None => CLAM_ENTRY,
            }
        },
        None => CLAM_ENTRY,
    }
}

/// One backpack slot: the item guid (0 when empty) and the item's template entry, when its object
/// has streamed.
#[derive(Clone, Copy, Debug)]
pub struct PackSlot {
    pub guid: u64,
    pub entry: Option<u32>,
}

/// The first backpack slot holding an item of `entry`.
pub open spec fn clam_slot(pack: Seq<PackSlot>, entry: u32) -> Option<int>
    decreases pack.len(),
{
    if pack.len() == 0 {
        None
    } else if pack[0].guid != 0 && pack[0].entry == Some(entry) {
        Some(0)
    } else {
        match clam_slot(pack.drop_first(), entry) {
            Some(i) => Some(i + 1),
            None => None,
        }
    }
}

proof fn lemma_clam_slot(pack: Seq<PackSlot>, entry: u32)
    ensures
        clam_slot(pack, entry) matches Some(i) ==> 0 <= i < pack.len() && pack[i].guid != 0
            && pack[i].entry == Some(entry),
    decreases pack.len(),
{
    if pack.len() > 0 && !(pack[0].guid != 0 && pack[0].entry == Some(entry)) {
        lemma_clam_slot(pack.drop_first(), entry);
    }
}

/// The probe's own copy of `entry` in the backpack: the first slot holding one.
pub fn find_in_backpack(pack: &Vec<PackSlot>, entry: u32) -> (r: Option<usize>)
    ensures
        r matches Some(i) ==> i < pack@.len() && clam_slot(pack@, entry) == Some(i as int),
        r is None ==> clam_slot(pack@, entry) is None,
{
    proof {
        assert(pack@.skip(0) =~= pack@);
        lemma_clam_slot(pack@, entry);
    }
    let mut i = 0usize;
    while i < pack.len()
        invariant
            i <= pack@.len(),
            clam_slot(pack@, entry) == match clam_slot(pack@.skip(i as int), entry) {
                Some(j) => Some(j + i),
                None => None,
            },
        decreases pack@.len() - i,
    {
        let ghost rest = pack@.skip(i as int);
        proof {
            assert(rest.drop_first() =~= pack@.skip(i + 1));
            assert(rest[0] == pack@[i as int]);
        }
        if pack[i].guid != 0 && pack[i].entry == Some(entry) {
            return Some(i);
        }
        i += 1;
    }
    proof {
        assert(pack@.skip(i as int).len() == 0);
    }
    None
}

/// No backpack slot holds `guid`.
pub open spec fn gone_from(pack: Seq<PackSlot>, guid: u64) -> bool {
    forall|i: int| 0 <= i < pack.len() ==> #[trigger] pack[i].guid != guid
}

/// Whether no backpack slot holds `guid`.
pub fn is_gone(pack: &Vec<PackSlot>, guid: u64) -> (r: bool)
    ensures
        r == gone_from(pack@, guid),
{
    let mut i = 0usize;
    while i < pack.len()
        invariant
            i <= pack@.len(),
            forall|j: int| 0 <= j < i ==> #[trigger] pack@[j].guid != guid,
        decreases pack@.len() - i,
    {
        if pack[i].guid == guid {
            return false;
        }
        i += 1;
    }
    true
}

/// Why the probe could not take all its readings.
#[derive(Clone, Copy, Debug, PartialEq, Eq, Structural)]
pub enum ClamFailure {
    /// No LOOTABLE item with a landed template reached the backpack.
    NotStocked,
    /// A click produced no loot window in this round.
    NoWindow(u8),
    /// The loot window never closed.
    NeverClosed,
    /// The click chunk did not run.
    ClickRefused,
}

/// The probe's phases. Times are probe-clock milliseconds.
#[derive(Clone, Copy, Debug, PartialEq, Eq, Structural)]
pub enum Phase {
    Wait,
    /// `.additem` issued; waiting for the item and its template to reach the bags.
    Stocking { sent_at: u64 },
    /// Sampling with the clam untouched — the control window.
    Before,
    /// The click is queued; waiting for a loot window. `round` counts from 0.
    WaitOpen { since: u64, round: u8 },
    /// `CloseLoot()` called; waiting for the window to go.
    WaitClosed { since: u64, round: u8 },
    /// The window is down; letting the release round trip finish before the re-click.
    Settling { since: u64, round: u8 },
    /// `.additem <entry> -1` sent; waiting for the copy to leave the bags.
    Cleanup { since: u64 },
    Done,
}

/// What the frame loop does or reports, in order.
#[derive(Clone, Copy, Debug, PartialEq, Eq, Structural)]
pub enum ClamEffect {
    /// Turn auto-loot off for the run: the window must survive to be looked at.
    AutoLootOff,
    /// Say `.additem <entry>`.
    Stock(u32),
    /// `UseContainerItem(0, slot)` through the live VM; its outcome goes to
    /// [`ClamProbe::resume`].
    Click(u32),
    /// `CloseLoot()` through the live VM.
    CloseLoot,
    /// Say `.additem <entry> -1`.
    Unstock(u32),
    /// A `FAIL` line.
    Failure(ClamFailure),
    /// The copy is still in the bags after the cleanup wait: remove it by hand.
    Leftover(u32),
    /// Report the readings ([`ClamProbe::summary`]) and the DONE line, then exit.
    Finished,
}

/// What the frame loop read this frame.
pub struct ClamObs {
    /// The backpack's slots, in order.
    pub pack: Vec<PackSlot>,
    /// The target template has landed and opens loot.
    pub template_lootable: bool,
    /// The loot window is up (the live `LootFrame`, else the app-side session).
    pub window_open: bool,
    /// The loot session's guid.
    pub source: Option<u64>,
    /// The clam's bag slot is grey (a pending item operation on it).
    pub grey: bool,
    /// The loot latch.
    pub latch: Option<u64>,
}

/// The probe's state.
pub struct ClamProbe {
    pub phase: Phase,
    /// The template the probe opens.
    pub entry: u32,
    /// The clam's item guid and its 1-based Lua backpack slot.
    pub clam: Option<u64>,
    pub slot: u32,
    /// Whether the window was up on each control frame.
    pub control: Vec<bool>,
    /// Per round: the session the window came up on, and whether the slot was grey then.
    pub opened: Vec<Option<u64>>,
    pub greyed: Vec<bool>,
    /// Per round: whether the latch was clear after the close.
    pub cleared: Vec<bool>,
    pub fails: u32,
    pub exited: bool,
    /// The click's outcome is owed to [`ClamProbe::resume`].
    pub clicking: bool,
}

/// The probe as a value.
pub struct ClamView {
    pub phase: Phase,
    pub entry: u32,
    pub clam: Option<u64>,
    pub slot: u32,
    pub control: Seq<bool>,
    pub opened: Seq<Option<u64>>,
    pub greyed: Seq<bool>,
    pub cleared: Seq<bool>,
    pub fails: u32,
    pub exited: bool,
    pub clicking: bool,
}

impl View for ClamProbe {
    type V = ClamView;

    open spec fn view(&self) -> ClamView {
        ClamView {
            phase: self.phase,
            entry: self.entry,
            clam: self.clam,
            slot: self.slot,
            control: self.control@,
            opened: self.opened@,
            greyed: self.greyed@,
            cleared: self.cleared@,
            fails: self.fails,
            exited: self.exited,
            clicking: self.clicking,
        }
    }
}

pub open spec fn goto(p: ClamView, phase: Phase) -> ClamView {
    ClamView { phase, ..p }
}

/// Take the copy back out and wait for it to go — the one way out of the rounds.
pub open spec fn finish(p: ClamView, now: u64) -> (ClamView, Seq<ClamEffect>) {
    (goto(p, Phase::Cleanup { since: now }), seq![ClamEffect::Unstock(p.entry)])
}

/// One frame of the probe.
pub open spec fn next(p: ClamView, now: u64, obs: &ClamObs) -> (ClamView, Seq<ClamEffect>) {
    match p.phase {
        Phase::Wait => (
            goto(p, Phase::Stocking { sent_at: now }),
            seq![ClamEffect::AutoLootOff, ClamEffect::Stock(p.entry)],
        ),
        Phase::Stocking { sent_at } => match clam_slot(obs.pack@, p.entry) {
            Some(i) if obs.template_lootable => (
                ClamView {
                    clam: Some(obs.pack@[i].guid),
                    slot: (i + 1) as u32,
                    ..goto(p, Phase::Before)
                },
                Seq::empty(),
            ),
            _ => if waited(now, sent_at, STOCK_TIMEOUT_MS) {
                (
                    ClamView { fails: (p.fails + 1) as u32, ..goto(p, Phase::Done) },
                    seq![ClamEffect::Failure(ClamFailure::NotStocked)],
                )
            } else {
                (p, Seq::empty())
            },
        },
        Phase::Before => {
            let q = ClamView { control: p.control.push(obs.window_open), ..p };
            if q.control.len() < CONTROL_FRAMES {
                (q, Seq::empty())
            } else {
                (
                    ClamView { clicking: true, ..goto(q, Phase::WaitOpen { since: now, round: 0 }) },
                    seq![ClamEffect::Click(p.slot)],
                )
            }
        },
        Phase::WaitOpen { since, round } => if obs.window_open {
            (
                ClamView {
                    opened: p.opened.push(obs.source),
                    greyed: p.greyed.push(obs.grey),
                    ..goto(p, Phase::WaitClosed { since: now, round })
                },
                seq![ClamEffect::CloseLoot],
            )
        } else if waited(now, since, OPEN_TIMEOUT_MS) {
            let q = ClamView {
                fails: (p.fails + 1) as u32,
                opened: p.opened.push(None),
                greyed: p.greyed.push(obs.grey),
                ..p
            };
            let (r, e) = finish(q, now);
            (r, seq![ClamEffect::Failure(ClamFailure::NoWindow(round))] + e)
        } else {
            (p, Seq::empty())
        },
        Phase::Settling { since, round } => if now - since >= REOPEN_SETTLE_MS {
            (
                ClamView { clicking: true, ..goto(p, Phase::WaitOpen { since: now, round }) },
                seq![ClamEffect::Click(p.slot)],
            )
        } else {
            (p, Seq::empty())
        },
        Phase::WaitClosed { since, round } => if !obs.window_open {
            let q = ClamView { cleared: p.cleared.push(obs.latch is None), ..p };
            if round + 1 < ROUNDS {
                (goto(q, Phase::Settling { since: now, round: (round + 1) as u8 }), Seq::empty())
            } else {
                finish(q, now)
            }
        } else if waited(now, since, CLOSE_TIMEOUT_MS) {
            let (r, e) = finish(ClamView { fails: (p.fails + 1) as u32, ..p }, now);
            (r, seq![ClamEffect::Failure(ClamFailure::NeverClosed)] + e)
        } else {
            (p, Seq::empty())
        },
        Phase::Cleanup { since } => {
            let gone = p.clam matches Some(g) && gone_from(obs.pack@, g);
            if gone {
                (goto(p, Phase::Done), Seq::empty())
            } else if waited(now, since, CLEANUP_TIMEOUT_MS) {
                (goto(p, Phase::Done), seq![ClamEffect::Leftover(p.entry)])
            } else {
                (p, Seq::empty())
            }
        },
        Phase::Done => if p.exited {
            (p, Seq::empty())
        } else {
            (ClamView { exited: true, ..p }, seq![ClamEffect::Finished])
        },
    }
}

/// The click chunk's outcome: a chunk that did not run is a failure, and the wait for the window
/// goes on regardless.
pub open spec fn after_click(p: ClamView, ok: bool) -> (ClamView, Seq<ClamEffect>) {
    let q = ClamView { clicking: false, ..p };
    if ok {
        (q, Seq::empty())
    } else {
        (
            ClamView { fails: (p.fails + 1) as u32, ..q },
            seq![ClamEffect::Failure(ClamFailure::ClickRefused)],
        )
    }
}

/// Between frames: no click outcome owed, room for a fail, and the readings in step with the
/// phase — the control window has room while it fills, each round has its open reading once the
/// window came up and its close reading once it went, and there are never more than two rounds.
pub open spec fn ready(p: ClamView) -> bool {
    &&& !p.clicking
    &&& p.fails < u32::MAX
    &&& p.control.len() <= CONTROL_FRAMES
    &&& p.opened.len() == p.greyed.len()
    &&& p.opened.len() <= ROUNDS
    &&& p.cleared.len() <= p.opened.len()
    &&& match p.phase {
        Phase::Wait | Phase::Stocking { .. } => p.control.len() == 0 && p.opened.len() == 0
            && p.cleared.len() == 0,
        Phase::Before => p.control.len() < CONTROL_FRAMES && p.opened.len() == 0,
        Phase::WaitOpen { round, .. } => round < ROUNDS && p.opened.len() == round
            && p.cleared.len() == round,
        Phase::WaitClosed { round, .. } => round < ROUNDS && p.opened.len() == round + 1
            && p.cleared.len() == round,
        Phase::Settling { round, .. } => round < ROUNDS && p.opened.len() == round
            && p.cleared.len() == round,
        Phase::Cleanup { .. } | Phase::Done => true,
    }
}

/// Where one round's window came up.
#[derive(Clone, Copy, Debug, PartialEq, Eq, Structural)]
pub enum WindowVerdict {
    /// On the clam's own item guid: PASS.
    OnItem(u64),
    /// On something else: FAIL.
    OnOther(u64),
    /// No window on this click: FAIL.
    NoWindow,
}

/// One round's readings.
#[derive(Clone, Copy, Debug, PartialEq, Eq, Structural)]
pub struct RoundReport {
    pub window: WindowVerdict,
    pub grey: bool,
    /// Whether the latch cleared with the window, when the round got that far.
    pub cleared: Option<bool>,
}

/// The verdict, reading by reading.
pub struct ClamSummary {
    /// Control frames that already showed a window, out of how many.
    pub stray: usize,
    pub control_frames: usize,
    pub before_pass: bool,
    pub rounds: Vec<RoundReport>,
    /// The probe's own failures plus each failed reading.
    pub fails: u32,
}

/// How many control frames showed a window.
pub open spec fn stray_count(control: Seq<bool>) -> nat
    decreases control.len(),
{
    if control.len() == 0 {
        0
    } else {
        stray_count(control.drop_last()) + if control.last() {
            1nat
        } else {
            0nat
        }
    }
}

/// Round `r`'s report, read off the probe.
pub open spec fn round_report(p: ClamView, r: int) -> RoundReport {
    let clam = match p.clam {
        Some(g) => g,
        None => 0,
    };
    RoundReport {
        window: if 0 <= r < p.opened.len() {
            match p.opened[r] {
                Some(s) => if s == clam {
                    WindowVerdict::OnItem(s)
                } else {
                    WindowVerdict::OnOther(s)
                },
                None => WindowVerdict::NoWindow,
            }
        } else {
            WindowVerdict::NoWindow
        },
        grey: 0 <= r < p.greyed.len() && p.greyed[r],
        cleared: if 0 <= r < p.cleared.len() {
            Some(p.cleared[r])
        } else {
            None
        },
    }
}

/// The failures one round's report adds: a window not on the item, and a latch that stayed armed.
pub open spec fn round_fails(rr: RoundReport) -> int {
    (if rr.window is OnItem {
        0int
    } else {
        1int
    }) + (if rr.cleared == Some(false) {
        1int
    } else {
        0int
    })
}

impl ClamProbe {
    /// A fresh probe aimed at `entry`.
    pub fn new(entry: u32) -> (p: ClamProbe)
        ensures
            p@.phase == Phase::Wait,
            p@.entry == entry,
            p@.clam is None,
            p@.control.len() == 0,
            p@.opened.len() == 0,
            p@.cleared.len() == 0,
            p@.fails == 0,
            !p@.exited,
            p@.slot == 0 && p@.greyed.len() == 0 && !p@.clicking,
            ready(p@),
    {
        ClamProbe {
            phase: Phase::Wait,
            entry,
            clam: None,
            slot: 0,
            control: Vec::new(),
            opened: Vec::new(),
            greyed: Vec::new(),
            cleared: Vec::new(),
            fails: 0,
            exited: false,
            clicking: false,
        }
    }

    /// One frame of the probe.
    pub fn step(&mut self, now: u64, obs: &ClamObs) -> (effects: Vec<ClamEffect>)
        requires
            ready(old(self)@),
            obs.pack@.len() < u32::MAX,
        ensures
            final(self)@ == next(old(self)@, now, obs).0,
            effects@ == next(old(self)@, now, obs).1,
    {
        let ghost start = self@;
        let mut out: Vec<ClamEffect> = Vec::new();
        proof {
            lemma_clam_slot(obs.pack@, self.entry);
        }
        match self.phase {
            Phase::Wait => {
                self.phase = Phase::Stocking { sent_at: now };
                out.push(ClamEffect::AutoLootOff);
                out.push(ClamEffect::Stock(self.entry));
            },
            Phase::Stocking { sent_at } => {
                let found = find_in_backpack(&obs.pack, self.entry);
                if found.is_some() && obs.template_lootable {
                    let i = found.unwrap();
                    self.clam = Some(obs.pack[i].guid);
                    self.slot = i as u32 + 1;
                    self.phase = Phase::Before;
                } else if waited_exec(now, sent_at, STOCK_TIMEOUT_MS) {
                    self.fails = self.fails + 1;
                    self.phase = Phase::Done;
                    out.push(ClamEffect::Failure(ClamFailure::NotStocked));
                }
            },
            Phase::Before => {
                self.control.push(obs.window_open);
                if self.control.len() >= CONTROL_FRAMES {
                    self.clicking = true;
                    self.phase = Phase::WaitOpen { since: now, round: 0 };
                    out.push(ClamEffect::Click(self.slot));
                }
            },
            Phase::WaitOpen { since, round } => {
                if obs.window_open {
                    self.opened.push(obs.source);
                    self.greyed.push(obs.grey);
                    self.phase = Phase::WaitClosed { since: now, round };
                    out.push(ClamEffect::CloseLoot);
                } else if waited_exec(now, since, OPEN_TIMEOUT_MS) {
                    self.fails = self.fails + 1;
                    self.opened.push(None);
                    self.greyed.push(obs.grey);
                    out.push(ClamEffect::Failure(ClamFailure::NoWindow(round)));
                    self.phase = Phase::Cleanup { since: now };
                    out.push(ClamEffect::Unstock(self.entry));
                }
            },
            Phase::Settling { since, round } => {
                if now >= since && now - since >= REOPEN_SETTLE_MS {
                    self.clicking = true;
                    self.phase = Phase::WaitOpen { since: now, round };
                    out.push(ClamEffect::Click(self.slot));
                }
            },
            Phase::WaitClosed { since, round } => {
                if !obs.window_open {
                    self.cleared.push(obs.latch.is_none());
                    if round + 1 < ROUNDS {
                        self.phase = Phase::Settling { since: now, round: round + 1 };
                    } else {
                        self.phase = Phase::Cleanup { since: now };
                        out.push(ClamEffect::Unstock(self.entry));
                    }
                } else if waited_exec(now, since, CLOSE_TIMEOUT_MS) {
                    self.fails = self.fails + 1;
                    out.push(ClamEffect::Failure(ClamFailure::NeverClosed));
                    self.phase = Phase::Cleanup { since: now };
                    out.push(ClamEffect::Unstock(self.entry));
                }
            },
            Phase::Cleanup { since } => {
                let gone = match self.clam {
                    Some(g) => is_gone(&obs.pack, g),
                    None => false,
                };
                if gone {
                    self.phase = Phase::Done;
                } else if waited_exec(now, since, CLEANUP_TIMEOUT_MS) {
                    self.phase = Phase::Done;
                    out.push(ClamEffect::Leftover(self.entry));
                }
            },
            Phase::Done => {
                if !self.exited {
                    self.exited = true;
                    out.push(ClamEffect::Finished);
                }
            },
        }
        proof {
            assert(self@.control =~= next(start, now, obs).0.control);
            assert(self@.opened =~= next(start, now, obs).0.opened);
            assert(self@.greyed =~= next(start, now, obs).0.greyed);
            assert(self@.cleared =~= next(start, now, obs).0.cleared);
            assert(self@ == next(start, now, obs).0);
            assert(out@ =~= next(start, now, obs).1);
        }
        out
    }

    /// The click chunk's outcome for the [`ClamEffect::Click`] just handed out.
    pub fn resume(&mut self, ok: bool) -> (effects: Vec<ClamEffect>)
        requires
            old(self)@.fails < u32::MAX,
        ensures
            final(self)@ == after_click(old(self)@, ok).0,
            effects@ == after_click(old(self)@, ok).1,
    {
        let mut out: Vec<ClamEffect> = Vec::new();
        self.clicking = false;
        if !ok {
            self.fails = self.fails + 1;
            out.push(ClamEffect::Failure(ClamFailure::ClickRefused));
        }
        proof {
            assert(out@ =~= after_click(old(self)@, ok).1);
        }
        out
    }

    /// The verdict, one reading at a time: the control, then each round's window and close.
    pub fn summary(&self) -> (r: ClamSummary)
        requires
            self@.fails <= u32::MAX - 5,
        ensures
            r.stray == stray_count(self@.control),
            r.control_frames == self@.control.len(),
            r.before_pass == (stray_count(self@.control) == 0 && self@.control.len() > 0),
            r.rounds@ == seq![round_report(self@, 0), round_report(self@, 1)],
            r.fails == self@.fails + (if r.before_pass {
                0int
            } else {
                1int
            }) + round_fails(round_report(self@, 0)) + round_fails(round_report(self@, 1)),
    {
        let mut stray = 0usize;
        let mut i = 0usize;
        while i < self.control.len()
            invariant
                i <= self@.control.len(),
                stray == stray_count(self@.control.take(i as int)),
                stray <= i,
            decreases self@.control.len() - i,
        {
            proof {
                assert(self@.control.take(i + 1).drop_last() =~= self@.control.take(i as int));
            }
            if self.control[i] {
                stray = stray + 1;
            }
            i += 1;
        }
        proof {
            assert(self@.control.take(self@.control.len() as int) =~= self@.control);
        }
        let frames = self.control.len();
        let before_pass = stray == 0 && frames > 0;
        let mut fails = self.fails;
        if !before_pass {
            fails = fails + 1;
        }
        let clam = match self.clam {
            Some(g) => g,
            None => 0,
        };
        let mut rounds: Vec<RoundReport> = Vec::new();
        let mut r = 0usize;
        while r < 2
            invariant
                r <= 2,
                rounds@.len() == r,
                forall|k: int| 0 <= k < r ==> #[trigger] rounds@[k] == round_report(self@, k),
                clam == match self@.clam {
                    Some(g) => g,
                    None => 0,
                },
                fails == self@.fails + (if before_pass {
                    0int
                } else {
                    1int
                }) + (if r > 0 {
                    round_fails(round_report(self@, 0))
                } else {
                    0int
                }) + (if r > 1 {
                    round_fails(round_report(self@, 1))
                } else {
                    0int
                }),
                self@.fails <= u32::MAX - 5,
            decreases 2 - r,
        {
            let window = if r < self.opened.len() {
                match self.opened[r] {
                    Some(s) => {
                        if s == clam {
                            WindowVerdict::OnItem(s)
                        } else {
                            WindowVerdict::OnOther(s)
                        }
                    },
                    None => WindowVerdict::NoWindow,
                }
            } else {
                WindowVerdict::NoWindow
            };
            let grey = r < self.greyed.len() && self.greyed[r];
            let cleared = if r < self.cleared.len() {
                Some(self.cleared[r])
            } else {
                None
            };
            let rr = RoundReport { window, grey, cleared };
            assert(rr == round_report(self@, r as int));
            match window {
                WindowVerdict::OnItem(_) => {},
                _ => {
                    fails = fails + 1;
                },
            }
            if cleared == Some(false) {
                fails = fails + 1;
            }
            rounds.push(rr);
            r += 1;
        }
        assert(rounds@ =~= seq![round_report(self@, 0), round_report(self@, 1)]);
        ClamSummary { stray, control_frames: frames, before_pass, rounds, fails }
    }
}

/// The probe never leaves without taking its copy back: once a clam is stocked, every way to
/// `Done` runs through the cleanup, and the take-back is sent exactly on entering it.
pub proof fn every_exit_cleans_up(p: ClamView, now: u64, obs: &ClamObs)
    requires
        ready(p),
    ensures
        next(p, now, obs).0.phase is Done ==> p.phase is Stocking || p.phase is Cleanup
            || p.phase is Done,
        next(p, now, obs).0.phase is Cleanup && !(p.phase is Cleanup) ==> next(
            p,
            now,
            obs,
        ).1.last() == ClamEffect::Unstock(p.entry),
        forall|i: int|
            0 <= i < next(p, now, obs).1.len() && #[trigger] next(p, now, obs).1[i] is Unstock
                ==> next(p, now, obs).0.phase is Cleanup && !(p.phase is Cleanup),
{
}

/// The readings stay in step with the rounds: a frame keeps the probe's bookkeeping (there are
/// never more than two rounds, each round's open reading lands before its close reading), and
/// the first click waits for the whole control window.
pub proof fn rounds_stay_in_step(p: ClamView, now: u64, obs: &ClamObs)
    requires
        ready(p),
    ensures
        ready(ClamView { clicking: false, fails: p.fails, ..next(p, now, obs).0 }),
        forall|i: int|
            0 <= i < next(p, now, obs).1.len() && #[trigger] next(p, now, obs).1[i] is Click
                ==> next(p, now, obs).0.clicking && (p.phase is Before ==> next(
                p,
                now,
                obs,
            ).0.control.len() == CONTROL_FRAMES),
{
}

} // verus!
