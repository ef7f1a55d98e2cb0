//! The battleground probe's phase machine: `Wait` → (levelled, hopped) `Hopped` → (`.debug bg`
//! sent) `Toggled` → (the reply read) `Scanning` → (battlemaster greeted) `Greeted` → (joined)
//! `Joined` → (the port taken) `Ported` → (the map reached) `Inside` → (the flag leg) `FlagHop` →
//! `FlagUsed` → (`.die`) `Dying` → (released) `Graveyard` → `Done`, and the exit that waits for the
//! leave to land.
//!
//! The frame loop is the caller's. Each frame it installs the event tap when
//! [`BgRun::wants_tap`] says so, drains the tap when [`BgRun::wants_drain`] says so, reads a
//! [`BgObs`], calls [`BgRun::step`], performs the [`BgEffect`]s, and then runs
//! [`BgRun::exit_step`].
use crate::bg::{
    decline_slot, drain_tap_gone, drain_text, find_entity, find_ready_slot, first_match,
    read_drain, ready_slot, testing_of, testing_reading, BgEntity, DrainRead, ARENAS, FLAG_SAMPLES,
    GHOST_SAMPLES, MAX_REJOINS, PLAYER_FLAGS_GM, QUEUE_LEVEL, CENSUS_EVERY_MS,
    GHOST_SAMPLE_EVERY_MS, FLAG_SAMPLE_EVERY_MS, GM_DROP_WAIT_MS, HOP_SETTLE_MS,
    TOGGLE_REPLY_WINDOW_MS, SCAN_TIMEOUT_MS, LIST_TIMEOUT_MS, REJOIN_AFTER_MS, READY_TIMEOUT_MS,
    PORT_TIMEOUT_MS, REJOIN_SETTLE_MS, FLAG_HOP_SETTLE_MS, FLAG_TIMEOUT_MS, DEATH_TIMEOUT_MS,
    LEAVE_GRACE_MS,
};
use crate::bg_queue::{find_queued, first_queued, QueueStatus};
use crate::probe_clock::{waited, waited_exec, within, within_exec};
use crate::text::{chars_of, concat_text, string_of};
use vstd::prelude::*;

verus! {

/// Why the run ended early.
#[derive(Clone, Copy, Debug, PartialEq, Eq, Structural)]
pub enum BgFailure {
    /// GM mode is still on: every objective would fail silently.
    GmStillOn,
    /// `.debug bg` reads off after two sends.
    TestingStaysOff,
    /// The arena's battlemaster never streamed in.
    NoBattlemaster,
    /// No battlefield list after the hello.
    NoList,
    /// `AcceptBattlefieldPort` raised.
    PortRaised,
    /// No VM to take the port through.
    NoVmForPort,
    /// No slot reached "ready"; whether the lever was read back on says where to look.
    NotReady { testing_confirmed: bool },
    /// The port did not land on the arena's map: the map it is still on.
    StillOffMap(u32),
    /// The VM went away inside.
    VmGone,
    /// The battlemaster list went away before the rejoin.
    ListGone,
    /// The flag never streamed in; the run goes on to the graveyard.
    FlagNeverStreamed,
    /// Still alive after `.die`.
    StillAlive,
}

/// A GM dot-command on the chat wire.
#[derive(Clone, Copy, Debug, PartialEq, Eq, Structural)]
pub enum Gm {
    Revive,
    /// `.levelup <n>`.
    LevelUp(u32),
    /// `.unaura 26013`: clear Deserter, or the join is refused outright.
    ClearDeserter,
    /// `.go xyz` to the arena's battlemaster.
    GoToBattlemaster,
    /// `.debug bg` — the realm's testing toggle.
    DebugBg,
    /// `.go xyz` to the flag, on the arena's map.
    GoToFlag,
    Die,
    /// `.go xyz` back to the battlemaster alcove on map 0: the leave.
    GoHome,
}

/// What the probe says about the testing lever.
#[derive(Clone, Copy, Debug, PartialEq, Eq, Structural)]
pub enum TestingNote {
    /// The reply read back "on".
    Confirmed,
    /// No reply within the window; carried forward as unknown.
    Unread,
    /// The send turned it off; sending once more.
    TurnedOff,
    /// This many toggles were sent: one more puts the lever back.
    Restoring(u32),
    /// This many toggles were sent: the lever is already as found.
    AsFound(u32),
}

/// What the frame loop does or reports, in order.
#[derive(Clone, Copy, Debug, PartialEq, Eq, Structural)]
pub enum BgEffect {
    Gm(Gm),
    /// A `FAILURE` line.
    Failure(BgFailure),
    Testing(TestingNote),
    /// `CMSG_BATTLEMASTER_HELLO`.
    Hello(u64),
    /// `CMSG_BATTLEMASTER_JOIN` for this map, instance 0, alone.
    Join { battlemaster: u64, map_id: u32 },
    /// `AcceptBattlefieldPort(slot, 1)` through the VM; its outcome goes to
    /// [`BgRun::port_taken`].
    AcceptPort(u32),
    /// `AcceptBattlefieldPort(slot, 0)`: the queue's own decline, for a rejoin.
    DeclinePort(u32),
    /// The rejoin count.
    Rejoin(u32),
    /// The port landed on the arena's map.
    Entered,
    /// A census sample, `t` milliseconds after entry; its events are [`BgRun::events`].
    Census { t: u64, sample: u32 },
    /// `CMSG_GAMEOBJ_USE` on the flag.
    UseFlag(u64),
    /// A flag-leg sample.
    FlagSample { t: u64 },
    /// `CMSG_REPOP_REQUEST`.
    Repop,
    /// A ghost-leg sample.
    GhostSample { t: u64 },
    /// `AcceptAreaSpiritHeal()` through the VM.
    AcceptSpiritHeal,
    /// The report: the two battleground windows, read then toggled, and `LeaveBattlefield()`.
    Report,
    /// Exit the app; `stranded` when the leave had not landed within the grace.
    Exit { stranded: bool },
}

/// The probe's phases. Times are probe-clock milliseconds.
#[derive(Clone, Copy, Debug, PartialEq, Eq, Structural)]
pub enum Phase {
    Wait,
    Hopped { sent_at: u64 },
    Toggled { sent_at: u64, corrected: bool },
    Scanning { since: u64 },
    Greeted { master: u64, sent_at: u64 },
    Joined { sent_at: u64 },
    Rejoining { at: u64 },
    Ported { sent_at: u64 },
    Inside { entered_at: u64, next_census: u64, samples: u32 },
    FlagHop { at: u64 },
    FlagUsed { at: u64, samples: u32 },
    Dying { sent_at: u64 },
    Graveyard { released_at: u64, next_sample: u64, samples: u32 },
    Done,
}

/// What the frame loop read this frame.
pub struct BgObs {
    pub player_flags: u32,
    /// The body's level, `None` until the field is in.
    pub level: Option<u32>,
    /// There is a UI VM this frame.
    pub has_vm: bool,
    /// The tap drain's reading, taken when [`BgRun::wants_drain`] said so and there is a VM.
    pub drain: Option<DrainRead>,
    pub entities: Vec<BgEntity>,
    /// The battlemaster whose battlefield list landed.
    pub list_from: Option<u64>,
    pub slots: Vec<Option<QueueStatus>>,
    /// The current map, `None` when unknown.
    pub map: Option<u32>,
    pub dead: bool,
}

/// The probe's state.
pub struct BgRun {
    /// Which of [`ARENAS`] the run is for.
    pub arena: usize,
    /// How many census samples to take.
    pub samples_target: u32,
    pub phase: Phase,
    pub tap_installed: bool,
    pub tap_broken: bool,
    /// How many `.debug bg` toggles this run has sent — parity, not state.
    pub toggles_sent: u32,
    pub testing_seen: Option<bool>,
    pub testing_confirmed: bool,
    pub rejoins: u32,
    pub exited: bool,
    pub done_at: Option<u64>,
    pub waiting_since: Option<u64>,
    /// Events drained before the first census, carried into it.
    pub pending_events: String,
    /// The events the last census, flag or ghost line reports.
    pub events: String,
    /// `AcceptBattlefieldPort`'s outcome is owed to [`BgRun::port_taken`].
    pub accepting: bool,
}

/// The probe as a value.
pub struct BgView {
    pub arena: usize,
    pub samples_target: u32,
    pub phase: Phase,
    pub tap_installed: bool,
    pub tap_broken: bool,
    pub toggles_sent: u32,
    pub testing_seen: Option<bool>,
    pub testing_confirmed: bool,
    pub rejoins: u32,
    pub exited: bool,
    pub done_at: Option<u64>,
    pub waiting_since: Option<u64>,
    pub pending_events: Seq<char>,
    pub events: Seq<char>,
    pub accepting: bool,
}

impl View for BgRun {
    type V = BgView;

    open spec fn view(&self) -> BgView {
        BgView {
            arena: self.arena,
            samples_target: self.samples_target,
            phase: self.phase,
            tap_installed: self.tap_installed,
            tap_broken: self.tap_broken,
            toggles_sent: self.toggles_sent,
            testing_seen: self.testing_seen,
            testing_confirmed: self.testing_confirmed,
            rejoins: self.rejoins,
            exited: self.exited,
            done_at: self.done_at,
            waiting_since: self.waiting_since,
            pending_events: self.pending_events@,
            events: self.events@,
            accepting: self.accepting,
        }
    }
}

/// The arena's map, battlemaster entry and flag entry (`0`: none).
pub open spec fn arena_map(p: BgView) -> u32 {
    ARENAS@[p.arena as int].1
}

pub open spec fn arena_master(p: BgView) -> u32 {
    ARENAS@[p.arena as int].2
}

pub open spec fn arena_flag(p: BgView) -> u32 {
    ARENAS@[p.arena as int].3
}

pub open spec fn goto(p: BgView, phase: Phase) -> BgView {
    BgView { phase, ..p }
}

/// Send `.debug bg` and count it.
pub open spec fn toggled(p: BgView) -> (BgView, Seq<BgEffect>) {
    (BgView { toggles_sent: (p.toggles_sent + 1) as u32, ..p }, seq![BgEffect::Gm(Gm::DebugBg)])
}

/// Put the lever back if this run moved it: one more toggle when the count is odd.
pub open spec fn leave_as_found(p: BgView) -> (BgView, Seq<BgEffect>) {
    if p.toggles_sent % 2 == 1 {
        let (q, e) = toggled(p);
        (q, seq![BgEffect::Testing(TestingNote::Restoring(p.toggles_sent))] + e)
    } else {
        (p, seq![BgEffect::Testing(TestingNote::AsFound(p.toggles_sent))])
    }
}

/// End the run, restoring the lever first.
pub open spec fn finish(p: BgView) -> (BgView, Seq<BgEffect>) {
    let (q, e) = leave_as_found(p);
    (goto(q, Phase::Done), e)
}

/// A `FAILURE` line, then the end.
pub open spec fn fail(p: BgView, why: BgFailure) -> (BgView, Seq<BgEffect>) {
    let (q, e) = finish(p);
    (q, seq![BgEffect::Failure(why)] + e)
}

/// The drain's text this frame, and the tap flag after it.
pub open spec fn drained(p: BgView, obs: &BgObs) -> (Seq<char>, bool) {
    match &obs.drain {
        Some(d) => (drain_text(d), p.tap_installed && !drain_tap_gone(d)),
        None => (Seq::empty(), p.tap_installed),
    }
}

/// Whether this frame's step reads the tap.
pub open spec fn drain_wanted(p: BgView, now: u64) -> bool {
    match p.phase {
        Phase::Toggled { .. } => true,
        Phase::Inside { next_census, .. } => now >= next_census,
        Phase::FlagUsed { at, samples } => now - at >= (samples + 1) * FLAG_SAMPLE_EVERY_MS,
        Phase::Graveyard { next_sample, .. } => now >= next_sample,
        _ => false,
    }
}

/// One frame of the probe.
pub open spec fn next(p: BgView, now: u64, obs: &BgObs) -> (BgView, Seq<BgEffect>) {
    match p.phase {
        Phase::Wait => if obs.player_flags & PLAYER_FLAGS_GM != 0 {
            let since = match p.waiting_since {
                Some(s) => s,
                None => now,
            };
            let q = BgView { waiting_since: Some(since), ..p };
            if within(now, since, GM_DROP_WAIT_MS) {
                (q, Seq::empty())
            } else {
                fail(q, BgFailure::GmStillOn)
            }
        } else {
            match obs.level {
                None => (p, seq![BgEffect::Gm(Gm::Revive)]),
                Some(level) => (
                    goto(p, Phase::Hopped { sent_at: now }),
                    seq![BgEffect::Gm(Gm::Revive)] + (if level < QUEUE_LEVEL {
                        seq![BgEffect::Gm(Gm::LevelUp((QUEUE_LEVEL - level) as u32))]
                    } else {
                        Seq::empty()
                    }) + seq![BgEffect::Gm(Gm::ClearDeserter)] + seq![
                        BgEffect::Gm(Gm::GoToBattlemaster),
                    ],
                ),
            }
        },
        Phase::Hopped { sent_at } => if within(now, sent_at, HOP_SETTLE_MS) {
            (p, Seq::empty())
        } else {
            let (q, e) = toggled(p);
            (goto(q, Phase::Toggled { sent_at: now, corrected: false }), e)
        },
        Phase::Toggled { sent_at, corrected } => {
            let q = if obs.has_vm {
                let (seen, tap) = drained(p, obs);
                BgView {
                    tap_installed: tap,
                    testing_seen: match testing_of(seen) {
                        Some(b) => Some(b),
                        None => p.testing_seen,
                    },
                    pending_events: p.pending_events + seen,
                    ..p
                }
            } else {
                p
            };
            let r = BgView { testing_seen: None, ..q };
            match q.testing_seen {
                Some(true) => (
                    BgView { testing_confirmed: true, ..goto(r, Phase::Scanning { since: now }) },
                    seq![BgEffect::Testing(TestingNote::Confirmed)],
                ),
                Some(false) => if corrected {
                    fail(r, BgFailure::TestingStaysOff)
                } else {
                    let (s, e) = toggled(r);
                    (
                        goto(s, Phase::Toggled { sent_at: now, corrected: true }),
                        seq![BgEffect::Testing(TestingNote::TurnedOff)] + e,
                    )
                },
                None => if waited(now, sent_at, TOGGLE_REPLY_WINDOW_MS) {
                    (
                        goto(r, Phase::Scanning { since: now }),
                        seq![BgEffect::Testing(TestingNote::Unread)],
                    )
                } else {
                    (r, Seq::empty())
                },
            }
        },
        Phase::Scanning { since } => match first_match(obs.entities@, arena_master(p), false) {
            Some(i) => {
                let g = obs.entities@[i].guid;
                (goto(p, Phase::Greeted { master: g, sent_at: now }), seq![BgEffect::Hello(g)])
            },
            None => if waited(now, since, SCAN_TIMEOUT_MS) {
                fail(p, BgFailure::NoBattlemaster)
            } else {
                (p, Seq::empty())
            },
        },
        Phase::Greeted { master, sent_at } => if obs.list_from == Some(master) {
            (
                goto(p, Phase::Joined { sent_at: now }),
                seq![BgEffect::Join { battlemaster: master, map_id: arena_map(p) }],
            )
        } else if waited(now, sent_at, LIST_TIMEOUT_MS) {
            fail(p, BgFailure::NoList)
        } else {
            (p, Seq::empty())
        },
        Phase::Joined { sent_at } => match ready_slot(obs.slots@, arena_map(p)) {
            Some(i) => if obs.has_vm {
                (BgView { accepting: true, ..p }, seq![BgEffect::AcceptPort((i + 1) as u32)])
            } else {
                fail(p, BgFailure::NoVmForPort)
            },
            None => if waited(now, sent_at, REJOIN_AFTER_MS) && p.rejoins < MAX_REJOINS {
                let n = (p.rejoins + 1) as u32;
                (
                    BgView { rejoins: n, ..goto(p, Phase::Rejoining { at: now }) },
                    seq![BgEffect::Rejoin(n)] + if obs.has_vm {
                        seq![BgEffect::DeclinePort(decline_slot(obs.slots@))]
                    } else {
                        Seq::empty()
                    },
                )
            } else if waited(now, sent_at, READY_TIMEOUT_MS) {
                fail(p, BgFailure::NotReady { testing_confirmed: p.testing_confirmed })
            } else {
                (p, Seq::empty())
            },
        },
        Phase::Rejoining { at } => if within(now, at, REJOIN_SETTLE_MS) {
            (p, Seq::empty())
        } else {
            match obs.list_from {
                None => fail(p, BgFailure::ListGone),
                Some(master) => (
                    goto(p, Phase::Joined { sent_at: now }),
                    seq![BgEffect::Join { battlemaster: master, map_id: arena_map(p) }],
                ),
            }
        },
        Phase::Ported { sent_at } => {
            let here = match obs.map {
                Some(m) => m,
                None => 0,
            };
            if here == arena_map(p) {
                (
                    goto(
                        p,
                        Phase::Inside {
                            entered_at: now,
                            next_census: (now + CENSUS_EVERY_MS) as u64,
                            samples: 0,
                        },
                    ),
                    seq![BgEffect::Entered],
                )
            } else if waited(now, sent_at, PORT_TIMEOUT_MS) {
                fail(p, BgFailure::StillOffMap(here))
            } else {
                (p, Seq::empty())
            }
        },
        Phase::Inside { entered_at, next_census, samples } => if now < next_census {
            (p, Seq::empty())
        } else if !obs.has_vm {
            fail(p, BgFailure::VmGone)
        } else {
            let (seen, tap) = drained(p, obs);
            let n = (samples + 1) as u32;
            let q = BgView {
                tap_installed: tap,
                pending_events: Seq::empty(),
                events: p.pending_events + seen,
                ..p
            };
            let e0 = seq![BgEffect::Census { t: (now - entered_at) as u64, sample: n }];
            let (r, e1) = if n == 1 {
                leave_as_found(q)
            } else {
                (q, Seq::empty())
            };
            if n >= p.samples_target {
                if arena_flag(p) != 0 {
                    (goto(r, Phase::FlagHop { at: now }), e0 + e1 + seq![BgEffect::Gm(Gm::GoToFlag)])
                } else {
                    (goto(r, Phase::Dying { sent_at: now }), e0 + e1 + seq![BgEffect::Gm(Gm::Die)])
                }
            } else {
                (
                    goto(
                        r,
                        Phase::Inside {
                            entered_at,
                            next_census: (now + CENSUS_EVERY_MS) as u64,
                            samples: n,
                        },
                    ),
                    e0 + e1,
                )
            }
        },
        Phase::FlagHop { at } => if within(now, at, FLAG_HOP_SETTLE_MS) {
            (p, Seq::empty())
        } else if arena_flag(p) == 0 {
            finish(p)
        } else {
            match first_match(obs.entities@, arena_flag(p), true) {
                Some(i) => {
                    let g = obs.entities@[i].guid;
                    (goto(p, Phase::FlagUsed { at: now, samples: 0 }), seq![BgEffect::UseFlag(g)])
                },
                None => if waited(now, at, FLAG_TIMEOUT_MS) {
                    (
                        goto(p, Phase::Dying { sent_at: now }),
                        seq![BgEffect::Failure(BgFailure::FlagNeverStreamed)] + seq![BgEffect::Gm(Gm::Die)],
                    )
                } else {
                    (p, Seq::empty())
                },
            }
        },
        Phase::FlagUsed { at, samples } => if now - at < (samples + 1) * FLAG_SAMPLE_EVERY_MS {
            (p, Seq::empty())
        } else if !obs.has_vm {
            fail(p, BgFailure::VmGone)
        } else {
            let (seen, tap) = drained(p, obs);
            let n = (samples + 1) as u32;
            let q = BgView { tap_installed: tap, events: seen, ..p };
            let e0 = seq![BgEffect::FlagSample { t: (now - at) as u64 }];
            if n >= FLAG_SAMPLES {
                (goto(q, Phase::Dying { sent_at: now }), e0 + seq![BgEffect::Gm(Gm::Die)])
            } else {
                (goto(q, Phase::FlagUsed { at, samples: n }), e0)
            }
        },
        Phase::Dying { sent_at } => if obs.dead {
            (
                goto(
                    p,
                    Phase::Graveyard {
                        released_at: now,
                        next_sample: (now + GHOST_SAMPLE_EVERY_MS) as u64,
                        samples: 0,
                    },
                ),
                seq![BgEffect::Repop],
            )
        } else if waited(now, sent_at, DEATH_TIMEOUT_MS) {
            fail(p, BgFailure::StillAlive)
        } else {
            (p, Seq::empty())
        },
        Phase::Graveyard { released_at, next_sample, samples } => if now < next_sample {
            (p, Seq::empty())
        } else if !obs.has_vm {
            finish(p)
        } else {
            let (seen, tap) = drained(p, obs);
            let n = (samples + 1) as u32;
            let q = BgView { tap_installed: tap, events: seen, ..p };
            let e0 = seq![BgEffect::GhostSample { t: (now - released_at) as u64 }];
            if n >= GHOST_SAMPLES {
                let (r, e1) = finish(q);
                (
                    r,
                    e0 + seq![BgEffect::AcceptSpiritHeal] + seq![BgEffect::Report] + seq![
                        BgEffect::Gm(Gm::GoHome),
                    ] + e1,
                )
            } else {
                (
                    goto(
                        q,
                        Phase::Graveyard {
                            released_at,
                            next_sample: (now + GHOST_SAMPLE_EVERY_MS) as u64,
                            samples: n,
                        },
                    ),
                    e0,
                )
            }
        },
        Phase::Done => (p, Seq::empty()),
    }
}

/// Where `AcceptBattlefieldPort`'s outcome takes the probe.
pub open spec fn after_port(p: BgView, now: u64, ok: bool) -> (BgView, Seq<BgEffect>) {
    let q = BgView { accepting: false, ..p };
    if ok {
        (goto(q, Phase::Ported { sent_at: now }), Seq::empty())
    } else {
        fail(q, BgFailure::PortRaised)
    }
}

/// The exit, once `Done`: leave first, confirmed by the map changing, with the grace as the
/// backstop.
pub open spec fn exit_next(p: BgView, now: u64, map: Option<u32>) -> (BgView, Seq<BgEffect>) {
    if !(p.phase is Done) || p.exited {
        (p, Seq::empty())
    } else {
        let since = match p.done_at {
            Some(s) => s,
            None => now,
        };
        let q = BgView { done_at: Some(since), ..p };
        let left = !(map == Some(arena_map(p)));
        if !left && within(now, since, LEAVE_GRACE_MS) {
            (q, Seq::empty())
        } else {
            (BgView { exited: true, ..q }, seq![BgEffect::Exit { stranded: !left }])
        }
    }
}

/// Room for a frame's toggles and rejoins, a known arena, no port outcome owed, and a clock far
/// from its end.
pub open spec fn ready(p: BgView, now: u64) -> bool {
    &&& p.arena < 3
    &&& !p.accepting
    &&& p.toggles_sent <= u32::MAX - 3
    &&& now <= u64::MAX - CENSUS_EVERY_MS
    &&& match p.phase {
        Phase::Inside { samples, entered_at, next_census } => samples < u32::MAX && entered_at
            <= next_census,
        Phase::FlagUsed { samples, .. } => samples < FLAG_SAMPLES,
        Phase::Graveyard { samples, released_at, next_sample } => samples < u32::MAX && released_at
            <= next_sample,
        _ => true,
    }
}

/// The queue's slots fit the `u32` slot numbers the verbs take.
pub open spec fn obs_ok(obs: &BgObs) -> bool {
    obs.slots@.len() < u32::MAX
}

impl BgRun {
    /// A fresh run for `arena`, taking `samples_target` census samples.
    pub fn new(arena: usize, samples_target: u32) -> (r: BgRun)
        requires
            arena < 3,
        ensures
            r@ == (BgView {
                arena,
                samples_target,
                phase: Phase::Wait,
                tap_installed: false,
                tap_broken: false,
                toggles_sent: 0,
                testing_seen: None,
                testing_confirmed: false,
                rejoins: 0,
                exited: false,
                done_at: None,
                waiting_since: None,
                pending_events: Seq::empty(),
                events: Seq::empty(),
                accepting: false,
            }),
    {
        BgRun {
            arena,
            samples_target,
            phase: Phase::Wait,
            tap_installed: false,
            tap_broken: false,
            toggles_sent: 0,
            testing_seen: None,
            testing_confirmed: false,
            rejoins: 0,
            exited: false,
            done_at: None,
            waiting_since: None,
            pending_events: string_of(&Vec::new()),
            events: string_of(&Vec::new()),
            accepting: false,
        }
    }

    /// The event tap is not (or no longer) in: install it when there is a VM.
    pub fn wants_tap(&self) -> (r: bool)
        ensures
            r == !self@.tap_installed,
    {
        !self.tap_installed
    }

    /// The tap install's outcome: in either way; a raise marks it broken for good.
    pub fn tap_result(&mut self, ok: bool)
        ensures
            final(self)@ == (BgView {
                tap_installed: true,
                tap_broken: old(self)@.tap_broken || !ok,
                ..old(self)@
            }),
    {
        self.tap_installed = true;
        if !ok {
            self.tap_broken = true;
        }
    }

    /// Whether this frame's step reads the event tap.
    pub fn wants_drain(&self, now: u64) -> (r: bool)
        requires
            ready(self@, now),
        ensures
            r == drain_wanted(self@, now),
    {
        match self.phase {
            Phase::Toggled { .. } => true,
            Phase::Inside { next_census, .. } => now >= next_census,
            Phase::FlagUsed { at, samples } => now >= at && now - at >= (samples as u64 + 1)
                * FLAG_SAMPLE_EVERY_MS,
            Phase::Graveyard { next_sample, .. } => now >= next_sample,
            _ => false,
        }
    }

    fn toggle(&mut self, out: &mut Vec<BgEffect>)
        requires
            old(self).toggles_sent < u32::MAX,
        ensures
            final(self)@ == toggled(old(self)@).0,
            final(out)@ == old(out)@ + toggled(old(self)@).1,
    {
        self.toggles_sent = self.toggles_sent + 1;
        out.push(BgEffect::Gm(Gm::DebugBg));
        proof {
            assert(final(out)@ =~= old(out)@ + toggled(old(self)@).1);
        }
    }

    fn leave_as_found(&mut self, out: &mut Vec<BgEffect>)
        requires
            old(self).toggles_sent < u32::MAX,
        ensures
            final(self)@ == leave_as_found(old(self)@).0,
            final(out)@ == old(out)@ + leave_as_found(old(self)@).1,
    {
        let ghost before = out@;
        if self.toggles_sent % 2 == 1 {
            out.push(BgEffect::Testing(TestingNote::Restoring(self.toggles_sent)));
            self.toggle(out);
        } else {
            out.push(BgEffect::Testing(TestingNote::AsFound(self.toggles_sent)));
        }
        proof {
            assert(out@ =~= before + leave_as_found(old(self)@).1);
        }
    }

    fn fail(&mut self, why: BgFailure, out: &mut Vec<BgEffect>)
        requires
            old(self).toggles_sent < u32::MAX,
        ensures
            final(self)@ == fail(old(self)@, why).0,
            final(out)@ == old(out)@ + fail(old(self)@, why).1,
    {
        let ghost before = out@;
        out.push(BgEffect::Failure(why));
        self.leave_as_found(out);
        self.phase = Phase::Done;
        proof {
            assert(out@ =~= before + fail(old(self)@, why).1);
        }
    }

    fn finish(&mut self, out: &mut Vec<BgEffect>)
        requires
            old(self).toggles_sent < u32::MAX,
        ensures
            final(self)@ == finish(old(self)@).0,
            final(out)@ == old(out)@ + finish(old(self)@).1,
    {
        self.leave_as_found(out);
        self.phase = Phase::Done;
    }

    /// The drain's text (empty when none was taken), clearing the tap flag when it is gone.
    fn take_drain(&mut self, obs: &BgObs) -> (r: String)
        ensures
            r@ == drained(old(self)@, obs).0,
            final(self)@ == (BgView { tap_installed: drained(old(self)@, obs).1, ..old(self)@ }),
    {
        match &obs.drain {
            Some(d) => {
                let (text, gone) = read_drain(d);
                if gone {
                    self.tap_installed = false;
                }
                text
            },
            None => string_of(&Vec::new()),
        }
    }

    /// One frame of the probe.
    pub fn step(&mut self, now: u64, obs: &BgObs) -> (effects: Vec<BgEffect>)
        requires
            ready(old(self)@, now),
            obs_ok(obs),
        ensures
            final(self)@ == next(old(self)@, now, obs).0,
            effects@ == next(old(self)@, now, obs).1,
    {
        let mut out: Vec<BgEffect> = Vec::new();
        match self.phase {
            Phase::Wait | Phase::Hopped { .. } | Phase::Toggled { .. } | Phase::Scanning { .. }
            | Phase::Greeted { .. } => self.step_road(now, obs, &mut out),
            Phase::Joined { .. } | Phase::Rejoining { .. } | Phase::Ported { .. } => self.step_queue(
                now,
                obs,
                &mut out,
            ),
            _ => self.step_inside(now, obs, &mut out),
        }
        out
    }

    fn step_road(&mut self, now: u64, obs: &BgObs, out: &mut Vec<BgEffect>)
        requires
            ready(old(self)@, now),
            old(out)@.len() == 0,
            old(self).phase is Wait || old(self).phase is Hopped || old(self).phase is Toggled
                || old(self).phase is Scanning || old(self).phase is Greeted,
        ensures
            final(self)@ == next(old(self)@, now, obs).0,
            final(out)@ == next(old(self)@, now, obs).1,
    {
        let ghost start = self@;
        proof {
            crate::bg::lemma_first_match(obs.entities@, ARENAS@[self.arena as int].2, false);
        }
        match self.phase {
            Phase::Wait => {
                if obs.player_flags & PLAYER_FLAGS_GM != 0 {
                    let since = match self.waiting_since {
                        Some(s) => s,
                        None => now,
                    };
                    self.waiting_since = Some(since);
                    if !within_exec(now, since, GM_DROP_WAIT_MS) {
                        self.fail(BgFailure::GmStillOn, out);
                    }
                } else {
                    out.push(BgEffect::Gm(Gm::Revive));
                    match obs.level {
                        None => {},
                        Some(level) => {
                            if level < QUEUE_LEVEL {
                                out.push(BgEffect::Gm(Gm::LevelUp(QUEUE_LEVEL - level)));
                            }
                            out.push(BgEffect::Gm(Gm::ClearDeserter));
                            out.push(BgEffect::Gm(Gm::GoToBattlemaster));
                            self.phase = Phase::Hopped { sent_at: now };
                        },
                    }
                }
            },
            Phase::Hopped { sent_at } => {
                if !within_exec(now, sent_at, HOP_SETTLE_MS) {
                    self.toggle(out);
                    self.phase = Phase::Toggled { sent_at: now, corrected: false };
                }
            },
            Phase::Toggled { sent_at, corrected } => {
                if obs.has_vm {
                    let seen = self.take_drain(obs);
                    match testing_reading(seen.as_str()) {
                        Some(b) => {
                            self.testing_seen = Some(b);
                        },
                        None => {},
                    }
                    self.pending_events = concat_text(self.pending_events.as_str(), seen.as_str());
                }
                let seen_now = self.testing_seen;
                self.testing_seen = None;
                match seen_now {
                    Some(true) => {
                        self.testing_confirmed = true;
                        self.phase = Phase::Scanning { since: now };
                        out.push(BgEffect::Testing(TestingNote::Confirmed));
                    },
                    Some(false) => {
                        if corrected {
                            self.fail(BgFailure::TestingStaysOff, out);
                        } else {
                            out.push(BgEffect::Testing(TestingNote::TurnedOff));
                            self.toggle(out);
                            self.phase = Phase::Toggled { sent_at: now, corrected: true };
                        }
                    },
                    None => {
                        if waited_exec(now, sent_at, TOGGLE_REPLY_WINDOW_MS) {
                            self.phase = Phase::Scanning { since: now };
                            out.push(BgEffect::Testing(TestingNote::Unread));
                        }
                    },
                }
            },
            Phase::Scanning { since } => {
                let master = ARENAS[self.arena].2;
                match find_entity(&obs.entities, master, false) {
                    Some(i) => {
                        let g = obs.entities[i].guid;
                        self.phase = Phase::Greeted { master: g, sent_at: now };
                        out.push(BgEffect::Hello(g));
                    },
                    None => {
                        if waited_exec(now, since, SCAN_TIMEOUT_MS) {
                            self.fail(BgFailure::NoBattlemaster, out);
                        }
                    },
                }
            },
            Phase::Greeted { master, sent_at } => {
                if obs.list_from == Some(master) {
                    self.phase = Phase::Joined { sent_at: now };
                    out.push(BgEffect::Join { battlemaster: master, map_id: ARENAS[self.arena].1 });
                } else if waited_exec(now, sent_at, LIST_TIMEOUT_MS) {
                    self.fail(BgFailure::NoList, out);
                }
            },
            _ => {},
        }
        proof {
            assert(self@.pending_events =~= next(start, now, obs).0.pending_events);
            assert(self@ == next(start, now, obs).0);
            assert(out@ =~= next(start, now, obs).1);
        }
    }

    fn step_queue(&mut self, now: u64, obs: &BgObs, out: &mut Vec<BgEffect>)
        requires
            ready(old(self)@, now),
            obs_ok(obs),
            old(out)@.len() == 0,
            old(self).phase is Joined || old(self).phase is Rejoining || old(self).phase is Ported,
        ensures
            final(self)@ == next(old(self)@, now, obs).0,
            final(out)@ == next(old(self)@, now, obs).1,
    {
        let ghost start = self@;
        proof {
            crate::bg::lemma_ready_slot(obs.slots@, ARENAS@[self.arena as int].1);
            crate::bg_queue::lemma_first_queued(obs.slots@);
        }
        let map = ARENAS[self.arena].1;
        match self.phase {
            Phase::Joined { sent_at } => {
                match find_ready_slot(&obs.slots, map) {
                    Some(i) => {
                        if obs.has_vm {
                            self.accepting = true;
                            out.push(BgEffect::AcceptPort(i as u32 + 1));
                        } else {
                            self.fail(BgFailure::NoVmForPort, out);
                        }
                    },
                    None => {
                        if waited_exec(now, sent_at, REJOIN_AFTER_MS) && self.rejoins < MAX_REJOINS {
                            self.rejoins = self.rejoins + 1;
                            self.phase = Phase::Rejoining { at: now };
                            out.push(BgEffect::Rejoin(self.rejoins));
                            if obs.has_vm {
                                let slot = match find_queued(&obs.slots) {
                                    Some(k) => k as u32 + 1,
                                    None => 1,
                                };
                                out.push(BgEffect::DeclinePort(slot));
                            }
                        } else if waited_exec(now, sent_at, READY_TIMEOUT_MS) {
                            let confirmed = self.testing_confirmed;
                            self.fail(BgFailure::NotReady { testing_confirmed: confirmed }, out);
                        }
                    },
                }
            },
            Phase::Rejoining { at } => {
                if !within_exec(now, at, REJOIN_SETTLE_MS) {
                    match obs.list_from {
                        None => {
                            self.fail(BgFailure::ListGone, out);
                        },
                        Some(master) => {
                            self.phase = Phase::Joined { sent_at: now };
                            out.push(BgEffect::Join { battlemaster: master, map_id: map });
                        },
                    }
                }
            },
            Phase::Ported { sent_at } => {
                let here = match obs.map {
                    Some(m) => m,
                    None => 0,
                };
                if here == map {
                    self.phase = Phase::Inside {
                        entered_at: now,
                        next_census: now + CENSUS_EVERY_MS,
                        samples: 0,
                    };
                    out.push(BgEffect::Entered);
                } else if waited_exec(now, sent_at, PORT_TIMEOUT_MS) {
                    self.fail(BgFailure::StillOffMap(here), out);
                }
            },
            _ => {},
        }
        proof {
            assert(self@ == next(start, now, obs).0);
            assert(out@ =~= next(start, now, obs).1);
        }
    }

    fn step_inside(&mut self, now: u64, obs: &BgObs, out: &mut Vec<BgEffect>)
        requires
            ready(old(self)@, now),
            old(out)@.len() == 0,
            old(self).phase is Inside || old(self).phase is FlagHop || old(self).phase is FlagUsed
                || old(self).phase is Dying || old(self).phase is Graveyard || old(self).phase is Done,
        ensures
            final(self)@ == next(old(self)@, now, obs).0,
            final(out)@ == next(old(self)@, now, obs).1,
    {
        let ghost start = self@;
        let flag = ARENAS[self.arena].3;
        proof {
            crate::bg::lemma_first_match(obs.entities@, flag, true);
        }
        match self.phase {
            Phase::Inside { entered_at, next_census, samples } => {
                if now >= next_census {
                    if !obs.has_vm {
                        self.fail(BgFailure::VmGone, out);
                    } else {
                        let seen = self.take_drain(obs);
                        let n = samples + 1;
                        self.events = concat_text(self.pending_events.as_str(), seen.as_str());
                        self.pending_events = string_of(&Vec::new());
                        out.push(BgEffect::Census { t: now - entered_at, sample: n });
                        if n == 1 {
                            self.leave_as_found(out);
                        }
                        if n >= self.samples_target {
                            if flag != 0 {
                                self.phase = Phase::FlagHop { at: now };
                                out.push(BgEffect::Gm(Gm::GoToFlag));
                            } else {
                                self.phase = Phase::Dying { sent_at: now };
                                out.push(BgEffect::Gm(Gm::Die));
                            }
                        } else {
                            self.phase = Phase::Inside {
                                entered_at,
                                next_census: now + CENSUS_EVERY_MS,
                                samples: n,
                            };
                        }
                    }
                }
            },
            Phase::FlagHop { at } => {
                if !within_exec(now, at, FLAG_HOP_SETTLE_MS) {
                    if flag == 0 {
                        self.finish(out);
                    } else {
                        match find_entity(&obs.entities, flag, true) {
                            Some(i) => {
                                let g = obs.entities[i].guid;
                                self.phase = Phase::FlagUsed { at: now, samples: 0 };
                                out.push(BgEffect::UseFlag(g));
                            },
                            None => {
                                if waited_exec(now, at, FLAG_TIMEOUT_MS) {
                                    self.phase = Phase::Dying { sent_at: now };
                                    out.push(BgEffect::Failure(BgFailure::FlagNeverStreamed));
                                    out.push(BgEffect::Gm(Gm::Die));
                                }
                            },
                        }
                    }
                }
            },
            Phase::FlagUsed { at, samples } => {
                if now >= at && now - at >= (samples as u64 + 1) * FLAG_SAMPLE_EVERY_MS {
                    if !obs.has_vm {
                        self.fail(BgFailure::VmGone, out);
                    } else {
                        let seen = self.take_drain(obs);
                        let n = samples + 1;
                        self.events = seen;
                        out.push(BgEffect::FlagSample { t: now - at });
                        if n >= FLAG_SAMPLES {
                            self.phase = Phase::Dying { sent_at: now };
                            out.push(BgEffect::Gm(Gm::Die));
                        } else {
                            self.phase = Phase::FlagUsed { at, samples: n };
                        }
                    }
                }
            },
            Phase::Dying { sent_at } => {
                if obs.dead {
                    self.phase = Phase::Graveyard {
                        released_at: now,
                        next_sample: now + GHOST_SAMPLE_EVERY_MS,
                        samples: 0,
                    };
                    out.push(BgEffect::Repop);
                } else if waited_exec(now, sent_at, DEATH_TIMEOUT_MS) {
                    self.fail(BgFailure::StillAlive, out);
                }
            },
            Phase::Graveyard { released_at, next_sample, samples } => {
                if now >= next_sample {
                    if !obs.has_vm {
                        self.finish(out);
                    } else {
                        let seen = self.take_drain(obs);
                        let n = samples + 1;
                        self.events = seen;
                        out.push(BgEffect::GhostSample { t: now - released_at });
                        if n >= GHOST_SAMPLES {
                            out.push(BgEffect::AcceptSpiritHeal);
                            out.push(BgEffect::Report);
                            out.push(BgEffect::Gm(Gm::GoHome));
                            self.finish(out);
                        } else {
                            self.phase = Phase::Graveyard {
                                released_at,
                                next_sample: now + GHOST_SAMPLE_EVERY_MS,
                                samples: n,
                            };
                        }
                    }
                }
            },
            _ => {},
        }
        proof {
            assert(self@.events =~= next(start, now, obs).0.events);
            assert(self@.pending_events =~= next(start, now, obs).0.pending_events);
            assert(self@ == next(start, now, obs).0);
            assert(out@ =~= next(start, now, obs).1);
        }
    }

    /// `AcceptBattlefieldPort`'s outcome for the [`BgEffect::AcceptPort`] just handed out.
    pub fn port_taken(&mut self, now: u64, ok: bool) -> (effects: Vec<BgEffect>)
        requires
            old(self).toggles_sent < u32::MAX,
        ensures
            final(self)@ == after_port(old(self)@, now, ok).0,
            effects@ == after_port(old(self)@, now, ok).1,
    {
        let mut out: Vec<BgEffect> = Vec::new();
        self.accepting = false;
        if ok {
            self.phase = Phase::Ported { sent_at: now };
        } else {
            self.fail(BgFailure::PortRaised, &mut out);
        }
        proof {
            assert(out@ =~= after_port(old(self)@, now, ok).1);
        }
        out
    }

    /// The exit, run after [`BgRun::step`] each frame: once `Done`, wait for the leave to land
    /// (the map no longer the arena's), or for the grace, then exit once.
    pub fn exit_step(&mut self, now: u64, map: Option<u32>) -> (effects: Vec<BgEffect>)
        requires
            old(self).arena < 3,
        ensures
            final(self)@ == exit_next(old(self)@, now, map).0,
            effects@ == exit_next(old(self)@, now, map).1,
    {
        let mut out: Vec<BgEffect> = Vec::new();
        if !(self.phase == Phase::Done) || self.exited {
            return out;
        }
        let since = match self.done_at {
            Some(s) => s,
            None => now,
        };
        self.done_at = Some(since);
        let left = !(map == Some(ARENAS[self.arena].1));
        if !left && within_exec(now, since, LEAVE_GRACE_MS) {
            return out;
        }
        self.exited = true;
        out.push(BgEffect::Exit { stranded: !left });
        proof {
            assert(out@ =~= exit_next(old(self)@, now, map).1);
        }
        out
    }
}

} // verus!
