//! The chest live probe (`WOW_PROBE_CHEST=1`) — B84's instrument: does the player kneel at an
//! open chest?
//!
//! A kneel is a number here, not a picture: the probe reads the self unit's base animation id
//! each frame, so the verdict is `50` (`Loot`) or it is not. Three readings, in order, which is
//! what makes it a regression test and not a one-sided assertion:
//!
//! 1. **BEFORE** — parked at the chest, window shut: every frame must be `0` (`Stand`), the
//!    control.
//! 2. **OPEN** — the chest used on the click's own route, the loot window up: every frame `50`.
//! 3. **AFTER** — `CloseLoot()` through the live VM: back to `0`.
//!
//! The DONE line reports the loot latch and the kneel predicate beside the pose, read when the
//! OPEN window finished, so a failure says which half broke.
//!
//! The frame loop is the caller's: each frame it reads a [`ChestObs`], calls
//! [`ChestProbe::step`], performs the returned [`ChestEffect`]s, and hands the lock chain's answer
//! for a [`ChestEffect::ResolveRoute`] to [`ChestProbe::route_resolved`].
use crate::probe_clock::{waited, waited_exec, within, within_exec};
use vstd::prelude::*;

verus! {

/// `GAMEOBJECT_TYPE_CHEST` — the strategy type a chest (and a herb or mining node) carries.
pub const GO_TYPE_CHEST: i32 = 3;
/// The animation ids the verdict is written in: the kneel we want, and the Stand to return to.
pub const ANIM_LOOT: u16 = 50;
pub const ANIM_STAND: u16 = 0;
/// Frames each window samples: enough to outlast a transient.
pub const SAMPLE_FRAMES: usize = 60;
pub const SETTLE_MS: u64 = 5000;
pub const SCAN_TIMEOUT_MS: u64 = 25000;
pub const LOOT_TIMEOUT_MS: u64 = 15000;
pub const CLOSE_TIMEOUT_MS: u64 = 10000;

/// How many of `seen` are `Some(expect)`.
pub open spec fn held(seen: Seq<Option<u16>>, expect: u16) -> nat
    decreases seen.len(),
{
    if seen.len() == 0 {
        0
    } else {
        held(seen.drop_last(), expect) + if seen.last() == Some(expect) {
            1nat
        } else {
            0nat
        }
    }
}

/// What the window held instead of `expect`: each other reading once, first seen first.
pub open spec fn others(seen: Seq<Option<u16>>, expect: u16) -> Seq<Option<u16>>
    decreases seen.len(),
{
    if seen.len() == 0 {
        Seq::empty()
    } else {
        let r = others(seen.drop_last(), expect);
        let x = seen.last();
        if x != Some(expect) && !r.contains(x) {
            r.push(x)
        } else {
            r
        }
    }
}

/// The reading of a sampling window against the id it expects: the matching frames, the frame
/// count, and the distinct other readings.
pub struct WindowReport {
    pub held: usize,
    pub frames: usize,
    pub others: Vec<Option<u16>>,
    /// Every frame carried the expected id, and there was at least one frame.
    pub pass: bool,
}

/// The verdict of one sampling window against the id every frame of it must carry.
pub fn window_report(expect: u16, seen: &Vec<Option<u16>>) -> (r: WindowReport)
    ensures
        r.held == held(seen@, expect),
        r.frames == seen@.len(),
        r.others@ == others(seen@, expect),
        r.pass == (held(seen@, expect) == seen@.len() && seen@.len() > 0),
{
    let mut count = 0usize;
    let mut other: Vec<Option<u16>> = Vec::new();
    let mut i = 0usize;
    while i < seen.len()
        invariant
            i <= seen@.len(),
            count == held(seen@.take(i as int), expect),
            count <= i,
            other@ == others(seen@.take(i as int), expect),
        decreases seen@.len() - i,
    {
        proof {
            assert(seen@.take(i + 1).drop_last() =~= seen@.take(i as int));
        }
        let a = seen[i];
        if a == Some(expect) {
            count = count + 1;
        } else {
            let mut known = false;
            let mut k = 0usize;
            while k < other.len()
                invariant
                    k <= other@.len(),
                    known == other@.take(k as int).contains(a),
                decreases other@.len() - k,
            {
                proof {
                    let t = other@.take(k as int);
                    let t1 = other@.take(k + 1);
                    assert(t1 =~= t.push(other@[k as int]));
                    if t.contains(a) {
                        let j = choose|j: int| 0 <= j < t.len() && t[j] == a;
                        assert(t1[j] == a);
                    }
                    if other@[k as int] == a {
                        assert(t1[k as int] == a);
                    }
                    if t1.contains(a) {
                        let j = choose|j: int| 0 <= j < t1.len() && t1[j] == a;
                        if j < k {
                            assert(t[j] == a);
                        }
                    }
                }
                if other[k] == a {
                    known = true;
                }
                k += 1;
            }
            proof {
                assert(other@.take(other@.len() as int) =~= other@);
            }
            if !known {
                other.push(a);
            }
        }
        i += 1;
    }
    proof {
        assert(seen@.take(seen@.len() as int) =~= seen@);
    }
    let frames = seen.len();
    WindowReport { held: count, frames, others: other, pass: count == frames && frames > 0 }
}

/// A streamed object near the landing spot.
#[derive(Clone, Copy, Debug)]
pub struct ObjectSighting {
    pub guid: u64,
    /// The entity is a game object.
    pub is_game_object: bool,
    /// `gameobject_type_id()`.
    pub type_id: i32,
    /// Within the scan radius of the player.
    pub in_range: bool,
}

/// A chest: a game object of the chest type, in range.
pub open spec fn is_chest(o: ObjectSighting) -> bool {
    o.is_game_object && o.type_id == GO_TYPE_CHEST && o.in_range
}

/// The first chest among the sightings.
pub open spec fn chest_index(objects: Seq<ObjectSighting>) -> Option<int>
    decreases objects.len(),
{
    if objects.len() == 0 {
        None
    } else if is_chest(objects[0]) {
        Some(0)
    } else {
        match chest_index(objects.drop_first()) {
            Some(i) => Some(i + 1),
            None => None,
        }
    }
}

proof fn lemma_chest_index(objects: Seq<ObjectSighting>)
    ensures
        chest_index(objects) matches Some(i) ==> 0 <= i < objects.len() && is_chest(objects[i]),
    decreases objects.len(),
{
    if objects.len() > 0 && !is_chest(objects[0]) {
        lemma_chest_index(objects.drop_first());
    }
}

/// The first chest among the sightings.
pub fn find_chest(objects: &Vec<ObjectSighting>) -> (r: Option<usize>)
    ensures
        r matches Some(i) ==> i < objects@.len() && chest_index(objects@) == Some(i as int),
        r is None ==> chest_index(objects@) is None,
{
    proof {
        assert(objects@.skip(0) =~= objects@);
        lemma_chest_index(objects@);
    }
    let mut i = 0usize;
    while i < objects.len()
        invariant
            i <= objects@.len(),
            chest_index(objects@) == match chest_index(objects@.skip(i as int)) {
                Some(j) => Some(j + i),
                None => None,
            },
        decreases objects@.len() - i,
    {
        let ghost rest = objects@.skip(i as int);
        proof {
            assert(rest.drop_first() =~= objects@.skip(i + 1));
            assert(rest[0] == objects@[i as int]);
        }
        let o = objects[i];
        if o.is_game_object && o.type_id == GO_TYPE_CHEST && o.in_range {
            return Some(i);
        }
        i += 1;
    }
    proof {
        assert(objects@.skip(i as int).len() == 0);
    }
    None
}

/// What the shared lock chain says a right-click on the chest sends.
#[derive(Clone, Copy, Debug, PartialEq, Eq, Structural)]
pub enum ChestRoute {
    /// Lockless: `CMSG_GAMEOBJ_USE`.
    Use,
    /// The opener cast with this spell at the chest (the live arm).
    OpenLock(u32),
    /// A key the character lacks, or a lock it cannot meet.
    Refused,
}

/// Why the probe gave up before its three readings.
#[derive(Clone, Copy, Debug, PartialEq, Eq, Structural)]
pub enum ChestFailure {
    /// No chest streamed in range: a looted spawn is simply not there yet.
    NoChest,
    /// The lock chain refuses this object.
    LockRefused,
    /// No loot window after the use.
    NoLootWindow,
    /// The loot window never closed.
    NeverClosed,
}

/// The probe's phases. Times are probe-clock milliseconds.
#[derive(Clone, Copy, Debug, PartialEq, Eq, Structural)]
pub enum Phase {
    Wait,
    /// `.go` issued; letting the world stream the chest in.
    Settling { sent_at: u64 },
    /// Sampling with the chest shut — the control window.
    Before,
    /// The use packet is out; waiting for the server to open a loot window.
    WaitLoot { since: u64 },
    /// Sampling with the loot window open — the reported condition.
    Open,
    /// `CloseLoot()` called; waiting for the window to go.
    WaitClosed { since: u64 },
    /// Sampling after the close.
    After,
    Done,
}

/// What the frame loop does or reports, in order.
#[derive(Clone, Copy, Debug, PartialEq, Eq, Structural)]
pub enum ChestEffect {
    /// Say `.go xyz` to the probe's target.
    GoToChest,
    /// Ask the lock chain what a right-click on this chest sends, and hand the answer to
    /// [`ChestProbe::route_resolved`].
    ResolveRoute(u64),
    /// `CMSG_GAMEOBJ_USE` on the chest.
    UseChest(u64),
    /// The opener cast at the chest.
    CastOpen { spell_id: u32, guid: u64 },
    /// `CloseLoot()` through the live VM.
    CloseLoot,
    /// A `FAIL` line; the probe is done.
    Failure(ChestFailure),
    /// Report the three windows ([`ChestProbe::summary`]) and the DONE line, then exit.
    Finished,
}

/// What the frame loop read this frame.
pub struct ChestObs {
    /// The self unit's base animation id.
    pub anim: Option<u16>,
    /// Game objects and units streamed in near the player, in the world's order.
    pub objects: Vec<ObjectSighting>,
    /// The loot window is up (the live UI's `LootFrame`, else the app-side session).
    pub window_open: bool,
    /// The loot latch (a loot session is open, and its source) and the kneel predicate.
    pub latch: Option<u64>,
    pub kneel: bool,
}

/// The probe's state.
pub struct ChestProbe {
    pub phase: Phase,
    pub chest: Option<u64>,
    /// The base animation ids seen in each window, in frame order.
    pub before: Vec<Option<u16>>,
    pub open: Vec<Option<u16>>,
    pub after: Vec<Option<u16>>,
    /// The two mechanism readings taken when the OPEN window finished.
    pub latch_open: Option<u64>,
    pub kneel_open: bool,
    pub fails: u32,
    pub exited: bool,
    /// The lock chain's answer is owed to [`ChestProbe::route_resolved`].
    pub routing: bool,
}

/// The probe as a value: its phase and fields, with each window as a sequence.
pub struct ChestView {
    pub phase: Phase,
    pub chest: Option<u64>,
    pub before: Seq<Option<u16>>,
    pub open: Seq<Option<u16>>,
    pub after: Seq<Option<u16>>,
    pub latch_open: Option<u64>,
    pub kneel_open: bool,
    pub fails: u32,
    pub exited: bool,
    pub routing: bool,
}

impl View for ChestProbe {
    type V = ChestView;

    open spec fn view(&self) -> ChestView {
        ChestView {
            phase: self.phase,
            chest: self.chest,
            before: self.before@,
            open: self.open@,
            after: self.after@,
            latch_open: self.latch_open,
            kneel_open: self.kneel_open,
            fails: self.fails,
            exited: self.exited,
            routing: self.routing,
        }
    }
}

/// `p` in `phase`.
pub open spec fn goto(p: ChestView, phase: Phase) -> ChestView {
    ChestView { phase, ..p }
}

/// `p` with one more fail, done.
pub open spec fn give_up(p: ChestView, why: ChestFailure) -> (ChestView, Seq<ChestEffect>) {
    (ChestView { fails: (p.fails + 1) as u32, phase: Phase::Done, ..p }, seq![ChestEffect::Failure(why)])
}

/// One frame of the probe.
pub open spec fn next(p: ChestView, now: u64, obs: &ChestObs) -> (ChestView, Seq<ChestEffect>) {
    match p.phase {
        Phase::Wait => (goto(p, Phase::Settling { sent_at: now }), seq![ChestEffect::GoToChest]),
        Phase::Settling { sent_at } => if within(now, sent_at, SETTLE_MS) {
            (p, Seq::empty())
        } else {
            match chest_index(obs.objects@) {
                Some(i) => (
                    ChestView { chest: Some(obs.objects@[i].guid), ..goto(p, Phase::Before) },
                    Seq::empty(),
                ),
                None => if waited(now, sent_at, SCAN_TIMEOUT_MS) {
                    give_up(p, ChestFailure::NoChest)
                } else {
                    (p, Seq::empty())
                },
            }
        },
        Phase::Before => {
            let q = ChestView { before: p.before.push(obs.anim), ..p };
            if q.before.len() < SAMPLE_FRAMES {
                (q, Seq::empty())
            } else {
                match p.chest {
                    None => (goto(q, Phase::Done), Seq::empty()),
                    Some(g) => (ChestView { routing: true, ..q }, seq![ChestEffect::ResolveRoute(g)]),
                }
            }
        },
        Phase::WaitLoot { since } => if obs.window_open {
            (goto(p, Phase::Open), Seq::empty())
        } else if waited(now, since, LOOT_TIMEOUT_MS) {
            give_up(p, ChestFailure::NoLootWindow)
        } else {
            (p, Seq::empty())
        },
        Phase::Open => {
            let q = ChestView { open: p.open.push(obs.anim), ..p };
            if q.open.len() >= SAMPLE_FRAMES {
                (
                    ChestView {
                        latch_open: obs.latch,
                        kneel_open: obs.kneel,
                        ..goto(q, Phase::WaitClosed { since: now })
                    },
                    seq![ChestEffect::CloseLoot],
                )
            } else {
                (q, Seq::empty())
            }
        },
        Phase::WaitClosed { since } => if !obs.window_open {
            (goto(p, Phase::After), Seq::empty())
        } else if waited(now, since, CLOSE_TIMEOUT_MS) {
            give_up(p, ChestFailure::NeverClosed)
        } else {
            (p, Seq::empty())
        },
        Phase::After => {
            let q = ChestView { after: p.after.push(obs.anim), ..p };
            if q.after.len() >= SAMPLE_FRAMES {
                (goto(q, Phase::Done), Seq::empty())
            } else {
                (q, Seq::empty())
            }
        },
        Phase::Done => if p.exited {
            (p, Seq::empty())
        } else {
            (ChestView { exited: true, ..p }, seq![ChestEffect::Finished])
        },
    }
}

/// Where the lock chain's answer takes the probe.
pub open spec fn after_route(p: ChestView, now: u64, route: ChestRoute) -> (
    ChestView,
    Seq<ChestEffect>,
) {
    let q = ChestView { routing: false, ..p };
    match p.chest {
        None => (goto(q, Phase::Done), Seq::empty()),
        Some(g) => match route {
            ChestRoute::Use => (
                goto(q, Phase::WaitLoot { since: now }),
                seq![ChestEffect::UseChest(g)],
            ),
            ChestRoute::OpenLock(spell_id) => (
                goto(q, Phase::WaitLoot { since: now }),
                seq![ChestEffect::CastOpen { spell_id, guid: g }],
            ),
            ChestRoute::Refused => give_up(q, ChestFailure::LockRefused),
        },
    }
}

/// The windows never outgrow their sample count: the window being filled has room (or is full
/// and waiting on the lock chain), the windows ahead are still empty.
pub open spec fn windows_fit(p: ChestView) -> bool {
    &&& p.before.len() <= SAMPLE_FRAMES
    &&& p.open.len() <= SAMPLE_FRAMES
    &&& p.after.len() <= SAMPLE_FRAMES
    &&& match p.phase {
        Phase::Wait | Phase::Settling { .. } => p.before.len() == 0 && p.open.len() == 0
            && p.after.len() == 0,
        Phase::Before => (p.before.len() < SAMPLE_FRAMES || p.routing) && p.open.len() == 0
            && p.after.len() == 0,
        Phase::WaitLoot { .. } => p.open.len() == 0 && p.after.len() == 0,
        Phase::Open => p.open.len() < SAMPLE_FRAMES && p.after.len() == 0,
        Phase::WaitClosed { .. } => p.after.len() == 0,
        Phase::After => p.after.len() < SAMPLE_FRAMES,
        Phase::Done => true,
    }
}

/// What the probe keeps between frames: no answer owed, room for a fail, windows that fit.
pub open spec fn ready(p: ChestView) -> bool {
    &&& !p.routing
    &&& p.fails < u32::MAX
    &&& windows_fit(p)
}

/// The three windows' verdicts and the run's failures.
pub struct ChestSummary {
    pub before: WindowReport,
    pub open: WindowReport,
    pub after: WindowReport,
    /// The probe's own failures plus each window that failed.
    pub fails: u32,
}

impl ChestProbe {
    /// A fresh probe, waiting to start.
    pub fn new() -> (p: ChestProbe)
        ensures
            p@.phase == Phase::Wait,
            p@.chest is None,
            p@.before.len() == 0,
            p@.open.len() == 0,
            p@.after.len() == 0,
            p@.fails == 0,
            !p@.exited,
            p@.latch_open is None && !p@.kneel_open && !p@.routing,
            ready(p@),
    {
        ChestProbe {
            phase: Phase::Wait,
            chest: None,
            before: Vec::new(),
            open: Vec::new(),
            after: Vec::new(),
            latch_open: None,
            kneel_open: false,
            fails: 0,
            exited: false,
            routing: false,
        }
    }

    /// One frame of the probe.
    pub fn step(&mut self, now: u64, obs: &ChestObs) -> (effects: Vec<ChestEffect>)
        requires
            ready(old(self)@),
        ensures
            final(self)@ == next(old(self)@, now, obs).0,
            effects@ == next(old(self)@, now, obs).1,
    {
        let ghost start = self@;
        let mut out: Vec<ChestEffect> = Vec::new();
        proof {
            lemma_chest_index(obs.objects@);
        }
        match self.phase {
            Phase::Wait => {
                self.phase = Phase::Settling { sent_at: now };
                out.push(ChestEffect::GoToChest);
            },
            Phase::Settling { sent_at } => {
                if !within_exec(now, sent_at, SETTLE_MS) {
                    match find_chest(&obs.objects) {
                        Some(i) => {
                            self.chest = Some(obs.objects[i].guid);
                            self.phase = Phase::Before;
                        },
                        None => {
                            if waited_exec(now, sent_at, SCAN_TIMEOUT_MS) {
                                self.fails = self.fails + 1;
                                self.phase = Phase::Done;
                                out.push(ChestEffect::Failure(ChestFailure::NoChest));
                            }
                        },
                    }
                }
            },
            Phase::Before => {
                self.before.push(obs.anim);
                if self.before.len() >= SAMPLE_FRAMES {
                    match self.chest {
                        None => {
                            self.phase = Phase::Done;
                        },
                        Some(g) => {
                            self.routing = true;
                            out.push(ChestEffect::ResolveRoute(g));
                        },
                    }
                }
            },
            Phase::WaitLoot { since } => {
                if obs.window_open {
                    self.phase = Phase::Open;
                } else if waited_exec(now, since, LOOT_TIMEOUT_MS) {
                    self.fails = self.fails + 1;
                    self.phase = Phase::Done;
                    out.push(ChestEffect::Failure(ChestFailure::NoLootWindow));
                }
            },
            Phase::Open => {
                self.open.push(obs.anim);
                if self.open.len() >= SAMPLE_FRAMES {
                    self.latch_open = obs.latch;
                    self.kneel_open = obs.kneel;
                    self.phase = Phase::WaitClosed { since: now };
                    out.push(ChestEffect::CloseLoot);
                }
            },
            Phase::WaitClosed { since } => {
                if !obs.window_open {
                    self.phase = Phase::After;
                } else if waited_exec(now, since, CLOSE_TIMEOUT_MS) {
                    self.fails = self.fails + 1;
                    self.phase = Phase::Done;
                    out.push(ChestEffect::Failure(ChestFailure::NeverClosed));
                }
            },
            Phase::After => {
                self.after.push(obs.anim);
                if self.after.len() >= SAMPLE_FRAMES {
                    self.phase = Phase::Done;
                }
            },
            Phase::Done => {
                if !self.exited {
                    self.exited = true;
                    out.push(ChestEffect::Finished);
                }
            },
        }
        proof {
            assert(self@.before =~= next(start, now, obs).0.before);
            assert(self@.open =~= next(start, now, obs).0.open);
            assert(self@.after =~= next(start, now, obs).0.after);
            assert(self@ == next(start, now, obs).0);
            assert(out@ =~= next(start, now, obs).1);
        }
        out
    }

    /// The lock chain's answer for the [`ChestEffect::ResolveRoute`] just handed out: send the
    /// packet the right-click would send, or give up on a lock this character cannot open.
    pub fn route_resolved(&mut self, now: u64, route: ChestRoute) -> (effects: Vec<ChestEffect>)
        requires
            old(self)@.fails < u32::MAX,
        ensures
            final(self)@ == after_route(old(self)@, now, route).0,
            effects@ == after_route(old(self)@, now, route).1,
    {
        let ghost start = self@;
        let mut out: Vec<ChestEffect> = Vec::new();
        self.routing = false;
        match self.chest {
            None => {
                self.phase = Phase::Done;
            },
            Some(g) => match route {
                ChestRoute::Use => {
                    self.phase = Phase::WaitLoot { since: now };
                    out.push(ChestEffect::UseChest(g));
                },
                ChestRoute::OpenLock(spell_id) => {
                    self.phase = Phase::WaitLoot { since: now };
                    out.push(ChestEffect::CastOpen { spell_id, guid: g });
                },
                ChestRoute::Refused => {
                    self.fails = self.fails + 1;
                    self.phase = Phase::Done;
                    out.push(ChestEffect::Failure(ChestFailure::LockRefused));
                },
            },
        }
        proof {
            assert(self@ == after_route(start, now, route).0);
            assert(out@ =~= after_route(start, now, route).1);
        }
        out
    }

    /// The three windows against the ids they must carry — Stand, Loot, Stand — and the run's
    /// failure count, one more for each window that failed.
    pub fn summary(&self) -> (r: ChestSummary)
        requires
            self@.fails <= u32::MAX - 3,
        ensures
            r.before.pass == (held(self@.before, ANIM_STAND) == self@.before.len()
                && self@.before.len() > 0),
            r.open.pass == (held(self@.open, ANIM_LOOT) == self@.open.len() && self@.open.len()
                > 0),
            r.after.pass == (held(self@.after, ANIM_STAND) == self@.after.len()
                && self@.after.len() > 0),
            r.before.held == held(self@.before, ANIM_STAND),
            r.open.held == held(self@.open, ANIM_LOOT),
            r.after.held == held(self@.after, ANIM_STAND),
            r.before.others@ == others(self@.before, ANIM_STAND),
            r.open.others@ == others(self@.open, ANIM_LOOT),
            r.after.others@ == others(self@.after, ANIM_STAND),
            r.fails == self@.fails + (if r.before.pass {
                0int
            } else {
                1int
            }) + (if r.open.pass {
                0int
            } else {
                1int
            }) + (if r.after.pass {
                0int
            } else {
                1int
            }),
    {
        let before = window_report(ANIM_STAND, &self.before);
        let open = window_report(ANIM_LOOT, &self.open);
        let after = window_report(ANIM_STAND, &self.after);
        let mut fails = self.fails;
        if !before.pass {
            fails = fails + 1;
        }
        if !open.pass {
            fails = fails + 1;
        }
        if !after.pass {
            fails = fails + 1;
        }
        ChestSummary { before, open, after, fails }
    }
}

/// Each window is sampled in full before the probe acts on it, and no window ever holds more
/// than its sample count: the chest is used only after the whole control window, the loot window
/// is closed only after the whole OPEN window (with the latch and kneel read at that moment), and
/// the frame keeps every window within its count.
pub proof fn windows_are_full_before_the_next_reading(p: ChestView, now: u64, obs: &ChestObs)
    requires
        ready(p),
    ensures
        windows_fit(next(p, now, obs).0),
        forall|i: int|
            0 <= i < next(p, now, obs).1.len() && #[trigger] next(p, now, obs).1[i] is ResolveRoute
                ==> next(p, now, obs).0.before.len() == SAMPLE_FRAMES && next(p, now, obs).0.routing,
        forall|i: int|
            0 <= i < next(p, now, obs).1.len() && #[trigger] next(p, now, obs).1[i] is CloseLoot
                ==> {
                &&& next(p, now, obs).0.open.len() == SAMPLE_FRAMES
                &&& next(p, now, obs).0.latch_open == obs.latch
                &&& next(p, now, obs).0.kneel_open == obs.kneel
            },
{
}

/// The lock chain's answer clears the debt and keeps the windows within their counts.
pub proof fn a_route_keeps_the_windows(p: ChestView, now: u64, route: ChestRoute)
    requires
        windows_fit(p),
        p.phase is Before,
        p.routing,
        p.fails < u32::MAX,
    ensures
        ready(after_route(p, now, route).0) || after_route(p, now, route).0.fails == p.fails + 1,
        !after_route(p, now, route).0.routing,
        windows_fit(after_route(p, now, route).0),
{
}

/// The summary is printed once, from `Done`.
pub proof fn chest_done_is_printed_once(p: ChestView, now: u64, obs: &ChestObs)
    requires
        ready(p),
    ensures
        p.exited ==> next(p, now, obs).0.exited,
        forall|i: int|
            0 <= i < next(p, now, obs).1.len() && #[trigger] next(p, now, obs).1[i] is Finished
                ==> p.phase is Done && !p.exited && next(p, now, obs).0.exited,
{
}

} // verus!
