//! The battleground-queue live probe (`WOW_PROBE_BGQUEUE=1`) — the instrument that makes "log in
//! while queued for a battleground" a shape anyone can reproduce.
//!
//! Revive, level past the bracket floor, GM-hop to the Stormwind Warsong Gulch battlemaster, greet
//! him on the real wire, queue through the guid his list carried, and report the slot the server
//! put us in. The body is left queued on purpose: the next plain login is the measurement, this
//! run is its fixture.
use crate::probe_clock::{waited, waited_exec, within, within_exec, UnitSighting};
use vstd::prelude::*;

verus! {

/// Warsong Gulch's map id.
pub const WSG_MAP: u32 = 489;
/// The level the probe body is raised to before queueing: past every patch's bracket floor.
pub const QUEUE_LEVEL: u32 = 25;
/// `UNIT_NPC_FLAG_BATTLEMASTER`.
pub const NPC_FLAG_BATTLEMASTER: u32 = 0x800;
pub const SETTLE_MS: u64 = 3000;
pub const SCAN_TIMEOUT_MS: u64 = 15000;
pub const LIST_TIMEOUT_MS: u64 = 8000;
pub const JOIN_TIMEOUT_MS: u64 = 15000;

/// A battlemaster: a unit in range carrying the battlemaster flag.
pub open spec fn is_battlemaster(u: UnitSighting) -> bool {
    u.is_unit && u.in_range && u.npc_flags & NPC_FLAG_BATTLEMASTER != 0
}

/// The index of the first battlemaster among the sightings.
pub open spec fn battlemaster_index(units: Seq<UnitSighting>) -> Option<int>
    decreases units.len(),
{
    if units.len() == 0 {
        None
    } else if is_battlemaster(units[0]) {
        Some(0)
    } else {
        match battlemaster_index(units.drop_first()) {
            Some(i) => Some(i + 1),
            None => None,
        }
    }
}

proof fn lemma_battlemaster_index(units: Seq<UnitSighting>)
    ensures
        battlemaster_index(units) matches Some(i) ==> 0 <= i < units.len() && is_battlemaster(
            units[i],
        ),
    decreases units.len(),
{
    if units.len() > 0 && !is_battlemaster(units[0]) {
        lemma_battlemaster_index(units.drop_first());
    }
}

/// The first battlemaster among the sightings.
pub fn find_battlemaster(units: &Vec<UnitSighting>) -> (r: Option<usize>)
    ensures
        r matches Some(i) ==> i < units@.len() && battlemaster_index(units@) == Some(i as int),
        r is None ==> battlemaster_index(units@) is None,
{
    proof {
        assert(units@.skip(0) =~= units@);
        lemma_battlemaster_index(units@);
    }
    let mut i = 0usize;
    while i < units.len()
        invariant
            i <= units@.len(),
            battlemaster_index(units@) == match battlemaster_index(units@.skip(i as int)) {
                Some(j) => Some(j + i),
                None => None,
            },
        decreases units@.len() - i,
    {
        let ghost rest = units@.skip(i as int);
        proof {
            assert(rest.drop_first() =~= units@.skip(i + 1));
            assert(rest[0] == units@[i as int]);
        }
        let u = units[i];
        if u.is_unit && u.in_range && u.npc_flags & NPC_FLAG_BATTLEMASTER != 0 {
            return Some(i);
        }
        i += 1;
    }
    proof {
        assert(units@.skip(i as int).len() == 0);
    }
    None
}

/// One battlefield queue slot's status, as the server last reported it.
#[derive(Clone, Copy, Debug, PartialEq, Eq, Structural)]
pub struct QueueStatus {
    pub map_id: u32,
    pub status: u32,
    pub instance_id: u32,
}

/// The first occupied queue slot.
pub open spec fn first_queued(slots: Seq<Option<QueueStatus>>) -> Option<int>
    decreases slots.len(),
{
    if slots.len() == 0 {
        None
    } else if slots[0] is Some {
        Some(0)
    } else {
        match first_queued(slots.drop_first()) {
            Some(i) => Some(i + 1),
            None => None,
        }
    }
}

pub proof fn lemma_first_queued(slots: Seq<Option<QueueStatus>>)
    ensures
        first_queued(slots) matches Some(i) ==> 0 <= i < slots.len() && slots[i] is Some,
    decreases slots.len(),
{
    if slots.len() > 0 && slots[0] is None {
        lemma_first_queued(slots.drop_first());
    }
}

/// The first occupied queue slot.
pub fn find_queued(slots: &Vec<Option<QueueStatus>>) -> (r: Option<usize>)
    ensures
        r matches Some(i) ==> i < slots@.len() && first_queued(slots@) == Some(i as int),
        r is None ==> first_queued(slots@) is None,
{
    proof {
        assert(slots@.skip(0) =~= slots@);
        lemma_first_queued(slots@);
    }
    let mut i = 0usize;
    while i < slots.len()
        invariant
            i <= slots@.len(),
            first_queued(slots@) == match first_queued(slots@.skip(i as int)) {
                Some(j) => Some(j + i),
                None => None,
            },
        decreases slots@.len() - i,
    {
        let ghost rest = slots@.skip(i as int);
        proof {
            assert(rest.drop_first() =~= slots@.skip(i + 1));
            assert(rest[0] == slots@[i as int]);
        }
        if slots[i].is_some() {
            return Some(i);
        }
        i += 1;
    }
    proof {
        assert(slots@.skip(i as int).len() == 0);
    }
    None
}

/// Why the queue could not be set up.
#[derive(Clone, Copy, Debug, PartialEq, Eq, Structural)]
pub enum QueueFailure {
    /// No battlemaster streamed in.
    NoBattlemaster,
    /// No battlefield list after the hello (a level under the bracket floor is refused silently).
    NoList,
    /// No queue slot after the join.
    NotQueued,
}

/// The probe's phases. Times are probe-clock milliseconds.
#[derive(Clone, Copy, Debug, PartialEq, Eq, Structural)]
pub enum Phase {
    Wait,
    /// Levelled and hopped; letting the battlemaster stream in.
    Hopped { sent_at: u64 },
    /// Hello sent to this battlemaster; waiting for his list.
    Greeted { master: u64, sent_at: u64 },
    /// The join sent; waiting for a queue slot.
    Joined { sent_at: u64 },
    Done,
}

/// What the frame loop does or reports, in order.
#[derive(Clone, Copy, Debug, PartialEq, Eq, Structural)]
pub enum QueueEffect {
    /// Say `.revive`: a dead body cannot talk to an NPC.
    Revive,
    /// Say `.levelup <n>`.
    LevelUp(u32),
    /// Say `.go xyz` to the battlemaster's spawn.
    GoToBattlemaster,
    /// `CMSG_BATTLEMASTER_HELLO`.
    Hello(u64),
    /// `CMSG_BATTLEMASTER_JOIN` through the battlemaster, for this map, instance 0, alone.
    Join { battlemaster: u64, map_id: u32 },
    /// Queued in this slot with this status.
    Queued { slot: usize, status: QueueStatus },
    /// A `FAILURE` line.
    Failure(QueueFailure),
}

/// What the frame loop read this frame.
pub struct QueueObs {
    /// The body's level (0 when unread).
    pub level: u32,
    pub units: Vec<UnitSighting>,
    /// The battlemaster whose battlefield list landed.
    pub list_from: Option<u64>,
    /// The queue slots.
    pub slots: Vec<Option<QueueStatus>>,
}

/// One frame of the probe.
pub open spec fn next(phase: Phase, now: u64, obs: &QueueObs) -> (Phase, Seq<QueueEffect>) {
    match phase {
        Phase::Wait => (
            Phase::Hopped { sent_at: now },
            seq![QueueEffect::Revive] + (if obs.level < QUEUE_LEVEL {
                seq![QueueEffect::LevelUp((QUEUE_LEVEL - obs.level) as u32)]
            } else {
                Seq::empty()
            }) + seq![QueueEffect::GoToBattlemaster],
        ),
        Phase::Hopped { sent_at } => if within(now, sent_at, SETTLE_MS) {
            (phase, Seq::empty())
        } else {
            match battlemaster_index(obs.units@) {
                Some(i) => {
                    let g = obs.units@[i].guid;
                    (Phase::Greeted { master: g, sent_at: now }, seq![QueueEffect::Hello(g)])
                },
                None => if waited(now, sent_at, SCAN_TIMEOUT_MS) {
                    (Phase::Done, seq![QueueEffect::Failure(QueueFailure::NoBattlemaster)])
                } else {
                    (phase, Seq::empty())
                },
            }
        },
        Phase::Greeted { master, sent_at } => if obs.list_from == Some(master) {
            (
                Phase::Joined { sent_at: now },
                seq![QueueEffect::Join { battlemaster: master, map_id: WSG_MAP }],
            )
        } else if waited(now, sent_at, LIST_TIMEOUT_MS) {
            (Phase::Done, seq![QueueEffect::Failure(QueueFailure::NoList)])
        } else {
            (phase, Seq::empty())
        },
        Phase::Joined { sent_at } => match first_queued(obs.slots@) {
            Some(i) => (
                Phase::Done,
                seq![QueueEffect::Queued { slot: i as usize, status: obs.slots@[i].unwrap() }],
            ),
            None => if waited(now, sent_at, JOIN_TIMEOUT_MS) {
                (Phase::Done, seq![QueueEffect::Failure(QueueFailure::NotQueued)])
            } else {
                (phase, Seq::empty())
            },
        },
        Phase::Done => (phase, Seq::empty()),
    }
}

/// The probe's state: just its phase.
pub struct QueueProbe {
    pub phase: Phase,
}

impl QueueProbe {
    pub fn new() -> (p: QueueProbe)
        ensures
            p.phase == Phase::Wait,
    {
        QueueProbe { phase: Phase::Wait }
    }

    /// One frame of the probe.
    pub fn step(&mut self, now: u64, obs: &QueueObs) -> (effects: Vec<QueueEffect>)
        ensures
            final(self).phase == next(old(self).phase, now, obs).0,
            effects@ == next(old(self).phase, now, obs).1,
    {
        let ghost start = self.phase;
        let mut out: Vec<QueueEffect> = Vec::new();
        proof {
            lemma_battlemaster_index(obs.units@);
            lemma_first_queued(obs.slots@);
        }
        match self.phase {
            Phase::Wait => {
                out.push(QueueEffect::Revive);
                if obs.level < QUEUE_LEVEL {
                    out.push(QueueEffect::LevelUp(QUEUE_LEVEL - obs.level));
                }
                out.push(QueueEffect::GoToBattlemaster);
                self.phase = Phase::Hopped { sent_at: now };
            },
            Phase::Hopped { sent_at } => {
                if !within_exec(now, sent_at, SETTLE_MS) {
                    match find_battlemaster(&obs.units) {
                        Some(i) => {
                            let g = obs.units[i].guid;
                            out.push(QueueEffect::Hello(g));
                            self.phase = Phase::Greeted { master: g, sent_at: now };
                        },
                        None => {
                            if waited_exec(now, sent_at, SCAN_TIMEOUT_MS) {
                                out.push(QueueEffect::Failure(QueueFailure::NoBattlemaster));
                                self.phase = Phase::Done;
                            }
                        },
                    }
                }
            },
            Phase::Greeted { master, sent_at } => {
                if obs.list_from == Some(master) {
                    out.push(QueueEffect::Join { battlemaster: master, map_id: WSG_MAP });
                    self.phase = Phase::Joined { sent_at: now };
                } else if waited_exec(now, sent_at, LIST_TIMEOUT_MS) {
                    out.push(QueueEffect::Failure(QueueFailure::NoList));
                    self.phase = Phase::Done;
                }
            },
            Phase::Joined { sent_at } => {
                match find_queued(&obs.slots) {
                    Some(i) => {
                        let status = obs.slots[i].unwrap();
                        out.push(QueueEffect::Queued { slot: i, status });
                        self.phase = Phase::Done;
                    },
                    None => {
                        if waited_exec(now, sent_at, JOIN_TIMEOUT_MS) {
                            out.push(QueueEffect::Failure(QueueFailure::NotQueued));
                            self.phase = Phase::Done;
                        }
                    },
                }
            },
            Phase::Done => {},
        }
        proof {
            assert(out@ =~= next(start, now, obs).1);
        }
        out
    }
}

/// The join quotes the guid of the battlemaster whose list landed, for Warsong Gulch; and the
/// body is raised to exactly the queue level when it is under it.
pub proof fn the_join_quotes_the_list_guid(phase: Phase, now: u64, obs: &QueueObs)
    ensures
        forall|i: int|
            0 <= i < next(phase, now, obs).1.len() ==> (#[trigger] next(phase, now, obs).1[i] matches QueueEffect::Join {
                battlemaster,
                map_id,
            } ==> phase matches Phase::Greeted { master, .. } && battlemaster == master
                && obs.list_from == Some(master) && map_id == WSG_MAP),
        forall|i: int|
            0 <= i < next(phase, now, obs).1.len() ==> (#[trigger] next(phase, now, obs).1[i] matches QueueEffect::LevelUp(
                n,
            ) ==> obs.level + n == QUEUE_LEVEL),
{
}

} // verus!
