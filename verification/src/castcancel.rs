//! The cast-cancel live probe (`WOW_PROBE=castcancel`) — the end-to-end instrument for the cast
//! bar's local self-cancel: once in-world, use the Hearthstone (a 10 s cast), then 2 s into the
//! bar press `W` through the real key input, and release it 0.3 s later. The verdict is read off
//! the cast trace; the probe also logs every cast-bar phase transition so the red bar's
//! hold/burst/fade durations are measured off timestamps.
//!
//! Times are milliseconds since the probe entered the world.
use crate::text::{chars_of, same_text, string_of};
use vstd::prelude::*;

verus! {

/// When the Hearthstone is first tried, and the deadline for its item link to resolve.
pub const USE_AT_MS: u64 = 3000;
pub const USE_DEADLINE_MS: u64 = 10000;
/// When `W` goes down after the use, and when it comes back up.
pub const PRESS_AFTER_MS: u64 = 2000;
pub const RELEASE_AFTER_MS: u64 = 2300;

/// The probe's position in its timeline.
#[derive(Clone, Copy, Debug, PartialEq, Eq, Structural)]
pub enum Stage {
    /// Waiting to use the Hearthstone.
    Start,
    /// The Hearthstone is in use; waiting to press `W`.
    Used,
    /// `W` is down; waiting to release it.
    Pressed,
    /// `W` released: the trace holds the verdict.
    Released,
    /// Gave up: no VM, no Hearthstone, or the chunk errored.
    Abandoned,
}

/// What the use-the-Hearthstone chunk answered.
#[derive(Clone, Copy, Debug, PartialEq, Eq, Structural)]
pub enum UseAnswer {
    /// Found and used.
    Used,
    /// Not resolved yet (the item query is still in flight).
    NotYet,
    /// The chunk errored.
    Error,
}

/// What the frame loop does this frame.
#[derive(Clone, Copy, Debug, PartialEq, Eq, Structural)]
pub enum CastEffect {
    /// Run the use-the-Hearthstone chunk and hand its answer to [`CastCancel::used`].
    UseHearthstone,
    /// No UI VM: the Hearthstone cannot be used.
    NoVm,
    /// Press `W`.
    PressW,
    /// Release `W`.
    ReleaseW,
}

/// The probe's state: when it entered the world, its stage, and when the Hearthstone went in.
#[derive(Clone, Copy, Debug, PartialEq, Eq, Structural)]
pub struct CastCancel {
    pub entered: Option<u64>,
    pub stage: Stage,
    pub used_at: Option<u64>,
}

/// Milliseconds since world entry.
pub open spec fn since_entry(p: CastCancel, now: u64) -> int {
    match p.entered {
        Some(e) => now - e,
        None => 0,
    }
}

/// One frame: the entry time latched on the first in-world frame, then the timeline.
pub open spec fn next(p: CastCancel, now: u64, has_vm: bool) -> (CastCancel, Seq<CastEffect>) {
    let q = CastCancel {
        entered: match p.entered {
            Some(e) => Some(e),
            None => Some(now),
        },
        ..p
    };
    let t = since_entry(q, now);
    match p.stage {
        Stage::Start => if t >= USE_AT_MS {
            if has_vm {
                (q, seq![CastEffect::UseHearthstone])
            } else {
                (CastCancel { stage: Stage::Abandoned, ..q }, seq![CastEffect::NoVm])
            }
        } else {
            (q, Seq::empty())
        },
        Stage::Used => if q.used_at matches Some(u) && t >= u + PRESS_AFTER_MS {
            (CastCancel { stage: Stage::Pressed, ..q }, seq![CastEffect::PressW])
        } else {
            (q, Seq::empty())
        },
        Stage::Pressed => if q.used_at matches Some(u) && t >= u + RELEASE_AFTER_MS {
            (CastCancel { stage: Stage::Released, ..q }, seq![CastEffect::ReleaseW])
        } else {
            (q, Seq::empty())
        },
        _ => (q, Seq::empty()),
    }
}

/// Where the chunk's answer takes the probe at `now`.
pub open spec fn after_use(p: CastCancel, now: u64, answer: UseAnswer) -> CastCancel {
    let t = since_entry(p, now);
    match answer {
        UseAnswer::Used => CastCancel { stage: Stage::Used, used_at: Some(t as u64), ..p },
        UseAnswer::NotYet => if t >= USE_DEADLINE_MS {
            CastCancel { stage: Stage::Abandoned, ..p }
        } else {
            p
        },
        UseAnswer::Error => CastCancel { stage: Stage::Abandoned, ..p },
    }
}

impl CastCancel {
    pub fn new() -> (p: CastCancel)
        ensures
            p == (CastCancel { entered: None, stage: Stage::Start, used_at: None }),
    {
        CastCancel { entered: None, stage: Stage::Start, used_at: None }
    }

    /// One in-world frame at `now`.
    pub fn step(&mut self, now: u64, has_vm: bool) -> (effects: Vec<CastEffect>)
        requires
            old(self).entered matches Some(e) ==> e <= now,
            old(self).used_at matches Some(u) ==> u <= u64::MAX - RELEASE_AFTER_MS,
        ensures
            *final(self) == next(*old(self), now, has_vm).0,
            effects@ == next(*old(self), now, has_vm).1,
    {
        let entered = match self.entered {
            Some(e) => e,
            None => {
                self.entered = Some(now);
                now
            },
        };
        let t = now - entered;
        let mut out: Vec<CastEffect> = Vec::new();
        match self.stage {
            Stage::Start => {
                if t >= USE_AT_MS {
                    if has_vm {
                        out.push(CastEffect::UseHearthstone);
                    } else {
                        self.stage = Stage::Abandoned;
                        out.push(CastEffect::NoVm);
                    }
                }
            },
            Stage::Used => {
                match self.used_at {
                    Some(u) => {
                        if t >= u + PRESS_AFTER_MS {
                            self.stage = Stage::Pressed;
                            out.push(CastEffect::PressW);
                        }
                    },
                    None => {},
                }
            },
            Stage::Pressed => {
                match self.used_at {
                    Some(u) => {
                        if t >= u + RELEASE_AFTER_MS {
                            self.stage = Stage::Released;
                            out.push(CastEffect::ReleaseW);
                        }
                    },
                    None => {},
                }
            },
            _ => {},
        }
        proof {
            assert(out@ =~= next(*old(self), now, has_vm).1);
        }
        out
    }

    /// The use chunk's answer at `now`: used (the press clock starts), not yet (retry until the
    /// deadline), or errored.
    pub fn used(&mut self, now: u64, answer: UseAnswer)
        requires
            old(self).entered matches Some(e) && e <= now,
        ensures
            *final(self) == after_use(*old(self), now, answer),
    {
        let t = match self.entered {
            Some(e) => now - e,
            None => 0,
        };
        match answer {
            UseAnswer::Used => {
                self.stage = Stage::Used;
                self.used_at = Some(t);
            },
            UseAnswer::NotYet => {
                if t >= USE_DEADLINE_MS {
                    self.stage = Stage::Abandoned;
                }
            },
            UseAnswer::Error => {
                self.stage = Stage::Abandoned;
            },
        }
    }
}

/// `W` is pressed exactly `PRESS_AFTER_MS` or more after the Hearthstone went in, and released
/// only after `RELEASE_AFTER_MS`: the timeline's order is press, then release, each once.
pub proof fn w_is_pressed_then_released_in_order(p: CastCancel, now: u64, has_vm: bool)
    ensures
        next(p, now, has_vm).1.contains(CastEffect::PressW) ==> ({
            &&& p.stage == Stage::Used
            &&& next(p, now, has_vm).0.stage == Stage::Pressed
            &&& p.used_at matches Some(u)
            &&& since_entry(next(p, now, has_vm).0, now) >= u + PRESS_AFTER_MS
        }),
        next(p, now, has_vm).1.contains(CastEffect::ReleaseW) ==> ({
            &&& p.stage == Stage::Pressed
            &&& next(p, now, has_vm).0.stage == Stage::Released
            &&& p.used_at matches Some(u)
            &&& since_entry(next(p, now, has_vm).0, now) >= u + RELEASE_AFTER_MS
        }),
{
    let e = next(p, now, has_vm).1;
    if e.contains(CastEffect::PressW) {
        let i = choose|i: int| 0 <= i < e.len() && e[i] == CastEffect::PressW;
        assert(e[i] == CastEffect::PressW);
    }
    if e.contains(CastEffect::ReleaseW) {
        let i = choose|i: int| 0 <= i < e.len() && e[i] == CastEffect::ReleaseW;
        assert(e[i] == CastEffect::ReleaseW);
    }
}

/// The cast bar's last logged state: a state is logged when, and only when, it differs from the
/// last one.
pub struct BarTimeline {
    pub last: String,
}

impl BarTimeline {
    pub fn new() -> (b: BarTimeline)
        ensures
            b.last@ == Seq::<char>::empty(),
    {
        BarTimeline { last: string_of(&Vec::new()) }
    }

    /// A state read off the bar: whether it is a transition to log; the last state becomes it.
    pub fn observe(&mut self, state: &str) -> (changed: bool)
        ensures
            changed == (state@ != old(self).last@),
            final(self).last@ == state@,
    {
        let a = chars_of(state);
        let b = chars_of(self.last.as_str());
        let changed = !same_text(&a, &b);
        if changed {
            self.last = string_of(&a);
        }
        changed
    }
}

} // verus!
